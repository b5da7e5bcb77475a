//! Values read from a verified consensus state snapshot.
use vstd::prelude::*;

verus! {

/// Height that asks the consensus verifier for the latest state it treats as settled.
pub const HEIGHT_LATEST: u64 = 0;

/// Runtime or key manager identifier.
#[derive(Clone, Copy, Debug, PartialEq, Eq)]
pub struct Namespace(pub [u8; 32]);

/// A public key of a policy signer.
#[derive(Clone, Copy, Debug, PartialEq, Eq)]
pub struct PublicKey(pub [u8; 32]);

/// Whether two byte arrays of 32 bytes are equal.
fn bytes32_equal(a: &[u8; 32], b: &[u8; 32]) -> (r: bool)
    ensures
        r == (a@ == b@),
{
    let mut i: usize = 0;
    while i < 32
        invariant
            i <= 32,
            a@.len() == 32,
            b@.len() == 32,
            forall|j: int| 0 <= j < i ==> a@[j] == b@[j],
        decreases 32 - i,
    {
        if a[i] != b[i] {
            return false;
        }
        i = i + 1;
    }
    assert(a@ =~= b@);
    true
}

/// Whether two byte vectors are equal.
fn bytes_equal(a: &Vec<u8>, b: &Vec<u8>) -> (r: bool)
    ensures
        r == (a@ == b@),
{
    if a.len() != b.len() {
        return false;
    }
    let mut i: usize = 0;
    while i < a.len()
        invariant
            i <= a@.len(),
            a@.len() == b@.len(),
            forall|j: int| 0 <= j < i ==> a@[j] == b@[j],
        decreases a@.len() - i,
    {
        if a[i] != b[i] {
            return false;
        }
        i = i + 1;
    }
    assert(a@ =~= b@);
    true
}

impl View for Namespace {
    type V = Seq<u8>;

    open spec fn view(&self) -> Seq<u8> {
        self.0@
    }
}

impl Namespace {
    /// Whether two identifiers hold the same bytes.
    pub fn equals(&self, other: &Namespace) -> (r: bool)
        ensures
            r == (self@ == other@),
    {
        bytes32_equal(&self.0, &other.0)
    }
}

impl View for PublicKey {
    type V = Seq<u8>;

    open spec fn view(&self) -> Seq<u8> {
        self.0@
    }
}

/// Runtime version.
#[derive(Clone, Copy, Debug, PartialEq, Eq, Structural)]
pub struct Version {
    pub major: u16,
    pub minor: u16,
    pub patch: u16,
}

/// TEE hardware a runtime is declared to run on.
#[derive(Clone, Copy, Debug, PartialEq, Eq, Structural)]
pub enum TEEHardware {
    TEEHardwareInvalid,
    TEEHardwareIntelSGX,
}

/// Acceptance rules for a hardware attestation quote.
#[derive(Clone, Copy, Debug, PartialEq, Eq, Structural)]
pub struct QuotePolicy {
    /// Whether quotes attested through IAS are refused.
    pub ias_disabled: bool,
    /// Whether quotes attested through PCS are refused.
    pub pcs_disabled: bool,
    /// Days that TCB information stays valid.
    pub tcb_validity_period: u16,
    /// Lowest TCB evaluation data number accepted.
    pub min_tcb_evaluation_data_number: u32,
}

/// SGX-specific constraints of a deployment.
#[derive(Clone, Copy, Debug, PartialEq, Eq, Structural)]
pub struct SGXConstraints {
    /// Quote policy of the deployment.
    pub policy: QuotePolicy,
}

impl SGXConstraints {
    /// Return the quote policy carried by the constraints.
    pub fn policy(&self) -> (r: QuotePolicy)
        ensures
            r == self.policy,
    {
        self.policy
    }
}

/// One deployment of a runtime version.
#[derive(Clone, Copy, Debug, PartialEq, Eq, Structural)]
pub struct VersionInfo {
    /// Deployed version.
    pub version: Version,
    /// First epoch at which the deployment is valid.
    pub valid_from: u64,
    /// TEE-specific constraints as SGX constraints; `None` where they do not decode as such.
    pub tee: Option<SGXConstraints>,
}

/// Runtime descriptor, as published in the registry.
#[derive(Clone, Debug, PartialEq, Eq)]
pub struct Runtime {
    /// Runtime identifier.
    pub id: Namespace,
    /// Declared TEE hardware.
    pub tee_hardware: TEEHardware,
    /// Key manager the runtime uses, if any.
    pub key_manager: Option<Namespace>,
    /// Deployments of the runtime.
    pub deployments: Vec<VersionInfo>,
}

/// The first deployment of the given version.
pub open spec fn deployment_of_version(ds: Seq<VersionInfo>, version: Version) -> Option<VersionInfo>
    decreases ds.len(),
{
    if ds.len() == 0 {
        None
    } else if ds[0].version == version {
        Some(ds[0])
    } else {
        deployment_of_version(ds.drop_first(), version)
    }
}

/// Deployment `k` is the active one at epoch `now` among the first `n`: it is
/// valid at `now`, no valid one starts later, and none before it starts as late.
pub open spec fn is_active_among(ds: Seq<VersionInfo>, n: int, now: u64, k: int) -> bool {
    &&& 0 <= k < n
    &&& ds[k].valid_from <= now
    &&& forall|j: int| 0 <= j < n && ds[j].valid_from <= now ==> ds[j].valid_from <= ds[k].valid_from
    &&& forall|j: int| 0 <= j < k && ds[j].valid_from <= now ==> ds[j].valid_from < ds[k].valid_from
}

/// The deployment active at epoch `now`: among those valid at `now`, the first of
/// those that start latest.
pub open spec fn active_deployment_at(ds: Seq<VersionInfo>, now: u64) -> Option<VersionInfo> {
    if exists|k: int| is_active_among(ds, ds.len() as int, now, k) {
        Some(ds[choose|k: int| is_active_among(ds, ds.len() as int, now, k)])
    } else {
        None
    }
}

impl Runtime {
    /// Return the deployment of the given version.
    pub fn deployment_for_version(&self, version: Version) -> (r: Option<VersionInfo>)
        ensures
            r == deployment_of_version(self.deployments@, version),
    {
        let ghost ds = self.deployments@;
        assert(ds.subrange(0, ds.len() as int) =~= ds);
        let mut i: usize = 0;
        while i < self.deployments.len()
            invariant
                i <= ds.len(),
                ds == self.deployments@,
                deployment_of_version(ds, version) == deployment_of_version(
                    ds.subrange(i as int, ds.len() as int),
                    version,
                ),
            decreases ds.len() - i,
        {
            assert(ds.subrange(i as int, ds.len() as int).drop_first() =~= ds.subrange(
                i + 1,
                ds.len() as int,
            ));
            if self.deployments[i].version == version {
                return Some(self.deployments[i]);
            }
            i = i + 1;
        }
        None
    }

    /// Return the deployment active at the given epoch.
    pub fn active_deployment(&self, now: u64) -> (r: Option<VersionInfo>)
        ensures
            r == active_deployment_at(self.deployments@, now),
    {
        let ghost ds = self.deployments@;
        let mut active: Option<usize> = None;
        let mut i: usize = 0;
        while i < self.deployments.len()
            invariant
                i <= ds.len(),
                ds == self.deployments@,
                active matches Some(k) ==> is_active_among(ds, i as int, now, k as int),
                active is None ==> forall|j: int| 0 <= j < i ==> ds[j].valid_from > now,
            decreases ds.len() - i,
        {
            let d = self.deployments[i].valid_from;
            if d <= now {
                match active {
                    None => {
                        active = Some(i);
                    },
                    Some(k) => {
                        if self.deployments[k].valid_from < d {
                            active = Some(i);
                        }
                    },
                }
            }
            i = i + 1;
        }
        match active {
            None => {
                assert(!exists|k: int| is_active_among(ds, ds.len() as int, now, k));
                None
            },
            Some(k) => {
                proof {
                    let c = choose|c: int| is_active_among(ds, ds.len() as int, now, c);
                    assert(c == k as int) by {
                        if c < k {
                            assert(ds[c].valid_from < ds[k as int].valid_from);
                        } else if c > k {
                            assert(ds[k as int].valid_from < ds[c].valid_from);
                        }
                    }
                }
                Some(self.deployments[k])
            },
        }
    }
}

/// A signed key manager access policy: the policy body and its signatures.
#[derive(Clone, Copy, Debug, PartialEq, Eq)]
pub struct PolicySGX {
    /// Serial number of the policy.
    pub serial: u32,
    /// Key manager the policy is for.
    pub id: Namespace,
}

/// One signature over a policy.
#[derive(Clone, Debug, PartialEq, Eq)]
pub struct SignatureBundle {
    /// Signer's public key.
    pub public_key: PublicKey,
    /// Signature bytes.
    pub signature: Vec<u8>,
}

impl View for SignatureBundle {
    type V = (Seq<u8>, Seq<u8>);

    open spec fn view(&self) -> (Seq<u8>, Seq<u8>) {
        (self.public_key@, self.signature@)
    }
}

/// A key manager policy with its signatures.
#[derive(Clone, Debug)]
pub struct SignedPolicySGX {
    /// The policy.
    pub policy: PolicySGX,
    /// Signatures over the policy.
    pub signatures: Vec<SignatureBundle>,
}

impl View for SignedPolicySGX {
    type V = (u32, Seq<u8>, Seq<(Seq<u8>, Seq<u8>)>);

    open spec fn view(&self) -> (u32, Seq<u8>, Seq<(Seq<u8>, Seq<u8>)>) {
        (self.policy.serial, self.policy.id@, self.signatures@.map_values(|s: SignatureBundle| s@))
    }
}

impl PartialEq for SignedPolicySGX {
    fn eq(&self, other: &SignedPolicySGX) -> (r: bool) {
        if self.policy.serial != other.policy.serial || !self.policy.id.equals(&other.policy.id) {
            return false;
        }
        if self.signatures.len() != other.signatures.len() {
            assert(self@.2.len() != other@.2.len());
            return false;
        }
        let mut i: usize = 0;
        while i < self.signatures.len()
            invariant
                i <= self.signatures@.len(),
                self.signatures@.len() == other.signatures@.len(),
                forall|j: int| 0 <= j < i ==> self.signatures@[j]@ == other.signatures@[j]@,
            decreases self.signatures@.len() - i,
        {
            let a = &self.signatures[i];
            let b = &other.signatures[i];
            if !bytes32_equal(&a.public_key.0, &b.public_key.0) || !bytes_equal(&a.signature, &b.signature) {
                assert(self@.2[i as int] != other@.2[i as int]);
                return false;
            }
            i = i + 1;
        }
        assert(self.signatures@.map_values(|s: SignatureBundle| s@) =~= other.signatures@.map_values(
            |s: SignatureBundle| s@,
        ));
        true
    }
}

impl vstd::std_specs::cmp::PartialEqSpecImpl for SignedPolicySGX {
    open spec fn obeys_eq_spec() -> bool {
        true
    }

    open spec fn eq_spec(&self, other: &SignedPolicySGX) -> bool {
        self@ == other@
    }
}

impl Eq for SignedPolicySGX {
}

/// A key manager's status, as published in consensus state.
#[derive(Clone, Debug, PartialEq, Eq)]
pub struct KeyManagerStatus {
    /// Key manager identifier.
    pub id: Namespace,
    /// The key manager's current policy, if one was published.
    pub policy: Option<SignedPolicySGX>,
}

/// A verified consensus state snapshot, with the registry, beacon and key manager
/// views that policy resolution reads.
#[derive(Clone, Debug, PartialEq, Eq)]
pub struct ConsensusState {
    /// Height of the snapshot.
    pub height: u64,
    /// Current epoch, as the beacon reports it.
    pub epoch: u64,
    /// Registered runtime descriptors.
    pub runtimes: Vec<Runtime>,
    /// Key manager statuses.
    pub key_managers: Vec<KeyManagerStatus>,
}

/// The first runtime descriptor with the given identifier.
pub open spec fn runtime_with_id(rs: Seq<Runtime>, id: Seq<u8>) -> Option<Runtime>
    decreases rs.len(),
{
    if rs.len() == 0 {
        None
    } else if rs[0].id@ == id {
        Some(rs[0])
    } else {
        runtime_with_id(rs.drop_first(), id)
    }
}

/// The index of the first key manager status with the given identifier.
pub open spec fn status_index(ss: Seq<KeyManagerStatus>, id: Seq<u8>) -> Option<int>
    decreases ss.len(),
{
    if ss.len() == 0 {
        None
    } else if ss[0].id@ == id {
        Some(0)
    } else {
        match status_index(ss.drop_first(), id) {
            Some(i) => Some(i + 1),
            None => None,
        }
    }
}

impl ConsensusState {
    /// Look up a runtime descriptor in the registry view.
    pub fn runtime(&self, id: &Namespace) -> (r: Option<&Runtime>)
        ensures
            match r {
                Some(rt) => runtime_with_id(self.runtimes@, id@) == Some(*rt),
                None => runtime_with_id(self.runtimes@, id@) is None,
            },
    {
        let ghost rs = self.runtimes@;
        assert(rs.subrange(0, rs.len() as int) =~= rs);
        let mut i: usize = 0;
        while i < self.runtimes.len()
            invariant
                i <= rs.len(),
                rs == self.runtimes@,
                runtime_with_id(rs, id@) == runtime_with_id(rs.subrange(i as int, rs.len() as int), id@),
            decreases rs.len() - i,
        {
            assert(rs.subrange(i as int, rs.len() as int).drop_first() =~= rs.subrange(
                i + 1,
                rs.len() as int,
            ));
            if self.runtimes[i].id.equals(id) {
                return Some(&self.runtimes[i]);
            }
            i = i + 1;
        }
        None
    }

    /// Find the index of a key manager's status in the key manager view.
    pub fn key_manager_index(&self, id: &Namespace) -> (r: Option<usize>)
        ensures
            match r {
                Some(i) => i < self.key_managers@.len() && status_index(self.key_managers@, id@)
                    == Some(i as int),
                None => status_index(self.key_managers@, id@) is None,
            },
    {
        let ghost ss = self.key_managers@;
        assert(ss.subrange(0, ss.len() as int) =~= ss);
        let mut i: usize = 0;
        while i < self.key_managers.len()
            invariant
                i <= ss.len(),
                ss == self.key_managers@,
                status_index(ss, id@) == match status_index(ss.subrange(i as int, ss.len() as int), id@) {
                    Some(k) => Some(k + i),
                    None => None::<int>,
                },
            decreases ss.len() - i,
        {
            assert(ss.subrange(i as int, ss.len() as int).drop_first() =~= ss.subrange(
                i + 1,
                ss.len() as int,
            ));
            if self.key_managers[i].id.equals(id) {
                return Some(i);
            }
            i = i + 1;
        }
        None
    }
}

} // verus!
