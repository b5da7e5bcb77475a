//! Resolution of published quote and key manager policies from verified consensus state.

use vstd::prelude::*;

use crate::consensus::{
    active_deployment_at, deployment_of_version, runtime_with_id, status_index, ConsensusState,
    Namespace, QuotePolicy, Runtime, SignedPolicySGX, TEEHardware, Version, HEIGHT_LATEST,
};

verus! {

/// Policy verifier error.
#[derive(Clone, Debug, PartialEq, Eq)]
pub enum PolicyVerifierError {
    MissingRuntimeDescriptor,
    NoDeployment,
    BadTEEConstraints,
    PolicyNotPublished,
    HardwareMismatch,
    NoKeyManager,
    /// The consensus verifier could not provide a state snapshot.
    StateUnavailable { message: String },
}

/// Source of verified consensus state snapshots.
pub trait Verifier: Send + Sync {
    /// `r` is an outcome of asking for the latest verified state.
    spec fn latest_result(&self, r: Result<ConsensusState, String>) -> bool;

    /// `r` is an outcome of asking for the verified state at `height`.
    spec fn result_at(&self, height: u64, r: Result<ConsensusState, String>) -> bool;

    /// The latest verified state.
    fn latest_state(&self) -> (r: Result<ConsensusState, String>)
        ensures
            self.latest_result(r),
    ;

    /// The verified state at the given height.
    fn state_at(&self, height: u64) -> (r: Result<ConsensusState, String>)
        ensures
            self.result_at(height, r),
    ;
}

/// The quote policy that `state` publishes for the runtime: the deployment of the
/// given version, or with none given the one active at the state's epoch, must
/// exist, and the runtime must run on SGX with constraints that decode.
pub open spec fn published_quote_policy(
    state: ConsensusState,
    runtime_id: Seq<u8>,
    version: Option<Version>,
) -> Result<QuotePolicy, PolicyVerifierError> {
    match runtime_with_id(state.runtimes@, runtime_id) {
        None => Err(PolicyVerifierError::MissingRuntimeDescriptor),
        Some(runtime) => {
            let deployment = match version {
                Some(v) => deployment_of_version(runtime.deployments@, v),
                None => active_deployment_at(runtime.deployments@, state.epoch),
            };
            match deployment {
                None => Err(PolicyVerifierError::NoDeployment),
                Some(d) => match runtime.tee_hardware {
                    TEEHardware::TEEHardwareIntelSGX => match d.tee {
                        Some(constraints) => Ok(constraints.policy),
                        None => Err(PolicyVerifierError::BadTEEConstraints),
                    },
                    _ => Err(PolicyVerifierError::HardwareMismatch),
                },
            }
        },
    }
}

/// The outcome of checking an untrusted quote policy against the one that `state` publishes.
pub open spec fn verified_quote_policy(
    state: ConsensusState,
    policy: QuotePolicy,
    runtime_id: Seq<u8>,
    version: Option<Version>,
) -> Result<QuotePolicy, PolicyVerifierError> {
    match published_quote_policy(state, runtime_id, version) {
        Ok(published) => if published == policy {
            Ok(published)
        } else {
            Err(PolicyVerifierError::PolicyNotPublished)
        },
        Err(e) => Err(e),
    }
}

/// The policy that `state` publishes for the key manager.
pub open spec fn published_key_manager_policy(state: ConsensusState, key_manager: Seq<u8>) -> Result<
    SignedPolicySGX,
    PolicyVerifierError,
> {
    match status_index(state.key_managers@, key_manager) {
        None => Err(PolicyVerifierError::PolicyNotPublished),
        Some(i) => match state.key_managers@[i].policy {
            None => Err(PolicyVerifierError::PolicyNotPublished),
            Some(policy) => Ok(policy),
        },
    }
}

/// The outcome of checking an untrusted key manager policy against the one that `state` publishes.
pub open spec fn verified_key_manager_policy(
    state: ConsensusState,
    policy: SignedPolicySGX,
    key_manager: Seq<u8>,
) -> Result<SignedPolicySGX, PolicyVerifierError> {
    match published_key_manager_policy(state, key_manager) {
        Ok(published) => if published@ == policy@ {
            Ok(published)
        } else {
            Err(PolicyVerifierError::PolicyNotPublished)
        },
        Err(e) => Err(e),
    }
}

/// The key manager that `state` records for the runtime.
pub open spec fn runtime_key_manager(state: ConsensusState, runtime_id: Seq<u8>) -> Result<
    Namespace,
    PolicyVerifierError,
> {
    match runtime_with_id(state.runtimes@, runtime_id) {
        None => Err(PolicyVerifierError::MissingRuntimeDescriptor),
        Some(runtime) => match runtime.key_manager {
            None => Err(PolicyVerifierError::NoKeyManager),
            Some(km) => Ok(km),
        },
    }
}

/// Resolving a quote policy has no hidden state: two resolutions with the same
/// parameters against the same snapshot give the same result.
pub proof fn lemma_quote_policy_deterministic(
    state: ConsensusState,
    runtime_id: Seq<u8>,
    version: Option<Version>,
    first: Result<QuotePolicy, PolicyVerifierError>,
    second: Result<QuotePolicy, PolicyVerifierError>,
)
    requires
        first == published_quote_policy(state, runtime_id, version),
        second == published_quote_policy(state, runtime_id, version),
    ensures
        first == second,
{
}

/// Where a quote policy is published, checking an untrusted policy succeeds with
/// that policy exactly when it equals the published one, and otherwise fails with
/// `PolicyNotPublished`.
pub proof fn lemma_verify_quote_policy(
    state: ConsensusState,
    policy: QuotePolicy,
    runtime_id: Seq<u8>,
    version: Option<Version>,
    published: QuotePolicy,
)
    requires
        published_quote_policy(state, runtime_id, version) == Ok::<QuotePolicy, PolicyVerifierError>(published),
    ensures
        policy == published ==> verified_quote_policy(state, policy, runtime_id, version) == Ok::<
            QuotePolicy,
            PolicyVerifierError,
        >(policy),
        policy != published ==> verified_quote_policy(state, policy, runtime_id, version) == Err::<
            QuotePolicy,
            PolicyVerifierError,
        >(PolicyVerifierError::PolicyNotPublished),
{
}

/// Where a key manager policy is published, checking an untrusted policy succeeds
/// exactly when it equals the published one, and otherwise fails with `PolicyNotPublished`.
pub proof fn lemma_verify_key_manager_policy(
    state: ConsensusState,
    policy: SignedPolicySGX,
    key_manager: Seq<u8>,
    published: SignedPolicySGX,
)
    requires
        published_key_manager_policy(state, key_manager) == Ok::<SignedPolicySGX, PolicyVerifierError>(published),
    ensures
        policy@ == published@ ==> verified_key_manager_policy(state, policy, key_manager) == Ok::<
            SignedPolicySGX,
            PolicyVerifierError,
        >(published),
        policy@ != published@ ==> verified_key_manager_policy(state, policy, key_manager) == Err::<
            SignedPolicySGX,
            PolicyVerifierError,
        >(PolicyVerifierError::PolicyNotPublished),
{
}

/// For a registered runtime, resolving its key manager fails with `NoKeyManager`
/// where the descriptor names none, and gives the named key manager otherwise.
pub proof fn lemma_key_manager(state: ConsensusState, runtime_id: Seq<u8>, runtime: Runtime)
    requires
        runtime_with_id(state.runtimes@, runtime_id) == Some(runtime),
    ensures
        runtime.key_manager is None ==> runtime_key_manager(state, runtime_id) == Err::<
            Namespace,
            PolicyVerifierError,
        >(PolicyVerifierError::NoKeyManager),
        runtime.key_manager matches Some(km) ==> runtime_key_manager(state, runtime_id) == Ok::<
            Namespace,
            PolicyVerifierError,
        >(km),
{
}

/// Resolve a runtime's quote policy in the given state.
pub fn quote_policy_in(state: &ConsensusState, runtime_id: &Namespace, version: Option<Version>) -> (r:
    Result<QuotePolicy, PolicyVerifierError>)
    ensures
        r == published_quote_policy(*state, runtime_id@, version),
{
    let runtime = match state.runtime(runtime_id) {
        Some(runtime) => runtime,
        None => return Err(PolicyVerifierError::MissingRuntimeDescriptor),
    };
    let ad = match version {
        Some(version) => runtime.deployment_for_version(version),
        None => runtime.active_deployment(state.epoch),
    };
    let ad = match ad {
        Some(ad) => ad,
        None => return Err(PolicyVerifierError::NoDeployment),
    };
    match runtime.tee_hardware {
        TEEHardware::TEEHardwareIntelSGX => match ad.tee {
            Some(sc) => Ok(sc.policy()),
            None => Err(PolicyVerifierError::BadTEEConstraints),
        },
        _ => Err(PolicyVerifierError::HardwareMismatch),
    }
}

/// Check an untrusted quote policy against the one published in the given state.
pub fn verify_quote_policy_in(
    state: &ConsensusState,
    policy: QuotePolicy,
    runtime_id: &Namespace,
    version: Option<Version>,
) -> (r: Result<QuotePolicy, PolicyVerifierError>)
    ensures
        r == verified_quote_policy(*state, policy, runtime_id@, version),
{
    let published_policy = quote_policy_in(state, runtime_id, version)?;
    if policy != published_policy {
        return Err(PolicyVerifierError::PolicyNotPublished);
    }
    Ok(published_policy)
}

/// Resolve a key manager's policy in the given state.
pub fn key_manager_policy_in(state: ConsensusState, key_manager: &Namespace) -> (r: Result<
    SignedPolicySGX,
    PolicyVerifierError,
>)
    ensures
        r == published_key_manager_policy(state, key_manager@),
{
    let ghost given = state;
    let i = match state.key_manager_index(key_manager) {
        Some(i) => i,
        None => return Err(PolicyVerifierError::PolicyNotPublished),
    };
    let mut statuses = state.key_managers;
    let status = statuses.remove(i);
    assert(status == given.key_managers@[i as int]);
    match status.policy {
        Some(policy) => Ok(policy),
        None => Err(PolicyVerifierError::PolicyNotPublished),
    }
}

/// Check an untrusted key manager policy against the one published in the given state.
pub fn verify_key_manager_policy_in(
    state: ConsensusState,
    policy: SignedPolicySGX,
    key_manager: &Namespace,
) -> (r: Result<SignedPolicySGX, PolicyVerifierError>)
    ensures
        r == verified_key_manager_policy(state, policy, key_manager@),
{
    let published_policy = key_manager_policy_in(state, key_manager)?;
    if !policy.eq(&published_policy) {
        return Err(PolicyVerifierError::PolicyNotPublished);
    }
    Ok(published_policy)
}

/// Resolve a runtime's key manager in the given state.
pub fn key_manager_in(state: &ConsensusState, runtime_id: &Namespace) -> (r: Result<
    Namespace,
    PolicyVerifierError,
>)
    ensures
        r == runtime_key_manager(*state, runtime_id@),
{
    let runtime = match state.runtime(runtime_id) {
        Some(runtime) => runtime,
        None => return Err(PolicyVerifierError::MissingRuntimeDescriptor),
    };
    match runtime.key_manager {
        Some(km) => Ok(km),
        None => Err(PolicyVerifierError::NoKeyManager),
    }
}

/// Consensus policy verifier.
pub struct PolicyVerifier<V: Verifier> {
    consensus_verifier: V,
}

impl<V: Verifier> PolicyVerifier<V> {
    /// `s` is an outcome of fetching a snapshot: the latest verified state when
    /// `use_latest_state` is set, else the state at the height the verifier
    /// treats as settled.
    pub closed spec fn fetched(&self, use_latest_state: bool, s: Result<ConsensusState, String>) -> bool {
        if use_latest_state {
            self.consensus_verifier.latest_result(s)
        } else {
            self.consensus_verifier.result_at(HEIGHT_LATEST, s)
        }
    }

    /// Create a new consensus policy verifier.
    pub fn new(consensus_verifier: V) -> (r: PolicyVerifier<V>)
        ensures
            forall|use_latest_state: bool, s: Result<ConsensusState, String>|
                r.fetched(use_latest_state, s) == if use_latest_state {
                    consensus_verifier.latest_result(s)
                } else {
                    consensus_verifier.result_at(HEIGHT_LATEST, s)
                },
    {
        PolicyVerifier { consensus_verifier }
    }

    /// Fetch a state snapshot: the latest verified one, or the one at the height
    /// the verifier treats as settled.
    fn consensus_state(&self, use_latest_state: bool) -> (r: Result<ConsensusState, String>)
        ensures
            self.fetched(use_latest_state, r),
    {
        if use_latest_state {
            self.consensus_verifier.latest_state()
        } else {
            self.consensus_verifier.state_at(HEIGHT_LATEST)
        }
    }

    /// Fetch runtime's quote policy from the latest verified consensus layer state.
    ///
    /// If the runtime version is not provided, the policy for the active deployment is returned.
    pub fn quote_policy(&self, runtime_id: &Namespace, version: Option<Version>, use_latest_state: bool) -> (r:
        Result<QuotePolicy, PolicyVerifierError>)
        ensures
            exists|s: Result<ConsensusState, String>|
                self.fetched(use_latest_state, s) && match s {
                    Ok(state) => r == published_quote_policy(state, runtime_id@, version),
                    Err(message) => r == Err::<QuotePolicy, PolicyVerifierError>(
                        PolicyVerifierError::StateUnavailable { message },
                    ),
                },
    {
        let fetched = self.consensus_state(use_latest_state);
        let state = match fetched {
            Ok(state) => state,
            Err(message) => return Err(PolicyVerifierError::StateUnavailable { message }),
        };
        quote_policy_in(&state, runtime_id, version)
    }

    /// Verify that runtime's quote policy has been published in the consensus layer.
    pub fn verify_quote_policy(
        &self,
        policy: QuotePolicy,
        runtime_id: &Namespace,
        version: Option<Version>,
        use_latest_state: bool,
    ) -> (r: Result<QuotePolicy, PolicyVerifierError>)
        ensures
            exists|s: Result<ConsensusState, String>|
                self.fetched(use_latest_state, s) && match s {
                    Ok(state) => r == verified_quote_policy(state, policy, runtime_id@, version),
                    Err(message) => r == Err::<QuotePolicy, PolicyVerifierError>(
                        PolicyVerifierError::StateUnavailable { message },
                    ),
                },
    {
        let fetched = self.consensus_state(use_latest_state);
        let state = match fetched {
            Ok(state) => state,
            Err(message) => return Err(PolicyVerifierError::StateUnavailable { message }),
        };
        verify_quote_policy_in(&state, policy, runtime_id, version)
    }

    /// Fetch key manager's policy from the latest verified consensus layer state.
    pub fn key_manager_policy(&self, key_manager: Namespace, use_latest_state: bool) -> (r: Result<
        SignedPolicySGX,
        PolicyVerifierError,
    >)
        ensures
            exists|s: Result<ConsensusState, String>|
                self.fetched(use_latest_state, s) && match s {
                    Ok(state) => r == published_key_manager_policy(state, key_manager@),
                    Err(message) => r == Err::<SignedPolicySGX, PolicyVerifierError>(
                        PolicyVerifierError::StateUnavailable { message },
                    ),
                },
    {
        let fetched = self.consensus_state(use_latest_state);
        let state = match fetched {
            Ok(state) => state,
            Err(message) => return Err(PolicyVerifierError::StateUnavailable { message }),
        };
        key_manager_policy_in(state, &key_manager)
    }

    /// Verify that key manager's policy has been published in the consensus layer.
    pub fn verify_key_manager_policy(
        &self,
        policy: SignedPolicySGX,
        key_manager: Namespace,
        use_latest_state: bool,
    ) -> (r: Result<SignedPolicySGX, PolicyVerifierError>)
        ensures
            exists|s: Result<ConsensusState, String>|
                self.fetched(use_latest_state, s) && match s {
                    Ok(state) => r == verified_key_manager_policy(state, policy, key_manager@),
                    Err(message) => r == Err::<SignedPolicySGX, PolicyVerifierError>(
                        PolicyVerifierError::StateUnavailable { message },
                    ),
                },
    {
        let fetched = self.consensus_state(use_latest_state);
        let state = match fetched {
            Ok(state) => state,
            Err(message) => return Err(PolicyVerifierError::StateUnavailable { message }),
        };
        verify_key_manager_policy_in(state, policy, &key_manager)
    }

    /// Fetch runtime's key manager.
    pub fn key_manager(&self, runtime_id: &Namespace, use_latest_state: bool) -> (r: Result<
        Namespace,
        PolicyVerifierError,
    >)
        ensures
            exists|s: Result<ConsensusState, String>|
                self.fetched(use_latest_state, s) && match s {
                    Ok(state) => r == runtime_key_manager(state, runtime_id@),
                    Err(message) => r == Err::<Namespace, PolicyVerifierError>(
                        PolicyVerifierError::StateUnavailable { message },
                    ),
                },
    {
        let fetched = self.consensus_state(use_latest_state);
        let state = match fetched {
            Ok(state) => state,
            Err(message) => return Err(PolicyVerifierError::StateUnavailable { message }),
        };
        key_manager_in(&state, runtime_id)
    }
}

} // verus!
