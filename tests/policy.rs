use oasis_core_runtime::consensus::{
    ConsensusState, KeyManagerStatus, Namespace, PolicySGX, PublicKey, QuotePolicy, Runtime,
    SGXConstraints, SignatureBundle, SignedPolicySGX, TEEHardware, Version, VersionInfo,
};
use oasis_core_runtime::policy::{
    key_manager_in, key_manager_policy_in, quote_policy_in, verify_key_manager_policy_in,
    verify_quote_policy_in, PolicyVerifier, PolicyVerifierError, Verifier,
};

fn ns(b: u8) -> Namespace {
    Namespace([b; 32])
}

fn qp(n: u32) -> QuotePolicy {
    QuotePolicy {
        ias_disabled: false,
        pcs_disabled: false,
        tcb_validity_period: 30,
        min_tcb_evaluation_data_number: n,
    }
}

fn version(major: u16) -> Version {
    Version { major, minor: 0, patch: 0 }
}

fn deployment(major: u16, valid_from: u64, policy: u32) -> VersionInfo {
    VersionInfo {
        version: version(major),
        valid_from,
        tee: Some(SGXConstraints { policy: qp(policy) }),
    }
}

fn runtime_r() -> Runtime {
    Runtime {
        id: ns(1),
        tee_hardware: TEEHardware::TEEHardwareIntelSGX,
        key_manager: Some(ns(9)),
        deployments: vec![deployment(1, 0, 100), deployment(2, 5, 200)],
    }
}

fn signed(serial: u32, sig: u8) -> SignedPolicySGX {
    SignedPolicySGX {
        policy: PolicySGX { serial, id: ns(9) },
        signatures: vec![SignatureBundle { public_key: PublicKey([4; 32]), signature: vec![sig; 64] }],
    }
}

fn state(epoch: u64) -> ConsensusState {
    ConsensusState {
        height: 10,
        epoch,
        runtimes: vec![
            runtime_r(),
            Runtime {
                id: ns(2),
                tee_hardware: TEEHardware::TEEHardwareInvalid,
                key_manager: None,
                deployments: vec![deployment(1, 0, 300)],
            },
            Runtime {
                id: ns(3),
                tee_hardware: TEEHardware::TEEHardwareIntelSGX,
                key_manager: None,
                deployments: vec![VersionInfo { version: version(1), valid_from: 0, tee: None }],
            },
        ],
        key_managers: vec![
            KeyManagerStatus { id: ns(9), policy: Some(signed(3, 7)) },
            KeyManagerStatus { id: ns(8), policy: None },
        ],
    }
}

#[test]
fn deployment_follows_epoch_and_version() {
    assert_eq!(quote_policy_in(&state(3), &ns(1), None), Ok(qp(100)));
    assert_eq!(quote_policy_in(&state(6), &ns(1), None), Ok(qp(200)));
    assert_eq!(quote_policy_in(&state(4), &ns(1), None), Ok(qp(100)));
    assert_eq!(quote_policy_in(&state(5), &ns(1), None), Ok(qp(200)));
    for epoch in [0, 3, 6, 100] {
        assert_eq!(quote_policy_in(&state(epoch), &ns(1), Some(version(2))), Ok(qp(200)));
        assert_eq!(quote_policy_in(&state(epoch), &ns(1), Some(version(1))), Ok(qp(100)));
    }
}

#[test]
fn active_deployment_prefers_latest_start_then_first() {
    let rt = Runtime {
        id: ns(1),
        tee_hardware: TEEHardware::TEEHardwareIntelSGX,
        key_manager: None,
        deployments: vec![
            deployment(3, 7, 1),
            deployment(1, 2, 2),
            deployment(2, 4, 3),
            deployment(4, 4, 4),
        ],
    };
    assert_eq!(rt.active_deployment(1), None);
    assert_eq!(rt.active_deployment(2), Some(deployment(1, 2, 2)));
    assert_eq!(rt.active_deployment(5), Some(deployment(2, 4, 3)));
    assert_eq!(rt.active_deployment(7), Some(deployment(3, 7, 1)));
    assert_eq!(rt.deployment_for_version(version(4)), Some(deployment(4, 4, 4)));
    assert_eq!(rt.deployment_for_version(version(5)), None);
}

#[test]
fn quote_policy_errors() {
    let s = state(6);
    assert_eq!(quote_policy_in(&s, &ns(7), None), Err(PolicyVerifierError::MissingRuntimeDescriptor));
    assert_eq!(quote_policy_in(&s, &ns(1), Some(version(3))), Err(PolicyVerifierError::NoDeployment));
    assert_eq!(quote_policy_in(&s, &ns(2), None), Err(PolicyVerifierError::HardwareMismatch));
    assert_eq!(quote_policy_in(&s, &ns(3), None), Err(PolicyVerifierError::BadTEEConstraints));
    let mut early = state(0);
    early.runtimes[0].deployments = vec![deployment(1, 3, 100)];
    assert_eq!(quote_policy_in(&early, &ns(1), None), Err(PolicyVerifierError::NoDeployment));
}

#[test]
fn quote_policy_is_deterministic() {
    let s = state(6);
    let first = quote_policy_in(&s, &ns(1), None);
    let second = quote_policy_in(&s, &ns(1), None);
    assert_eq!(first, second);
}

#[test]
fn verify_quote_policy_compares_with_published() {
    let s = state(6);
    assert_eq!(verify_quote_policy_in(&s, qp(200), &ns(1), None), Ok(qp(200)));
    assert_eq!(
        verify_quote_policy_in(&s, qp(100), &ns(1), None),
        Err(PolicyVerifierError::PolicyNotPublished)
    );
    assert_eq!(
        verify_quote_policy_in(&s, qp(100), &ns(7), None),
        Err(PolicyVerifierError::MissingRuntimeDescriptor)
    );
}

#[test]
fn key_manager_policy_lookup() {
    assert_eq!(key_manager_policy_in(state(0), &ns(9)), Ok(signed(3, 7)));
    assert_eq!(key_manager_policy_in(state(0), &ns(8)), Err(PolicyVerifierError::PolicyNotPublished));
    assert_eq!(key_manager_policy_in(state(0), &ns(6)), Err(PolicyVerifierError::PolicyNotPublished));
}

#[test]
fn verify_key_manager_policy_compares_with_published() {
    assert_eq!(verify_key_manager_policy_in(state(0), signed(3, 7), &ns(9)), Ok(signed(3, 7)));
    assert_eq!(
        verify_key_manager_policy_in(state(0), signed(3, 8), &ns(9)),
        Err(PolicyVerifierError::PolicyNotPublished)
    );
    assert_eq!(
        verify_key_manager_policy_in(state(0), signed(4, 7), &ns(9)),
        Err(PolicyVerifierError::PolicyNotPublished)
    );
    assert_eq!(
        verify_key_manager_policy_in(state(0), signed(3, 7), &ns(8)),
        Err(PolicyVerifierError::PolicyNotPublished)
    );
}

#[test]
fn signed_policy_equality() {
    assert!(signed(1, 2) == signed(1, 2));
    assert!(signed(1, 2) != signed(1, 3));
    let mut other = signed(1, 2);
    other.signatures.push(SignatureBundle { public_key: PublicKey([0; 32]), signature: vec![] });
    assert!(signed(1, 2) != other);
    assert!(ns(1).equals(&ns(1)));
    assert!(!ns(1).equals(&ns(2)));
}

#[test]
fn key_manager_of_runtime() {
    let s = state(0);
    assert_eq!(key_manager_in(&s, &ns(1)), Ok(ns(9)));
    assert_eq!(key_manager_in(&s, &ns(2)), Err(PolicyVerifierError::NoKeyManager));
    assert_eq!(key_manager_in(&s, &ns(7)), Err(PolicyVerifierError::MissingRuntimeDescriptor));
}

/// Serves epoch 6 as the latest state and epoch 3 as the settled one.
struct FakeVerifier;

impl Verifier for FakeVerifier {
    fn latest_result(&self, r: Result<ConsensusState, String>) -> bool {
        r == Ok(state(6))
    }

    fn result_at(&self, height: u64, r: Result<ConsensusState, String>) -> bool {
        height == 0 && r == Ok(state(3))
    }

    fn latest_state(&self) -> Result<ConsensusState, String> {
        Ok(state(6))
    }

    fn state_at(&self, height: u64) -> Result<ConsensusState, String> {
        assert_eq!(height, 0);
        Ok(state(3))
    }
}

struct FailingVerifier;

impl Verifier for FailingVerifier {
    fn latest_result(&self, r: Result<ConsensusState, String>) -> bool {
        r == Err("light client unavailable".to_string())
    }

    fn result_at(&self, _height: u64, r: Result<ConsensusState, String>) -> bool {
        r == Err("light client unavailable".to_string())
    }

    fn latest_state(&self) -> Result<ConsensusState, String> {
        Err("light client unavailable".to_string())
    }

    fn state_at(&self, _height: u64) -> Result<ConsensusState, String> {
        Err("light client unavailable".to_string())
    }
}

#[test]
fn policy_verifier_uses_requested_state() {
    let pv = PolicyVerifier::new(FakeVerifier);
    assert_eq!(pv.quote_policy(&ns(1), None, true), Ok(qp(200)));
    assert_eq!(pv.quote_policy(&ns(1), None, false), Ok(qp(100)));
    assert_eq!(pv.verify_quote_policy(qp(100), &ns(1), None, false), Ok(qp(100)));
    assert_eq!(
        pv.verify_quote_policy(qp(100), &ns(1), None, true),
        Err(PolicyVerifierError::PolicyNotPublished)
    );
    assert_eq!(pv.key_manager_policy(ns(9), true), Ok(signed(3, 7)));
    assert_eq!(pv.verify_key_manager_policy(signed(3, 7), ns(9), false), Ok(signed(3, 7)));
    assert_eq!(
        pv.verify_key_manager_policy(signed(2, 7), ns(9), false),
        Err(PolicyVerifierError::PolicyNotPublished)
    );
    assert_eq!(pv.key_manager(&ns(1), true), Ok(ns(9)));
    assert_eq!(pv.key_manager(&ns(3), false), Err(PolicyVerifierError::NoKeyManager));
}

#[test]
fn policy_verifier_reports_unavailable_state() {
    let pv = PolicyVerifier::new(FailingVerifier);
    let unavailable =
        Err(PolicyVerifierError::StateUnavailable { message: "light client unavailable".to_string() });
    assert_eq!(pv.quote_policy(&ns(1), None, true), unavailable);
    assert_eq!(pv.key_manager(&ns(1), false).map(|_| ()), unavailable.clone().map(|_: QuotePolicy| ()));
    assert!(matches!(
        pv.key_manager_policy(ns(9), true),
        Err(PolicyVerifierError::StateUnavailable { .. })
    ));
}
