//! Trust-boundary control plane of an enclave runtime: an RPC dispatcher that
//! authorizes channel kinds per method, and a verifier of published policies.
pub mod consensus;
pub mod dispatcher;
pub mod policy;
pub mod types;
