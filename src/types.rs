//! Vocabulary of an RPC call: channel kinds, requests, responses and the per-call context.
use vstd::prelude::*;

verus! {

/// Trust level of the channel a call arrived on.
#[derive(Clone, Copy, Debug, PartialEq, Eq, Structural)]
pub enum Kind {
    /// An authenticated, encrypted session.
    NoiseSession,
    /// An unauthenticated query.
    InsecureQuery,
    /// A query from the local host.
    LocalQuery,
}

/// The name of a kind as it appears in error messages.
pub open spec fn kind_name(kind: Kind) -> Seq<char> {
    match kind {
        Kind::NoiseSession => "NoiseSession"@,
        Kind::InsecureQuery => "InsecureQuery"@,
        Kind::LocalQuery => "LocalQuery"@,
    }
}

impl Kind {
    /// Return the name of the kind.
    pub fn name(&self) -> (r: &'static str)
        ensures
            r@ == kind_name(*self),
    {
        match self {
            Kind::NoiseSession => "NoiseSession",
            Kind::InsecureQuery => "InsecureQuery",
            Kind::LocalQuery => "LocalQuery",
        }
    }
}

/// An RPC request: the method to call and its encoded arguments.
#[derive(Clone, Debug, PartialEq, Eq)]
pub struct Request {
    /// Method name.
    pub method: String,
    /// Encoded method arguments.
    pub args: Vec<u8>,
}

/// Body of an RPC response.
#[derive(Clone, Debug, PartialEq, Eq)]
pub enum Body {
    /// The encoded result of a successful call.
    Success(Vec<u8>),
    /// The message of a failed call.
    Error(String),
}

/// An RPC response.
#[derive(Clone, Debug, PartialEq, Eq)]
pub struct Response {
    /// Response body.
    pub body: Body,
}

/// Per-call state, owned by a single dispatch.
#[derive(Clone, Debug, PartialEq, Eq)]
pub struct Context {
    /// Named values that initializers and handlers share during one call.
    pub values: Vec<(String, Vec<u8>)>,
}

impl Context {
    /// Create an empty context.
    pub fn new() -> (r: Context)
        ensures
            r.values@.len() == 0,
    {
        Context { values: Vec::new() }
    }
}

} // verus!
