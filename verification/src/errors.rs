//! The caller-facing error model shared by all subsystem clients.

use vstd::prelude::*;

verus! {

/// The category of a client-side failure.
#[derive(Clone, Copy, PartialEq, Eq, Structural, Debug)]
pub enum RtnlErrorKind {
    /// The kernel reported the target object absent, or a name did not resolve.
    NotFound,
    /// The server answered that it does not implement the request.
    Unsupported,
    /// The kernel or the transport rejected the operation.
    Failed,
    /// The server answered with a response variant that the request does not
    /// admit: a protocol contract violation, never coerced silently.
    Unexpected,
    /// The request channel to the worker is gone: an I/O-level failure,
    /// distinguishable from every protocol-level one.
    Disconnected,
}

/// An error returned by a subsystem client, carrying the category and the
/// human-readable name of the operation that failed.
#[derive(Clone, PartialEq, Eq, Debug)]
pub struct RtnlError {
    pub kind: RtnlErrorKind,
    pub op: String,
}

impl RtnlError {
    pub fn new(kind: RtnlErrorKind, op: &str) -> (r: Self)
        ensures
            r.kind == kind,
            r.op@ == op@,
    {
        RtnlError { kind, op: op.to_owned() }
    }

    pub fn kind(&self) -> (r: RtnlErrorKind)
        ensures
            r == self.kind,
    {
        self.kind
    }

    pub fn op(&self) -> (r: &str)
        ensures
            r@ == self.op@,
    {
        self.op.as_str()
    }
}

} // verus!
