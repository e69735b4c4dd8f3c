//! Shared wire-level vocabulary: the address family tag carried by kernel
//! messages and the categorized outcome of a kernel request.

use vstd::prelude::*;

verus! {

/// The address family field of a kernel message. Families other than IPv4
/// and IPv6 are carried opaquely and skipped by every decoder.
#[derive(Clone, Copy, PartialEq, Eq, Structural, Debug)]
pub enum FamilyTag {
    V4,
    V6,
    Other,
}

/// The outcome of one kernel request, categorized by the condition code of
/// the kernel's reply. `Accepted` is a confirmed success; the error variants
/// mirror the conditions the subsystems distinguish.
#[derive(Clone, Copy, PartialEq, Eq, Structural, Debug)]
pub enum KernelOutcome {
    Accepted,
    NotFound,
    AlreadyExists,
    AddressUnavailable,
    OtherError,
}

} // verus!
