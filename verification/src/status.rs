use vstd::prelude::*;

verus! {

/// A raw status reported by a failed collaborator call.
///
/// The two statuses to which the enumeration and fetch protocols give a
/// meaning of their own are distinguished variants; every other failure is
/// carried upward unchanged as its raw status code.
#[derive(Clone, Copy, Debug, PartialEq, Eq, Structural)]
pub enum ErrorStatus {
    /// The store holds no entry for the requested key; in enumeration this is
    /// the end-of-sequence signal, never a fatal error.
    NotFound,
    /// The supplied output buffer is too small for the result; the caller may
    /// grow the buffer to the reported size and retry.
    BufferTooSmall,
    /// Any other failure, carried through as its raw status code.
    Other(u64),
}

} // verus!
