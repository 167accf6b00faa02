use vstd::prelude::*;

verus! {

/// Why an operation of the library did not succeed.
#[derive(Clone, Copy, Debug, PartialEq, Eq, Structural)]
pub enum ModError {
    /// A registry, a mod id or a path is missing.
    NotFound,
    /// Reading, writing, copying or removing on disk failed.
    IoFailure,
    /// A request to the remote catalog failed.
    NetworkFailure,
    /// A remote response did not have the expected shape.
    ParseFailure,
    /// The chosen file variant does not exist.
    IndexOutOfRange,
}

} // verus!
