//! The failure type that construction reports to the host.

use vstd::prelude::*;

verus! {

/// The classes of failure that the host tells apart when a unit does not load.
#[derive(Clone, Copy, Debug, PartialEq, Eq, Structural)]
pub enum ErrorKind {
    /// Memory or another resource could not be had.
    OutOfResources,
    /// The unit was given a value it cannot work with.
    InvalidArgument,
    /// What the unit needs is in use.
    Busy,
    /// What the unit needs does not exist.
    NotFound,
    /// The host does not allow the operation.
    NotPermitted,
}

/// A failed construction. It carries its kind and nothing else, so two errors
/// of one kind are equal.
#[derive(Clone, Copy, Debug, PartialEq, Eq, Structural)]
pub struct Error {
    /// The class of the failure.
    pub kind: ErrorKind,
}

impl Error {
    /// The error of the given kind.
    pub fn new(kind: ErrorKind) -> (e: Error)
        ensures
            e == (Error { kind }),
    {
        Error { kind }
    }
}

} // verus!
