//! The conditions that marshaling reports to its caller.

use vstd::prelude::*;
use vstd::std_specs::convert::FromSpecImpl;

verus! {

/// Why an operation on a parcel could not be completed.
#[derive(Clone, Copy, Debug, PartialEq, Eq, Structural)]
pub enum ErrorKind {
    /// A read would run past the end of the buffer.
    NotEnoughData,
    /// A position that should hold a registered reference does not, or a
    /// reference does not implement the requested interface.
    BadType,
    /// A value that must be present was encoded as absent.
    UnexpectedNull,
    /// A run of bytes does not have the width of the value it should become.
    Conversion,
}

/// The error of every fallible operation of this crate.
#[derive(Clone, Copy, Debug, PartialEq, Eq, Structural)]
pub struct Error {
    pub kind: ErrorKind,
}

/// The result of a fallible operation of this crate.
pub type Result<T> = core::result::Result<T, Error>;

impl Error {
    /// The condition that this error reports.
    pub fn kind(&self) -> (kind: ErrorKind)
        ensures
            kind == self.kind,
    {
        self.kind
    }
}

impl From<ErrorKind> for Error {
    fn from(kind: ErrorKind) -> (error: Error) {
        Error { kind }
    }
}

impl FromSpecImpl<ErrorKind> for Error {
    open spec fn obeys_from_spec() -> bool {
        true
    }

    open spec fn from_spec(kind: ErrorKind) -> Error {
        Error { kind }
    }
}

/// Whether `result` is the failure that reports `kind`.
pub open spec fn fails_with<T>(result: Result<T>, kind: ErrorKind) -> bool {
    result matches Err(error) && error.kind == kind
}

} // verus!
