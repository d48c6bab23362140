use vstd::prelude::*;

verus! {

/// Why a transaction is rejected, or why a scan of one cell list ends.
#[derive(Debug, Clone, Copy, PartialEq, Eq, Structural)]
pub enum Error {
    /// No cell stands at the requested index: ends the scan of one list.
    IndexOutOfBound,
    /// The environment reported that a requested field is missing.
    ItemMissing,
    /// The environment reported a buffer too short for the data.
    LengthNotEnough,
    /// The environment reported data that does not decode.
    Encoding,
    /// The environment reported a failure of any other kind.
    Syscall,
    /// A cell claims the custody identity but is governed by another lock.
    InvalidToCKBCell,
}

/// The status code that the host sees for each error.
pub open spec fn spec_error_code(e: Error) -> i8 {
    match e {
        Error::IndexOutOfBound => 1,
        Error::ItemMissing => 2,
        Error::LengthNotEnough => 3,
        Error::Encoding => 4,
        Error::Syscall => 5,
        Error::InvalidToCKBCell => 6,
    }
}

/// True of the errors that come from the environment rather than from the
/// ownership rule.
pub open spec fn is_environment_error(e: Error) -> bool {
    e != Error::IndexOutOfBound && e != Error::InvalidToCKBCell
}

impl Error {
    /// The non-zero status code for this error.
    pub fn code(&self) -> (r: i8)
        ensures
            r == spec_error_code(*self),
            r != 0,
    {
        match self {
            Error::IndexOutOfBound => 1,
            Error::ItemMissing => 2,
            Error::LengthNotEnough => 3,
            Error::Encoding => 4,
            Error::Syscall => 5,
            Error::InvalidToCKBCell => 6,
        }
    }
}

} // verus!
