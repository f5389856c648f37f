//! The errors that setting up a controller can end in. None of them leaves
//! a handler behind: the caller may try again or give up.

use vstd::prelude::*;

verus! {

/// A failure that is handed back to the caller.
#[derive(Clone, Copy, Debug, PartialEq, Eq, Structural)]
pub enum Error {
    /// The system would not map the range that was asked for while looking
    /// for free addresses.
    ReservationFailed,
    /// The range was mapped, but the system would not take it back.
    ReleaseFailed,
    /// A page could not be mapped at its fixed address.
    MapFailed,
    /// The fault handler could not be installed.
    InstallFailed,
}

impl Error {
    /// The text of each error.
    pub open spec fn message_spec(self) -> Seq<char> {
        match self {
            Error::ReservationFailed => "mmap failed looking for free mem"@,
            Error::ReleaseFailed => "munmap failed looking for free mem"@,
            Error::MapFailed => "Mmap Error"@,
            Error::InstallFailed => "Sigaction Failed"@,
        }
    }

    /// A short text that names the error.
    pub fn message(&self) -> (text: &'static str)
        ensures
            text@ == self.message_spec(),
    {
        match self {
            Error::ReservationFailed => "mmap failed looking for free mem",
            Error::ReleaseFailed => "munmap failed looking for free mem",
            Error::MapFailed => "Mmap Error",
            Error::InstallFailed => "Sigaction Failed",
        }
    }
}

} // verus!
