//! What the platform's C library fixes: signal numbers, the address that
//! reports a failed mapping, and the error number of the last failed call.
//!
//! The functions of this module hand out values of the crates `libc` and
//! `errno`. Their bodies are not verified: what their contracts say is
//! taken from the sources of those crates and believed.

use vstd::prelude::*;

verus! {

/// The number of the invalid-memory-access signal, the constant
/// `libc::SIGSEGV`.
///
/// Believed: the number is 11. `libc` defines the constant as 11 for every
/// platform that it knows.
#[verifier::external_body]
pub(crate) fn fault_signal() -> (signo: i32)
    ensures
        signo == 11,
{
    libc::SIGSEGV
}

/// The number of the profiling-timer signal, the constant `libc::SIGPROF`.
///
/// Nothing is claimed of the number: `libc` defines it differently from
/// platform to platform.
#[verifier::external_body]
pub(crate) fn profiling_signal() -> (signo: i32) {
    libc::SIGPROF
}

/// The address by which a mapping call reports failure, the constant
/// `libc::MAP_FAILED`.
///
/// Believed: it is the address with every bit set. `libc` defines the
/// constant as the complement of zero.
#[verifier::external_body]
pub(crate) fn map_failed() -> (addr: usize)
    ensures
        addr == usize::MAX,
{
    libc::MAP_FAILED as usize
}

/// The error number that the last failed system call of this thread left
/// behind, as `errno::errno` reads it.
///
/// Nothing is claimed of the number: it depends on what the thread did
/// last.
#[verifier::external_body]
pub(crate) fn last_os_error() -> (code: i32) {
    errno::errno().0
}

} // verus!
