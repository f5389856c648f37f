//! The handle of the performance-counter backend.

use vstd::prelude::*;

verus! {

/// Identifies one set of hardware counters.
///
/// The two tables that the backend keeps are known here by their addresses
/// only: the handle is passed on to the backend and never looked into.
#[derive(Clone, Copy, Debug, PartialEq, Eq, Structural)]
pub struct PassAround {
    /// Descriptor of the leading counter, `-1` while there is none.
    pub fd0: i64,
    /// Address of the table of counter ids, `0` while there is none.
    pub ids: usize,
    /// Address of the table of counter names, `0` while there is none.
    pub strings: usize,
}

/// The handle that stands for "no counters yet".
pub open spec fn empty_handle() -> PassAround {
    PassAround { fd0: -1i64, ids: 0, strings: 0 }
}

/// Returns the handle that refers to no counters.
pub fn create_empty() -> (pa: PassAround)
    ensures
        pa == empty_handle(),
{
    PassAround { fd0: -1, ids: 0, strings: 0 }
}

} // verus!
