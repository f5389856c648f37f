//! Descriptions of the calls that a caller makes to the operating system on
//! behalf of the controllers. They say what is asked for; how the platform
//! encodes it is the caller's business.

use vstd::prelude::*;

verus! {

/// The access that a mapping allows.
#[derive(Clone, Copy, Debug, PartialEq, Eq, Structural)]
pub struct Protection {
    pub read: bool,
    pub write: bool,
}

/// How a mapping is made.
#[derive(Clone, Copy, Debug, PartialEq, Eq, Structural)]
pub struct MapFlags {
    /// Changes stay private to the process.
    pub private: bool,
    /// The mapping is backed by no file.
    pub anonymous: bool,
    /// The mapping is placed at exactly the requested address, and the
    /// call fails where something is mapped there already.
    pub fixed_noreplace: bool,
    /// The pages are made present before the call returns.
    pub populate: bool,
}

/// One request to map memory.
#[derive(Clone, Copy, Debug, PartialEq, Eq, Structural)]
pub struct MapRequest {
    /// The requested address, `0` for "wherever there is room".
    pub addr: usize,
    /// The length in bytes.
    pub len: usize,
    pub prot: Protection,
    pub flags: MapFlags,
    /// The descriptor of the backing file, `-1` for none.
    pub fd: i32,
    /// The offset into the backing file.
    pub offset: i64,
}

/// One request to give a mapping back.
#[derive(Clone, Copy, Debug, PartialEq, Eq, Structural)]
pub struct UnmapRequest {
    pub addr: usize,
    pub len: usize,
}

/// One request to install the fault handler.
#[derive(Clone, Copy, Debug, PartialEq, Eq, Structural)]
pub struct InstallRequest {
    /// The signal to handle.
    pub signo: i32,
    /// The signal that is held back while the handler runs.
    pub blocked: i32,
    /// Whether the handler is handed the record that holds the faulting
    /// address.
    pub siginfo: bool,
}

/// One request to arm the profiling timer. The timer fires once, `secs`
/// seconds and `usecs` microseconds from now, and then every
/// `interval_secs` seconds and `interval_usecs` microseconds, or never again
/// where both are zero. The system takes a count of microseconds only below
/// one million: whole seconds belong in the field for seconds.
#[derive(Clone, Copy, Debug, PartialEq, Eq, Structural)]
pub struct TimerRequest {
    pub secs: i64,
    pub usecs: i64,
    pub interval_secs: i64,
    pub interval_usecs: i64,
}

/// A resource limit of the process that bounds what it can map.
#[derive(Clone, Copy, Debug, PartialEq, Eq, Structural)]
pub enum Limit {
    /// The size of the address space.
    AddressSpace,
    /// The size of the resident set.
    ResidentSet,
    /// The amount of memory that may be locked.
    LockedMemory,
}

} // verus!
