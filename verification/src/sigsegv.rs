//! The fault controller: one reserved range of addresses whose pages are
//! mapped one by one, each when it is first touched.
//!
//! The range is reserved and left unmapped, so the first access to any of
//! its pages raises a memory fault. The handler of that fault pauses the
//! counters, maps the one page that holds the faulting address, and lets the
//! counters run again; the faulting instruction is then executed once more
//! and succeeds. A fault on an address outside the range is a genuine
//! invalid access, and ends the process.

use vstd::prelude::*;
use crate::counter::PassAround;
use crate::error::Error;
use crate::page::{page_base, page_of, MemoryRegion, PAGE_SIZE};
use crate::plan::{brackets_counters, Fatal, Plan, Step};
use crate::platform::{fault_signal, last_os_error, map_failed, profiling_signal};
use crate::request::{InstallRequest, Limit, MapFlags, MapRequest, Protection, UnmapRequest};

verus! {

/// What the fault handler works with. It is set up once, before the handler
/// is installed, and only read afterwards.
#[derive(Clone, Copy, Debug, PartialEq, Eq, Structural)]
pub struct SigSegvHandler {
    /// The counters to pause while a fault is handled.
    pub pa0: PassAround,
    /// The range whose pages are mapped on demand.
    pub region: MemoryRegion,
    /// Whether there is a sink to which each faulting address is written.
    pub output_file: bool,
}

/// The flags of a private mapping that no file backs.
pub open spec fn default_flags() -> MapFlags {
    MapFlags { private: true, anonymous: true, fixed_noreplace: false, populate: false }
}

/// The flags that every mapping of this module is made with.
pub fn default_mmap_flags() -> (flags: MapFlags)
    ensures
        flags == default_flags(),
{
    MapFlags { private: true, anonymous: true, fixed_noreplace: false, populate: false }
}

/// The search for a range of free addresses, step by step.
///
/// The search maps a range wherever the system finds room and gives it back
/// at once. The address is then free, though nothing keeps it so.
#[derive(Clone, Copy, Debug, PartialEq, Eq, Structural)]
pub enum FreeMemProbe {
    /// Next, make this mapping and report the address with
    /// [`FreeMemProbe::reserved`].
    Reserve(MapRequest),
    /// Next, give this mapping back and report the status with
    /// [`FreeMemProbe::released`].
    Release(UnmapRequest),
    /// The search is over: the range of the requested size at this address
    /// is free.
    Found(usize),
    /// The search is over and found nothing.
    Failed(Error),
}

/// The request that maps `size` readable and writable bytes wherever there
/// is room.
pub open spec fn probe_request(size: usize) -> MapRequest {
    MapRequest {
        addr: 0,
        len: size,
        prot: Protection { read: true, write: true },
        flags: default_flags(),
        fd: -1i32,
        offset: 0,
    }
}

/// The search for `size` bytes before any call was made. A range of no
/// bytes cannot be mapped, so the search for one is over at once.
pub open spec fn probe_start(size: usize) -> FreeMemProbe {
    if size == 0 {
        FreeMemProbe::Failed(Error::ReservationFailed)
    } else {
        FreeMemProbe::Reserve(probe_request(size))
    }
}

/// Starts the search for `size` bytes of free address space.
pub fn find_free_mem(size: usize) -> (probe: FreeMemProbe)
    ensures
        probe == probe_start(size),
{
    if size == 0 {
        return FreeMemProbe::Failed(Error::ReservationFailed);
    }
    FreeMemProbe::Reserve(
        MapRequest {
            addr: 0,
            len: size,
            prot: Protection { read: true, write: true },
            flags: default_mmap_flags(),
            fd: -1,
            offset: 0,
        },
    )
}

impl FreeMemProbe {
    /// The search after the mapping call returned `addr`. The address with
    /// every bit set reports that nothing was mapped.
    pub open spec fn after_reserve(self, addr: usize) -> FreeMemProbe {
        match self {
            FreeMemProbe::Reserve(request) => if addr == usize::MAX {
                FreeMemProbe::Failed(Error::ReservationFailed)
            } else {
                FreeMemProbe::Release(UnmapRequest { addr, len: request.len })
            },
            _ => self,
        }
    }

    /// The search after the unmapping call returned `status`. Zero reports
    /// success.
    pub open spec fn after_release(self, status: i32) -> FreeMemProbe {
        match self {
            FreeMemProbe::Release(request) => if status == 0 {
                FreeMemProbe::Found(request.addr)
            } else {
                FreeMemProbe::Failed(Error::ReleaseFailed)
            },
            _ => self,
        }
    }

    /// What the search ended in, or `None` while it is under way.
    pub open spec fn outcome_spec(self) -> Option<Result<usize, Error>> {
        match self {
            FreeMemProbe::Found(addr) => Some(Ok(addr)),
            FreeMemProbe::Failed(error) => Some(Err(error)),
            _ => None,
        }
    }

    /// Takes the address that the mapping call returned. A search that is
    /// not waiting for one stays as it is.
    pub fn reserved(self, addr: usize) -> (next: FreeMemProbe)
        ensures
            next == self.after_reserve(addr),
    {
        match self {
            FreeMemProbe::Reserve(request) => {
                if addr == map_failed() {
                    FreeMemProbe::Failed(Error::ReservationFailed)
                } else {
                    FreeMemProbe::Release(UnmapRequest { addr, len: request.len })
                }
            },
            other => other,
        }
    }

    /// Takes the status that the unmapping call returned. A search that is
    /// not waiting for one stays as it is.
    pub fn released(self, status: i32) -> (next: FreeMemProbe)
        ensures
            next == self.after_release(status),
    {
        match self {
            FreeMemProbe::Release(request) => {
                if status == 0 {
                    FreeMemProbe::Found(request.addr)
                } else {
                    FreeMemProbe::Failed(Error::ReleaseFailed)
                }
            },
            other => other,
        }
    }

    /// Says what the search ended in, or `None` while it is under way.
    pub fn outcome(&self) -> (outcome: Option<Result<usize, Error>>)
        ensures
            outcome == self.outcome_spec(),
    {
        match self {
            FreeMemProbe::Found(addr) => Some(Ok(*addr)),
            FreeMemProbe::Failed(error) => Some(Err(*error)),
            _ => None,
        }
    }
}

/// A search for `size` bytes, in which the mapping call returns `addr` and
/// the unmapping call `status`, finds `addr` exactly when there is at least
/// one byte to look for, the mapping call did not report failure, and the
/// unmapping call reported success. It fails with `ReservationFailed` where
/// nothing was mapped, and with `ReleaseFailed` where the mapping could not
/// be given back.
pub proof fn probe_finds_what_was_mapped_and_released(size: usize, addr: usize, status: i32)
    ensures
        probe_start(size).after_reserve(addr).after_release(status).outcome_spec() == Some(
            if size == 0 || addr == usize::MAX {
                Err::<usize, Error>(Error::ReservationFailed)
            } else if status != 0 {
                Err::<usize, Error>(Error::ReleaseFailed)
            } else {
                Ok::<usize, Error>(addr)
            },
        ),
{
}

/// The request that maps `len` readable and writable bytes at exactly `ptr`:
/// the call fails rather than map them elsewhere or over another mapping.
pub open spec fn fixed_request(ptr: usize, len: usize) -> MapRequest {
    MapRequest {
        addr: ptr,
        len,
        prot: Protection { read: true, write: true },
        flags: MapFlags { fixed_noreplace: true, populate: true, ..default_flags() },
        fd: -1i32,
        offset: 0,
    }
}

/// Describes the call that maps `len` bytes at the fixed address `ptr`.
/// Huge pages are never asked for, whatever `_map_huge` says.
pub fn call_mmap(ptr: usize, len: usize, _map_huge: bool) -> (request: MapRequest)
    ensures
        request == fixed_request(ptr, len),
{
    let flags = default_mmap_flags();
    MapRequest {
        addr: ptr,
        len,
        prot: Protection { read: true, write: true },
        flags: MapFlags { fixed_noreplace: true, populate: true, ..flags },
        fd: -1,
        offset: 0,
    }
}

/// What is known of a mapping that failed.
#[derive(Clone, Copy, Debug)]
pub struct MapFailureReport {
    /// The error to hand back: always [`Error::MapFailed`].
    pub error: Error,
    /// The error number that the failed call left behind.
    pub errno: i32,
    /// The limits of the process to report with it, in this order.
    pub limits: [Limit; 3],
}

/// The limits that bound what a process can map: on its address space, on
/// its resident set and on the memory it may lock.
pub open spec fn reported_limits() -> Seq<Limit> {
    seq![Limit::AddressSpace, Limit::ResidentSet, Limit::LockedMemory]
}

/// Whether `report` is the report on a failed mapping whose error number
/// is `errno`.
pub open spec fn reports(report: MapFailureReport, errno: i32) -> bool {
    &&& report.error == Error::MapFailed
    &&& report.errno == errno
    &&& report.limits@ == reported_limits()
}

/// Judges what a call made for [`call_mmap`] returned, where `errno` is the
/// error number that the call left behind. The address with every bit set
/// reports failure, any other address success. A failure comes with the
/// error number and the limits to report.
pub fn mmap_returned_with(returned: usize, errno: i32) -> (result: Result<(), MapFailureReport>)
    ensures
        result is Err <==> returned == usize::MAX,
        result matches Err(report) ==> reports(report, errno),
{
    if returned == map_failed() {
        let report = MapFailureReport {
            error: Error::MapFailed,
            errno,
            limits: [Limit::AddressSpace, Limit::ResidentSet, Limit::LockedMemory],
        };
        assert(report.limits@ =~= reported_limits());
        Err(report)
    } else {
        Ok(())
    }
}

/// Judges what a call made for [`call_mmap`] returned, to be called before
/// the thread makes another system call. The address with every bit set
/// reports failure, any other address success. The error number in the
/// report of a failure is whatever the failed call left behind.
pub fn mmap_returned(returned: usize) -> (result: Result<(), MapFailureReport>)
    ensures
        result is Err <==> returned == usize::MAX,
        result matches Err(report) ==> reports(report, report.errno),
{
    if returned == map_failed() {
        mmap_returned_with(returned, last_os_error())
    } else {
        Ok(())
    }
}

/// The installation of the fault handler, step by step. Each step is one
/// call whose status is reported with [`Installation::returned`]. A call
/// that fails ends the installation with an error for the caller; setting a
/// controller up never ends the process.
#[derive(Clone, Copy, Debug, PartialEq, Eq, Structural)]
pub enum Installation {
    /// Next, empty the set of signals to hold back.
    ClearMask(InstallRequest),
    /// Next, add the signal `blocked` of the request to that set.
    FillMask(InstallRequest),
    /// Next, install the handler as the request says.
    Install(InstallRequest),
    /// The handler is installed.
    Installed,
    /// One of the calls failed. Nothing was installed.
    Failed(Error),
}

/// The request to handle memory faults, which come as signal 11, with the
/// faulting address handed over, while the signal `blocked` is held back.
pub open spec fn install_request(blocked: i32) -> InstallRequest {
    InstallRequest { signo: 11, blocked, siginfo: true }
}

impl Installation {
    /// The installation after its pending call returned `status`. Zero
    /// reports success.
    pub open spec fn after(self, status: i32) -> Installation {
        match self {
            Installation::ClearMask(request) => if status == 0 {
                Installation::FillMask(request)
            } else {
                Installation::Failed(Error::InstallFailed)
            },
            Installation::FillMask(request) => if status == 0 {
                Installation::Install(request)
            } else {
                Installation::Failed(Error::InstallFailed)
            },
            Installation::Install(request) => if status == 0 {
                Installation::Installed
            } else {
                Installation::Failed(Error::InstallFailed)
            },
            _ => self,
        }
    }

    /// What the installation ended in, or `None` while it is under way.
    pub open spec fn outcome_spec(self) -> Option<Result<(), Error>> {
        match self {
            Installation::Installed => Some(Ok(())),
            Installation::Failed(error) => Some(Err(error)),
            _ => None,
        }
    }

    /// Starts an installation that holds the signal `blocked` back while a
    /// fault is handled.
    pub fn begin(blocked: i32) -> (installation: Installation)
        ensures
            installation == Installation::ClearMask(install_request(blocked)),
    {
        Installation::ClearMask(InstallRequest { signo: fault_signal(), blocked, siginfo: true })
    }

    /// Takes the status that the pending call returned. An installation
    /// that has ended stays as it is.
    pub fn returned(self, status: i32) -> (next: Installation)
        ensures
            next == self.after(status),
    {
        match self {
            Installation::ClearMask(request) => {
                if status == 0 {
                    Installation::FillMask(request)
                } else {
                    Installation::Failed(Error::InstallFailed)
                }
            },
            Installation::FillMask(request) => {
                if status == 0 {
                    Installation::Install(request)
                } else {
                    Installation::Failed(Error::InstallFailed)
                }
            },
            Installation::Install(request) => {
                if status == 0 {
                    Installation::Installed
                } else {
                    Installation::Failed(Error::InstallFailed)
                }
            },
            other => other,
        }
    }

    /// Says what the installation ended in, or `None` while it is under
    /// way.
    pub fn outcome(&self) -> (outcome: Option<Result<(), Error>>)
        ensures
            outcome == self.outcome_spec(),
    {
        match self {
            Installation::Installed => Some(Ok(())),
            Installation::Failed(error) => Some(Err(*error)),
            _ => None,
        }
    }
}

/// Sets the fault controller up for the `size` bytes at `pointer` and starts
/// the installation of its handler, which holds the signal `blocked` back
/// while a fault is handled.
pub fn set_up(
    pa0: PassAround,
    pointer: usize,
    size: usize,
    output_file: bool,
    blocked: i32,
) -> (result: (SigSegvHandler, Installation))
    ensures
        result.0 == (SigSegvHandler {
            pa0,
            region: MemoryRegion { base: pointer, size },
            output_file,
        }),
        result.1 == Installation::ClearMask(install_request(blocked)),
{
    let handler = SigSegvHandler { pa0, region: MemoryRegion { base: pointer, size }, output_file };
    (handler, Installation::begin(blocked))
}

/// Sets the fault controller up for the `size` bytes at `pointer` and starts
/// the installation of its handler. While a fault is handled the signal of
/// the profiling timer is held back, so that no tick interrupts the mapping
/// of a page. The number of that signal is whatever the platform gives it:
/// [`set_up`] takes the number from the caller and says the same of every
/// number.
pub fn initialize(pa0: PassAround, pointer: usize, size: usize, output_file: bool) -> (result: (
    SigSegvHandler,
    Installation,
))
    ensures
        result.0 == (SigSegvHandler {
            pa0,
            region: MemoryRegion { base: pointer, size },
            output_file,
        }),
        result.1 matches Installation::ClearMask(request) && request == install_request(
            request.blocked,
        ),
{
    set_up(pa0, pointer, size, output_file, profiling_signal())
}

/// An installation whose three calls return `first`, `second` and `third`
/// ends with the handler installed exactly when all three report success,
/// and with the error `InstallFailed` otherwise. A call that fails is the
/// last one made: the installation is over with it. Whatever is reported
/// after the end changes nothing.
pub proof fn installation_needs_every_call(blocked: i32, first: i32, second: i32, third: i32)
    ensures
        ({
            let start = Installation::ClearMask(install_request(blocked));
            let end = start.after(first).after(second).after(third);
            &&& end.outcome_spec() == Some(
                if first == 0 && second == 0 && third == 0 {
                    Ok::<(), Error>(())
                } else {
                    Err::<(), Error>(Error::InstallFailed)
                },
            )
            &&& first != 0 ==> start.after(first) == end
            &&& second != 0 ==> start.after(first).after(second) == end
            &&& forall|later: i32| #[trigger] end.after(later) == end
        }),
{
}

/// The plan of the fault handler, entered for the signal `signo` with the
/// faulting address `si`, or with `None` where the system handed over no
/// fault record.
///
/// A signal that is no memory fault ends the process before anything else
/// is done. Otherwise the counters are paused first. The faulting address is
/// written to the diagnostic sink, where there is one. Then the page of the
/// address is either mapped, after which the counters run again, or found to
/// lie outside the region, which ends the process.
pub open spec fn fault_plan(handler: SigSegvHandler, signo: i32, si: Option<usize>) -> Seq<Step> {
    if signo != 11 {
        seq![Step::Abort(Fatal::NotAFault { signo })]
    } else {
        match si {
            None => seq![Step::StopCounters(handler.pa0), Step::Abort(Fatal::MissingFaultRecord)],
            Some(vfa) => {
                let page = page_of(vfa as int) as usize;
                let entry = if handler.output_file {
                    seq![Step::StopCounters(handler.pa0), Step::WriteAddress { vfa }]
                } else {
                    seq![Step::StopCounters(handler.pa0)]
                };
                if handler.region.admits(page as int) {
                    entry + seq![
                        Step::MapPage { request: fixed_request(page, 4096), vfa },
                        Step::StartCounters(handler.pa0),
                    ]
                } else {
                    entry + seq![
                        Step::Abort(
                            Fatal::OutsideRegion {
                                page,
                                base: handler.region.base,
                                size: handler.region.size,
                            },
                        ),
                    ]
                }
            },
        }
    }
}

/// Decides what the fault handler does for the signal `signo` and the
/// faulting address `si`.
pub fn signal_handler(handler: &SigSegvHandler, signo: i32, si: Option<usize>) -> (plan: Plan)
    ensures
        plan@ == fault_plan(*handler, signo, si),
{
    let mut plan = Plan::new();
    if signo != fault_signal() {
        plan.push(Step::Abort(Fatal::NotAFault { signo }));
        return plan;
    }
    plan.push(Step::StopCounters(handler.pa0));
    let vfa = match si {
        None => {
            plan.push(Step::Abort(Fatal::MissingFaultRecord));
            return plan;
        },
        Some(vfa) => vfa,
    };
    if handler.output_file {
        plan.push(Step::WriteAddress { vfa });
    }
    let page = page_base(vfa);
    if !handler.region.covers(page) {
        plan.push(
            Step::Abort(
                Fatal::OutsideRegion {
                    page,
                    base: handler.region.base,
                    size: handler.region.size,
                },
            ),
        );
        return plan;
    }
    let request = call_mmap(page, PAGE_SIZE, false);
    plan.push(Step::MapPage { request, vfa });
    plan.push(Step::StartCounters(handler.pa0));
    plan
}

/// Decides how the fault handler begins for the signal `signo`. The first
/// step of its plan is the same for every faulting address, so it can be
/// had, and the counters paused, before the address is looked at and the
/// rest of the plan is made.
pub fn first_step(handler: &SigSegvHandler, signo: i32) -> (step: Step)
    ensures
        forall|si: Option<usize>| step == #[trigger] fault_plan(*handler, signo, si)[0],
{
    if signo != fault_signal() {
        Step::Abort(Fatal::NotAFault { signo })
    } else {
        Step::StopCounters(handler.pa0)
    }
}

/// Whether carrying out `step` maps the byte at `addr`.
pub open spec fn maps_byte(step: Step, addr: int) -> bool {
    step matches Step::MapPage { request, vfa } && request.addr <= addr < request.addr
        + request.len
}

/// The bytes that are mapped once every step of `plan` has been carried
/// out, where the bytes in `mapped` were mapped before.
pub open spec fn mapped_after(plan: Seq<Step>, mapped: Set<int>) -> Set<int> {
    Set::new(
        |addr: int|
            mapped.contains(addr) || exists|i: int|
                0 <= i < plan.len() && maps_byte(#[trigger] plan[i], addr),
    )
}

/// Whether the memory of a process can look like `mapped`: memory is mapped
/// by the page, so of two bytes in one page either both are mapped or
/// neither is.
pub open spec fn by_the_page(mapped: Set<int>) -> bool {
    forall|a: int, b: int|
        page_of(a) == page_of(b) ==> (#[trigger] mapped.contains(a) <==> #[trigger] mapped.contains(
            b,
        ))
}

/// Whether the system grants every mapping that `plan` asks for, where the
/// bytes in `mapped` are mapped: a mapping at a fixed address is refused
/// where one of its bytes is mapped already.
pub open spec fn granted(plan: Seq<Step>, mapped: Set<int>) -> bool {
    forall|i: int, addr: int|
        0 <= i < plan.len() && #[trigger] maps_byte(plan[i], addr) ==> !mapped.contains(addr)
}

/// Whether a handler that follows `plan` returns to the code it
/// interrupted: no step of the plan ends the process.
pub open spec fn resumes(plan: Seq<Step>) -> bool {
    forall|i: int| 0 <= i < plan.len() ==> !(#[trigger] plan[i] is Abort)
}

/// The bytes of the page that starts at `page`.
pub open spec fn page_bytes(page: int) -> Set<int> {
    Set::new(|addr: int| page <= addr < page + 4096)
}

/// The number of faults that an access to the byte at `addr` raises until
/// it succeeds, where the bytes in `mapped` are mapped. An access to a
/// mapped byte raises none. An access to another byte raises one, provided
/// that the handler's plan maps the byte, that the system grants what the
/// plan asks for, and that the handler returns, so that the access succeeds
/// when it is made again. `None` stands for an access that never succeeds.
pub open spec fn faults_of_access(handler: SigSegvHandler, mapped: Set<int>, addr: usize) -> Option<
    nat,
> {
    let plan = fault_plan(handler, 11, Some(addr));
    if mapped.contains(addr as int) {
        Some(0nat)
    } else if resumes(plan) && granted(plan, mapped) && mapped_after(plan, mapped).contains(
        addr as int,
    ) {
        Some(1nat)
    } else {
        None
    }
}

/// The bytes that are mapped after an access to the byte at `addr`.
pub open spec fn mapped_after_access(handler: SigSegvHandler, mapped: Set<int>, addr: usize) -> Set<
    int,
> {
    if mapped.contains(addr as int) {
        mapped
    } else {
        mapped_after(fault_plan(handler, 11, Some(addr)), mapped)
    }
}

/// What the handler's plan for a fault inside the region maps: the page of
/// the faulting address and nothing else.
proof fn lemma_fault_inside_region(handler: SigSegvHandler, mapped: Set<int>, vfa: usize)
    requires
        handler.region.wf(),
        handler.region.holds(vfa as int),
    ensures
        resumes(fault_plan(handler, 11, Some(vfa))),
        mapped_after(fault_plan(handler, 11, Some(vfa)), mapped) == mapped.union(
            page_bytes(page_of(vfa as int)),
        ),
        forall|i: int, addr: int|
            0 <= i < fault_plan(handler, 11, Some(vfa)).len() && #[trigger] maps_byte(
                fault_plan(handler, 11, Some(vfa))[i],
                addr,
            ) ==> page_of(addr) == page_of(vfa as int),
{
    let plan = fault_plan(handler, 11, Some(vfa));
    let page = page_of(vfa as int);
    let at = if handler.output_file {
        2int
    } else {
        1int
    };
    assert(handler.region.admits(page));
    assert(plan[at] == Step::MapPage { request: fixed_request(page as usize, 4096), vfa });
    assert forall|addr: int| #[trigger]
        mapped_after(plan, mapped).contains(addr) == mapped.union(page_bytes(page)).contains(
            addr,
        ) by {
        if page_bytes(page).contains(addr) {
            assert(maps_byte(plan[at], addr));
        }
    }
    assert(mapped_after(plan, mapped) =~= mapped.union(page_bytes(page)));
}

/// Memory that is mapped by the page stays so when one more page is mapped.
proof fn lemma_one_more_page(mapped: Set<int>, page: int)
    requires
        by_the_page(mapped),
        page % 4096 == 0,
    ensures
        by_the_page(mapped.union(page_bytes(page))),
{
    let after = mapped.union(page_bytes(page));
    assert forall|a: int, b: int| page_of(a) == page_of(b) implies (#[trigger] after.contains(a)
        <==> #[trigger] after.contains(b)) by {
        assert(mapped.contains(a) <==> mapped.contains(b));
        assert(page_bytes(page).contains(a) <==> page_of(a) == page);
        assert(page_bytes(page).contains(b) <==> page_of(b) == page);
    }
}

/// The first access to any byte of the region raises exactly one fault. The
/// handler asks for the page that holds the byte, which lies within the
/// region, and for nothing else; the system grants it, and the handler
/// returns. From then on an access to whichever byte of that page raises no
/// fault.
pub proof fn first_touch_maps_its_page(handler: SigSegvHandler, mapped: Set<int>, offset: usize)
    requires
        handler.region.wf(),
        offset < handler.region.size,
        by_the_page(mapped),
        !mapped.contains(handler.region.base + offset),
    ensures
        ({
            let addr = (handler.region.base + offset) as usize;
            let page = page_of(addr as int);
            let after = mapped_after_access(handler, mapped, addr);
            &&& faults_of_access(handler, mapped, addr) == Some(1nat)
            &&& after == mapped.union(page_bytes(page))
            &&& by_the_page(after)
            &&& forall|byte: int| #[trigger]
                page_bytes(page).contains(byte) ==> handler.region.holds(byte)
            &&& forall|other: usize|
                page_of(other as int) == page ==> #[trigger] faults_of_access(
                    handler,
                    after,
                    other,
                ) == Some(0nat)
        }),
{
    let addr = (handler.region.base + offset) as usize;
    let page = page_of(addr as int);
    let plan = fault_plan(handler, 11, Some(addr));
    lemma_fault_inside_region(handler, mapped, addr);
    lemma_one_more_page(mapped, page);
    crate::page::region_is_made_of_whole_pages(handler.region, addr as int);
    let after = mapped_after_access(handler, mapped, addr);
    assert(page_bytes(page).contains(addr as int));
    assert forall|i: int, byte: int|
        0 <= i < plan.len() && #[trigger] maps_byte(plan[i], byte) implies !mapped.contains(
        byte,
    ) by {
        assert(page_of(byte) == page_of(addr as int));
        assert(mapped.contains(byte) <==> mapped.contains(addr as int));
    }
    assert forall|other: usize| page_of(other as int) == page implies #[trigger] faults_of_access(
        handler,
        after,
        other,
    ) == Some(0nat) by {
        assert(page_bytes(page).contains(other as int));
    }
}

/// A fault on an address outside the region ends the process: the handler's
/// plan ends in the step that reports a genuine invalid access, and maps
/// nothing on the way.
pub proof fn touch_outside_region_is_fatal(handler: SigSegvHandler, mapped: Set<int>, addr: usize)
    requires
        handler.region.wf(),
        !handler.region.holds(addr as int),
    ensures
        ({
            let plan = fault_plan(handler, 11, Some(addr));
            &&& plan.last() == Step::Abort(
                Fatal::OutsideRegion {
                    page: page_of(addr as int) as usize,
                    base: handler.region.base,
                    size: handler.region.size,
                },
            )
            &&& !resumes(plan)
            &&& mapped_after(plan, mapped) == mapped
            &&& !mapped.contains(addr as int) ==> faults_of_access(handler, mapped, addr) is None
        }),
{
    let plan = fault_plan(handler, 11, Some(addr));
    crate::page::region_is_made_of_whole_pages(handler.region, addr as int);
    assert(plan[plan.len() - 1] is Abort);
    assert(mapped_after(plan, mapped) =~= mapped);
}

/// Handling a fault is kept out of the measurement. Whenever the handler
/// returns to the code it interrupted, it has paused the counters before it
/// did anything else and let them run again as its last step. Whenever it
/// does not return, it has let no counter run.
pub proof fn fault_handling_is_not_measured(handler: SigSegvHandler, signo: i32, si: Option<usize>)
    ensures
        ({
            let plan = fault_plan(handler, signo, si);
            &&& resumes(plan) ==> brackets_counters(plan, handler.pa0)
            &&& !resumes(plan) ==> plan.last() is Abort && forall|i: int|
                0 <= i < plan.len() ==> !(#[trigger] plan[i] is StartCounters)
        }),
{
    let plan = fault_plan(handler, signo, si);
    assert(plan.len() >= 1);
    if !(plan.last() is Abort) {
        assert(signo == 11 && si is Some);
        assert forall|i: int| 0 <= i < plan.len() implies !(#[trigger] plan[i] is Abort) by {}
    } else {
        assert(plan[plan.len() - 1] is Abort);
    }
}

} // verus!
