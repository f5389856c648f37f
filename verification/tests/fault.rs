use mmap_shim::counter::{create_empty, PassAround};
use mmap_shim::error::Error;
use mmap_shim::page::{page_base, MemoryRegion, PAGE_SIZE};
use mmap_shim::plan::{Fatal, Plan, Step};
use mmap_shim::request::{
    InstallRequest, Limit, MapFlags, MapRequest, Protection, UnmapRequest,
};
use mmap_shim::sigsegv::{
    call_mmap, default_mmap_flags, find_free_mem, first_step, initialize, mmap_returned,
    mmap_returned_with, set_up, signal_handler, FreeMemProbe, Installation, SigSegvHandler,
};
use mmap_shim::trace::address_line;

const BASE: usize = 0x7f00_0000_0000 % usize::MAX;

fn counters() -> PassAround {
    PassAround { fd0: 7, ids: 0x1000, strings: 0x2000 }
}

fn fixed(page: usize) -> MapRequest {
    MapRequest {
        addr: page,
        len: 4096,
        prot: Protection { read: true, write: true },
        flags: MapFlags { private: true, anonymous: true, fixed_noreplace: true, populate: true },
        fd: -1,
        offset: 0,
    }
}

/// A process as far as the fault controller can tell: which pages are
/// mapped, whether the counters run, and what reached the diagnostic sink.
struct Process {
    mapped: Vec<usize>,
    memory: Vec<(usize, u8)>,
    running: bool,
    sink: Vec<u8>,
    sink_works: bool,
    faults: usize,
}

impl Process {
    fn new() -> Process {
        Process {
            mapped: Vec::new(),
            memory: Vec::new(),
            running: true,
            sink: Vec::new(),
            sink_works: true,
            faults: 0,
        }
    }

    fn is_mapped(&self, addr: usize) -> bool {
        self.mapped.iter().any(|page| *page <= addr && addr - *page < 4096)
    }

    /// Carries out one step. `Err` carries the error that ends the process.
    fn perform(&mut self, step: Step) -> Result<(), Fatal> {
        match step {
            Step::StopCounters(_) => self.running = false,
            Step::StartCounters(_) => self.running = true,
            Step::WriteAddress { vfa } => {
                if !self.sink_works {
                    return Err(step.failure().unwrap());
                }
                self.sink.extend_from_slice(address_line(vfa).as_bytes());
            }
            Step::MapPage { request, vfa: _ } => {
                assert!(request.flags.fixed_noreplace);
                let returned = if self.is_mapped(request.addr) {
                    usize::MAX
                } else {
                    self.mapped.push(request.addr);
                    request.addr
                };
                if mmap_returned(returned).is_err() {
                    return Err(step.failure().unwrap());
                }
            }
            Step::Abort(fatal) => return Err(fatal),
            other => panic!("the fault handler never asks for {:?}", other),
        }
        Ok(())
    }

    fn run(&mut self, plan: &Plan) -> Result<(), Fatal> {
        let mut i = 0;
        while let Some(step) = plan.get(i) {
            self.perform(step)?;
            i += 1;
        }
        Ok(())
    }

    /// Writes one byte, faulting first where the page is not mapped.
    fn write(&mut self, handler: &SigSegvHandler, addr: usize, value: u8) -> Result<(), Fatal> {
        while !self.is_mapped(addr) {
            self.faults += 1;
            let plan = signal_handler(handler, libc::SIGSEGV, Some(addr));
            self.run(&plan)?;
        }
        self.memory.push((addr, value));
        Ok(())
    }

    fn read(&self, addr: usize) -> Option<u8> {
        self.memory.iter().rev().find(|(a, _)| *a == addr).map(|(_, v)| *v)
    }
}

fn handler_over(base: usize, size: usize, output_file: bool) -> SigSegvHandler {
    initialize(counters(), base, size, output_file).0
}

#[test]
fn create_empty_refers_to_nothing() {
    assert_eq!(create_empty(), PassAround { fd0: -1, ids: 0, strings: 0 });
}

#[test]
fn page_base_clears_the_low_twelve_bits() {
    assert_eq!(PAGE_SIZE, 4096);
    assert_eq!(page_base(0), 0);
    assert_eq!(page_base(4095), 0);
    assert_eq!(page_base(4096), 4096);
    assert_eq!(page_base(0x1234_5678), 0x1234_5000);
    assert_eq!(page_base(usize::MAX), usize::MAX - 4095);
}

#[test]
fn a_region_is_well_formed_when_made_of_whole_pages() {
    assert!(MemoryRegion { base: 0x4000, size: 0x2000 }.is_well_formed());
    assert!(MemoryRegion { base: 0, size: 0 }.is_well_formed());
    assert!(MemoryRegion { base: usize::MAX - 4095, size: 0 }.is_well_formed());
    assert!(!MemoryRegion { base: 0x4001, size: 0x2000 }.is_well_formed());
    assert!(!MemoryRegion { base: 0x4000, size: 0x2001 }.is_well_formed());
    assert!(!MemoryRegion { base: 0x4000, size: 100 }.is_well_formed());
    assert!(!MemoryRegion { base: usize::MAX - 4095, size: 4096 }.is_well_formed());
}

#[test]
fn region_covers_its_pages_only() {
    let region = MemoryRegion { base: 0x4000, size: 0x2000 };
    assert!(!region.covers(0x3000));
    assert!(region.covers(0x4000));
    assert!(region.covers(0x5000));
    assert!(!region.covers(0x6000));
    assert!(!MemoryRegion { base: 0x4000, size: 0 }.covers(0x4000));
}

#[test]
fn error_messages() {
    assert_eq!(Error::ReservationFailed.message(), "mmap failed looking for free mem");
    assert_eq!(Error::ReleaseFailed.message(), "munmap failed looking for free mem");
    assert_eq!(Error::MapFailed.message(), "Mmap Error");
    assert_eq!(Error::InstallFailed.message(), "Sigaction Failed");
}

#[test]
fn default_flags_are_private_and_anonymous() {
    assert_eq!(
        default_mmap_flags(),
        MapFlags { private: true, anonymous: true, fixed_noreplace: false, populate: false }
    );
}

#[test]
fn call_mmap_asks_for_a_fixed_populated_mapping() {
    assert_eq!(call_mmap(0x5000, 4096, false), fixed(0x5000));
    assert_eq!(call_mmap(0x5000, 4096, true), fixed(0x5000));
    let request = call_mmap(0x9000, 8192, false);
    assert_eq!(request.addr, 0x9000);
    assert_eq!(request.len, 8192);
}

#[test]
fn mmap_returned_tells_failure_by_the_address() {
    assert!(mmap_returned(libc::MAP_FAILED as usize).is_err());
    assert!(mmap_returned(usize::MAX).is_err());
    assert!(mmap_returned(0x5000).is_ok());
    assert!(mmap_returned(0).is_ok());
    assert!(mmap_returned(usize::MAX - 1).is_ok());
    assert!(mmap_returned_with(usize::MAX, 12).is_err());
    assert!(mmap_returned_with(usize::MAX - 4095, 12).is_ok());
}

#[test]
fn a_failed_mapping_is_reported_with_the_error_number() {
    errno::set_errno(errno::Errno(12));
    let report = mmap_returned(usize::MAX).unwrap_err();
    assert_eq!(report.error, Error::MapFailed);
    assert_eq!(report.error.message(), "Mmap Error");
    assert_eq!(report.errno, 12);
    assert_eq!(
        report.limits,
        [Limit::AddressSpace, Limit::ResidentSet, Limit::LockedMemory]
    );
    errno::set_errno(errno::Errno(17));
    assert_eq!(mmap_returned(usize::MAX).unwrap_err().errno, 17);
    let given = mmap_returned_with(usize::MAX, -3).unwrap_err();
    assert_eq!(given.error, Error::MapFailed);
    assert_eq!(given.errno, -3);
    assert_eq!(given.limits, report.limits);
}

#[test]
fn fatal_errors_say_how_the_process_gives_up() {
    assert_eq!(Fatal::NotAFault { signo: 3 }.message(), None);
    assert_eq!(Fatal::TimerFailed.message(), None);
    assert_eq!(Fatal::NotATick { signo: 3 }.message(), Some("Caught weird signal"));
    assert_eq!(Fatal::MissingFaultRecord.message(), Some("siginfo_t is null"));
    assert_eq!(Fatal::DiagnosticWriteFailed.message(), Some("Failed to print vfa"));
    assert_eq!(
        Fatal::OutsideRegion { page: 0, base: 4096, size: 4096 }.message(),
        Some("TRUE SIGSEGV")
    );
    assert_eq!(Fatal::MapFailed { vfa: 9 }.message(), Some("Mmap Error"));
}

#[test]
fn find_free_mem_probes_and_releases() {
    let probe = find_free_mem(4096);
    let request = MapRequest {
        addr: 0,
        len: 4096,
        prot: Protection { read: true, write: true },
        flags: MapFlags { private: true, anonymous: true, fixed_noreplace: false, populate: false },
        fd: -1,
        offset: 0,
    };
    assert_eq!(probe, FreeMemProbe::Reserve(request));
    assert_eq!(probe.outcome(), None);
    let probe = probe.reserved(BASE);
    assert_eq!(probe, FreeMemProbe::Release(UnmapRequest { addr: BASE, len: 4096 }));
    assert_eq!(probe.outcome(), None);
    let probe = probe.released(0);
    assert_eq!(probe, FreeMemProbe::Found(BASE));
    assert_eq!(probe.outcome(), Some(Ok(BASE)));
}

#[test]
fn find_free_mem_rejects_an_empty_range() {
    let probe = find_free_mem(0);
    assert_eq!(probe, FreeMemProbe::Failed(Error::ReservationFailed));
    assert_eq!(probe.outcome(), Some(Err(Error::ReservationFailed)));
}

#[test]
fn find_free_mem_reports_a_failed_reservation() {
    let probe = find_free_mem(1 << 20).reserved(libc::MAP_FAILED as usize);
    assert_eq!(probe, FreeMemProbe::Failed(Error::ReservationFailed));
    assert_eq!(probe.outcome(), Some(Err(Error::ReservationFailed)));
}

#[test]
fn find_free_mem_reports_a_failed_release() {
    let probe = find_free_mem(1 << 20).reserved(BASE).released(-1);
    assert_eq!(probe, FreeMemProbe::Failed(Error::ReleaseFailed));
    assert_eq!(probe.outcome(), Some(Err(Error::ReleaseFailed)));
}

#[test]
fn a_probe_ignores_replies_it_does_not_wait_for() {
    let start = find_free_mem(4096);
    assert_eq!(start.released(0), start);
    let releasing = start.reserved(BASE);
    assert_eq!(releasing.reserved(0x1000), releasing);
    let found = releasing.released(0);
    assert_eq!(found.reserved(0x1000), found);
    assert_eq!(found.released(-1), found);
}

#[test]
fn initialize_keeps_what_it_is_given() {
    let (handler, installation) = initialize(counters(), BASE, 8192, true);
    assert_eq!(
        handler,
        SigSegvHandler {
            pa0: counters(),
            region: MemoryRegion { base: BASE, size: 8192 },
            output_file: true,
        }
    );
    assert_eq!(
        installation,
        Installation::ClearMask(InstallRequest {
            signo: libc::SIGSEGV,
            blocked: libc::SIGPROF,
            siginfo: true,
        })
    );
}

#[test]
fn installation_succeeds_step_by_step() {
    let request = InstallRequest { signo: 11, blocked: 27, siginfo: true };
    let start = Installation::begin(27);
    assert_eq!(start, Installation::ClearMask(request));
    assert_eq!(start.outcome(), None);
    let fill = start.returned(0);
    assert_eq!(fill, Installation::FillMask(request));
    let install = fill.returned(0);
    assert_eq!(install, Installation::Install(request));
    assert_eq!(install.outcome(), None);
    let done = install.returned(0);
    assert_eq!(done, Installation::Installed);
    assert_eq!(done.outcome(), Some(Ok(())));
    assert_eq!(done.returned(-1), done);
}

#[test]
fn installation_reports_a_refused_handler() {
    let failed = Installation::begin(27).returned(0).returned(0).returned(-1);
    assert_eq!(failed, Installation::Failed(Error::InstallFailed));
    assert_eq!(failed.outcome(), Some(Err(Error::InstallFailed)));
    assert_eq!(failed.returned(0), failed);
}

#[test]
fn installation_fails_without_a_signal_set() {
    let first = Installation::begin(27).returned(-1);
    assert_eq!(first, Installation::Failed(Error::InstallFailed));
    assert_eq!(first.outcome(), Some(Err(Error::InstallFailed)));
    assert_eq!(first.returned(0).returned(0), first);
    let second = Installation::begin(27).returned(0).returned(1);
    assert_eq!(second, Installation::Failed(Error::InstallFailed));
    assert_eq!(second.outcome(), Some(Err(Error::InstallFailed)));
    assert_eq!(second.returned(0), second);
}

#[test]
fn installation_ends_in_ok_only_when_every_call_succeeds() {
    for first in [0, -1, 1] {
        for second in [0, -1, 1] {
            for third in [0, -1, 1] {
                let end = Installation::begin(27).returned(first).returned(second).returned(third);
                let expected = if first == 0 && second == 0 && third == 0 {
                    Ok(())
                } else {
                    Err(Error::InstallFailed)
                };
                assert_eq!(end.outcome(), Some(expected));
            }
        }
    }
}

#[test]
fn set_up_holds_back_the_signal_it_is_given() {
    for blocked in [0, 24, 27, 29, 33] {
        let (handler, installation) = set_up(counters(), BASE, 4096, false, blocked);
        assert_eq!(
            handler,
            SigSegvHandler {
                pa0: counters(),
                region: MemoryRegion { base: BASE, size: 4096 },
                output_file: false,
            }
        );
        assert_eq!(
            installation,
            Installation::ClearMask(InstallRequest { signo: 11, blocked, siginfo: true })
        );
    }
    assert_eq!(
        initialize(counters(), BASE, 4096, false),
        set_up(counters(), BASE, 4096, false, libc::SIGPROF)
    );
}

#[test]
fn the_first_step_of_a_fault_is_the_first_of_its_plan() {
    let handler = handler_over(BASE, 4096, true);
    assert_eq!(first_step(&handler, 11), Step::StopCounters(counters()));
    assert_eq!(first_step(&handler, 27), Step::Abort(Fatal::NotAFault { signo: 27 }));
    for signo in [11, 27, 0, -1] {
        for si in [None, Some(BASE), Some(BASE + 4096), Some(0)] {
            let plan = signal_handler(&handler, signo, si);
            assert_eq!(plan.get(0), Some(first_step(&handler, signo)));
        }
    }
}

#[test]
fn a_fault_inside_the_region_maps_its_page() {
    let handler = handler_over(BASE, 3 * 4096, true);
    let vfa = BASE + 4096 + 17;
    let plan = signal_handler(&handler, 11, Some(vfa));
    assert_eq!(
        plan.to_vec(),
        vec![
            Step::StopCounters(counters()),
            Step::WriteAddress { vfa },
            Step::MapPage { request: fixed(BASE + 4096), vfa },
            Step::StartCounters(counters()),
        ]
    );
    assert_eq!(plan.len(), 4);
    assert_eq!(plan.get(3), Some(Step::StartCounters(counters())));
    assert_eq!(plan.get(4), None);
}

#[test]
fn a_fault_without_a_sink_writes_nothing() {
    let handler = handler_over(BASE, 4096, false);
    let plan = signal_handler(&handler, 11, Some(BASE + 4095));
    assert_eq!(
        plan.to_vec(),
        vec![
            Step::StopCounters(counters()),
            Step::MapPage { request: fixed(BASE), vfa: BASE + 4095 },
            Step::StartCounters(counters()),
        ]
    );
}

#[test]
fn a_fault_outside_the_region_ends_the_process() {
    let handler = handler_over(BASE, 4096, true);
    for vfa in [BASE + 4096, BASE - 1, 0, 8, usize::MAX] {
        let plan = signal_handler(&handler, 11, Some(vfa));
        assert_eq!(
            plan.to_vec(),
            vec![
                Step::StopCounters(counters()),
                Step::WriteAddress { vfa },
                Step::Abort(Fatal::OutsideRegion {
                    page: vfa & !4095,
                    base: BASE,
                    size: 4096,
                }),
            ]
        );
    }
    let silent = handler_over(BASE, 4096, false);
    assert_eq!(
        signal_handler(&silent, 11, Some(BASE + 4096)).to_vec(),
        vec![
            Step::StopCounters(counters()),
            Step::Abort(Fatal::OutsideRegion { page: BASE + 4096, base: BASE, size: 4096 }),
        ]
    );
}

#[test]
fn a_fault_without_a_record_ends_the_process() {
    let handler = handler_over(BASE, 4096, true);
    assert_eq!(
        signal_handler(&handler, 11, None).to_vec(),
        vec![Step::StopCounters(counters()), Step::Abort(Fatal::MissingFaultRecord)]
    );
}

#[test]
fn another_signal_ends_the_process_at_once() {
    let handler = handler_over(BASE, 4096, true);
    for signo in [libc::SIGPROF, libc::SIGBUS, 0, -1, 12] {
        assert_eq!(
            signal_handler(&handler, signo, Some(BASE)).to_vec(),
            vec![Step::Abort(Fatal::NotAFault { signo })]
        );
    }
    assert_eq!(signal_handler(&handler, libc::SIGSEGV, Some(BASE)).len(), 4);
}

#[test]
fn steps_say_what_their_failure_means() {
    assert_eq!(
        Step::WriteAddress { vfa: 5 }.failure(),
        Some(Fatal::DiagnosticWriteFailed)
    );
    assert_eq!(
        Step::MapPage { request: fixed(0), vfa: 5 }.failure(),
        Some(Fatal::MapFailed { vfa: 5 })
    );
    assert_eq!(Step::StopCounters(counters()).failure(), None);
    assert_eq!(Step::StartCounters(counters()).failure(), None);
    assert_eq!(Step::Abort(Fatal::MissingFaultRecord).failure(), None);
}

#[test]
fn every_byte_of_the_region_faults_once_per_page() {
    let size = 4 * 4096;
    let handler = handler_over(BASE, size, false);
    let mut process = Process::new();
    for offset in (0..size).step_by(509) {
        let before = process.faults;
        let fresh = !process.is_mapped(BASE + offset);
        assert_eq!(process.write(&handler, BASE + offset, 1), Ok(()));
        assert_eq!(process.faults - before, if fresh { 1 } else { 0 });
        assert!(process.is_mapped(page_base(BASE + offset)));
        assert!(process.is_mapped(page_base(BASE + offset) + 4095));
        assert!(process.running);
    }
    assert_eq!(process.faults, 4);
    assert_eq!(process.mapped, vec![BASE, BASE + 4096, BASE + 8192, BASE + 12288]);
}

#[test]
fn a_second_fault_on_a_mapped_page_ends_the_process() {
    let handler = handler_over(BASE, 4096, false);
    let mut process = Process::new();
    process.mapped.push(BASE);
    let plan = signal_handler(&handler, 11, Some(BASE + 3));
    assert_eq!(process.run(&plan), Err(Fatal::MapFailed { vfa: BASE + 3 }));
    assert!(!process.running);
}

#[test]
fn a_broken_sink_ends_the_process() {
    let handler = handler_over(BASE, 4096, true);
    let mut process = Process::new();
    process.sink_works = false;
    assert_eq!(process.write(&handler, BASE, 1), Err(Fatal::DiagnosticWriteFailed));
    assert!(process.mapped.is_empty());
}

#[test]
fn one_page_region_end_to_end() {
    let size = 4096;
    let base = match find_free_mem(size).reserved(BASE).released(0).outcome() {
        Some(Ok(base)) => base,
        other => panic!("no free memory: {:?}", other),
    };
    let (handler, installation) = initialize(counters(), base, size, true);
    assert_eq!(installation.returned(0).returned(0).returned(0).outcome(), Some(Ok(())));

    let mut process = Process::new();
    assert_eq!(process.write(&handler, base, 5), Ok(()));
    assert_eq!(process.faults, 1);
    assert_eq!(process.read(base), Some(5));
    assert_eq!(process.mapped, vec![base]);
    assert!(process.running);
    assert_eq!(process.sink, format!("{:#x}\tvfa\n", base).into_bytes());

    assert_eq!(
        process.write(&handler, base + 4096, 5),
        Err(Fatal::OutsideRegion { page: base + 4096, base, size })
    );
    assert_eq!(process.faults, 2);
    assert_eq!(process.mapped, vec![base]);
    assert_eq!(process.read(base + 4096), None);
}
