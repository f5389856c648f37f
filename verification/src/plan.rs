//! Plans: the steps that a caller carries out for a controller, in order.
//!
//! A plan holds at most five steps in a buffer of fixed size. A signal
//! handler can therefore ask for one and walk through it without
//! allocating.

use vstd::prelude::*;
use crate::counter::PassAround;
use crate::request::{MapRequest, TimerRequest};

verus! {

/// The most steps that any plan holds.
pub const PLAN_CAPACITY: usize = 5;

/// Why a handler gives up and the process ends.
#[derive(Clone, Copy, Debug, PartialEq, Eq, Structural)]
pub enum Fatal {
    /// The fault handler was entered for a signal that is no memory fault.
    NotAFault { signo: i32 },
    /// The tick handler was entered for a signal that is not its timer's.
    NotATick { signo: i32 },
    /// The fault came without the record that holds the faulting address.
    MissingFaultRecord,
    /// The faulting address could not be written to the diagnostic sink.
    DiagnosticWriteFailed,
    /// A genuine invalid access: the faulting page is no part of the
    /// region.
    OutsideRegion { page: usize, base: usize, size: usize },
    /// The page for the faulting address `vfa` could not be mapped.
    MapFailed { vfa: usize },
    /// The timer could not be armed.
    TimerFailed,
}

impl Fatal {
    /// The words with which the process gives up, or `None` for an error on
    /// which it exits with status -1 and without a word.
    pub open spec fn message_spec(self) -> Option<Seq<char>> {
        match self {
            Fatal::NotAFault { signo } => None,
            Fatal::NotATick { signo } => Some("Caught weird signal"@),
            Fatal::MissingFaultRecord => Some("siginfo_t is null"@),
            Fatal::DiagnosticWriteFailed => Some("Failed to print vfa"@),
            Fatal::OutsideRegion { page, base, size } => Some("TRUE SIGSEGV"@),
            Fatal::MapFailed { vfa } => Some("Mmap Error"@),
            Fatal::TimerFailed => None,
        }
    }

    /// Says with which words the process gives up, if with any.
    pub fn message(&self) -> (text: Option<&'static str>)
        ensures
            text is Some <==> self.message_spec() is Some,
            text matches Some(words) ==> Some(words@) == self.message_spec(),
    {
        match self {
            Fatal::NotAFault { signo: _ } => None,
            Fatal::NotATick { signo: _ } => Some("Caught weird signal"),
            Fatal::MissingFaultRecord => Some("siginfo_t is null"),
            Fatal::DiagnosticWriteFailed => Some("Failed to print vfa"),
            Fatal::OutsideRegion { page: _, base: _, size: _ } => Some("TRUE SIGSEGV"),
            Fatal::MapFailed { vfa: _ } => Some("Mmap Error"),
            Fatal::TimerFailed => None,
        }
    }
}

/// One thing for the caller to do.
#[derive(Clone, Copy, Debug, PartialEq, Eq, Structural)]
pub enum Step {
    /// Pause the counters.
    StopCounters(PassAround),
    /// Let the counters run.
    StartCounters(PassAround),
    /// Set the counters back to zero.
    ResetCounters(PassAround),
    /// Read the counters into the sample buffer and emit one record to the
    /// descriptor `fd`.
    ReadAndEmit { counters: PassAround, fd: i64 },
    /// Call the function that the user registered.
    InvokeCallback,
    /// Make the tick handler the handler of the signal `signo`.
    InstallTickHandler { signo: i32 },
    /// Arm the timer.
    ArmTimer(TimerRequest),
    /// Wait until the tick handler has set the `finalized` flag.
    AwaitAcknowledgement,
    /// Write the record for the faulting address to the diagnostic sink.
    WriteAddress { vfa: usize },
    /// Map the page for the faulting address `vfa`.
    MapPage { request: MapRequest, vfa: usize },
    /// End the process.
    Abort(Fatal),
}

impl Step {
    /// What it means to the handler that this step could not be carried
    /// out: the error with which the process ends, or `None` for a step
    /// whose outcome nobody looks at.
    pub open spec fn failure_spec(self) -> Option<Fatal> {
        match self {
            Step::WriteAddress { vfa } => Some(Fatal::DiagnosticWriteFailed),
            Step::MapPage { request, vfa } => Some(Fatal::MapFailed { vfa }),
            Step::ArmTimer(request) => Some(Fatal::TimerFailed),
            _ => None,
        }
    }

    /// Says how the process ends when this step fails.
    pub fn failure(&self) -> (fatal: Option<Fatal>)
        ensures
            fatal == self.failure_spec(),
    {
        match self {
            Step::WriteAddress { vfa: _ } => Some(Fatal::DiagnosticWriteFailed),
            Step::MapPage { request: _, vfa } => Some(Fatal::MapFailed { vfa: *vfa }),
            Step::ArmTimer(_) => Some(Fatal::TimerFailed),
            _ => None,
        }
    }
}

/// Whether a handler that follows `plan` keeps its own work out of what the
/// counters `pa0` measure: the first step pauses them, the last step lets
/// them run again, and no step in between does either.
pub open spec fn brackets_counters(plan: Seq<Step>, pa0: PassAround) -> bool {
    &&& plan.len() >= 2
    &&& plan.first() == Step::StopCounters(pa0)
    &&& plan.last() == Step::StartCounters(pa0)
    &&& forall|i: int|
        0 < i < plan.len() - 1 ==> !(#[trigger] plan[i] is StopCounters) && !(plan[i]
            is StartCounters)
}

/// An ordered list of steps.
#[derive(Clone, Copy, Debug)]
pub struct Plan {
    steps: [Step; 5],
    len: usize,
}

impl View for Plan {
    type V = Seq<Step>;

    /// The steps, first to last.
    closed spec fn view(&self) -> Seq<Step> {
        self.steps@.take(self.len as int)
    }
}

impl Plan {
    #[verifier::type_invariant]
    spec fn inv(self) -> bool {
        self.len <= 5
    }

    /// The plan without steps.
    pub(crate) fn new() -> (plan: Plan)
        ensures
            plan@ == Seq::<Step>::empty(),
    {
        Plan { steps: [Step::InvokeCallback; 5], len: 0 }
    }

    /// Adds a step at the end.
    pub(crate) fn push(&mut self, step: Step)
        requires
            old(self)@.len() < PLAN_CAPACITY,
        ensures
            final(self)@ == old(self)@.push(step),
    {
        proof {
            use_type_invariant(&*self);
        }
        let at = self.len;
        self.steps[at] = step;
        self.len = at + 1;
    }

    /// The number of steps.
    pub fn len(&self) -> (n: usize)
        ensures
            n == self@.len(),
    {
        proof {
            use_type_invariant(self);
        }
        self.len
    }

    /// The step at position `i`, counted from zero, or `None` behind the
    /// last step.
    pub fn get(&self, i: usize) -> (step: Option<Step>)
        ensures
            step == (if i < self@.len() {
                Some(self@[i as int])
            } else {
                None
            }),
    {
        proof {
            use_type_invariant(self);
        }
        if i < self.len {
            Some(self.steps[i])
        } else {
            None
        }
    }

    /// The steps as a vector. This allocates: it is for callers outside
    /// signal handlers.
    pub fn to_vec(&self) -> (steps: Vec<Step>)
        ensures
            steps@ == self@,
    {
        proof {
            use_type_invariant(self);
        }
        let mut out: Vec<Step> = Vec::new();
        let mut i: usize = 0;
        while i < self.len
            invariant
                i <= self.len <= 5,
                out@ == self.steps@.take(i as int),
            decreases self.len - i,
        {
            out.push(self.steps[i]);
            assert(self.steps@.take(i + 1) == self.steps@.take(i as int).push(self.steps@[i as int]));
            i = i + 1;
        }
        out
    }
}

} // verus!
