//! The sampling controller: the counters are read and emitted on every tick
//! of a timer, and once more when the measurement ends.
//!
//! The timer fires once and is armed anew at the end of every tick, so a
//! tick that comes late leaves no backlog behind. Two flags carry the
//! handshake that ends a measurement: `finalize` takes `allowed` away, and
//! the next tick answers by setting `finalized` instead of sampling. A
//! measurement without a timer starts with the handshake already over.

use vstd::prelude::*;
use crate::counter::PassAround;
use crate::plan::{brackets_counters, Fatal, Plan, Step};
use crate::platform::profiling_signal;
use crate::request::TimerRequest;

verus! {

/// The period of the timer, in microseconds, where the caller names none.
pub const DEFAULT_PERIOD_USECS: i64 = 1000;

/// What the tick handler works with.
#[derive(Debug)]
pub struct AlarmHandler {
    /// The counters that are sampled.
    pub pa0: PassAround,
    /// The descriptor to which each sample is emitted.
    pub output_fd: i64,
    /// Room for one value of every counter. It is allocated when the
    /// controller is set up and has the same length ever after.
    pub buffer: Vec<u64>,
    /// Whether the user registered a function to call on every tick.
    pub func: bool,
    /// Whether ticks may sample. Taken away by `finalize`.
    pub allowed: bool,
    /// Whether the tick handler has seen that it may sample no more.
    pub finalized: bool,
    /// The period of the timer in microseconds.
    pub usecs: i64,
    /// The number of the timer's signal.
    pub signo: i32,
}

/// Where a measurement stands.
#[derive(Clone, Copy, Debug, PartialEq, Eq, Structural)]
pub enum Lifecycle {
    /// Ticks sample.
    Armed,
    /// The end was asked for, and no tick has answered yet.
    Draining,
    /// No tick samples any more, and the handler has said so.
    Finalized,
}

impl AlarmHandler {
    /// The two flags never stand together: a handler that has acknowledged
    /// the end may not sample.
    pub open spec fn wf(self) -> bool {
        !(self.allowed && self.finalized)
    }

    /// Where the measurement stands, as the flags tell.
    pub open spec fn lifecycle(self) -> Lifecycle {
        if self.allowed {
            Lifecycle::Armed
        } else if self.finalized {
            Lifecycle::Finalized
        } else {
            Lifecycle::Draining
        }
    }

    /// Says where the measurement stands.
    pub fn stage(&self) -> (stage: Lifecycle)
        ensures
            stage == self.lifecycle(),
    {
        if self.allowed {
            Lifecycle::Armed
        } else if self.finalized {
            Lifecycle::Finalized
        } else {
            Lifecycle::Draining
        }
    }
}

/// The number of microseconds in a second.
pub const USECS_PER_SEC: i64 = 1_000_000;

/// The request that makes the timer fire once, `usecs` microseconds from
/// now. A period of a second or more is split into its whole seconds and
/// the microseconds that remain. A shorter period is handed on as it is,
/// and so is a negative one, which the system refuses.
pub open spec fn timer_request(usecs: i64) -> TimerRequest {
    if usecs >= 1_000_000 {
        TimerRequest {
            secs: (usecs / 1_000_000) as i64,
            usecs: (usecs % 1_000_000) as i64,
            interval_secs: 0,
            interval_usecs: 0,
        }
    } else {
        TimerRequest { secs: 0, usecs, interval_secs: 0, interval_usecs: 0 }
    }
}

/// Describes the call that arms the timer for one tick in `usecs`
/// microseconds.
pub fn call_setitimer(usecs: i64) -> (request: TimerRequest)
    ensures
        request == timer_request(usecs),
{
    if usecs >= USECS_PER_SEC {
        TimerRequest {
            secs: usecs / USECS_PER_SEC,
            usecs: usecs % USECS_PER_SEC,
            interval_secs: 0,
            interval_usecs: 0,
        }
    } else {
        TimerRequest { secs: 0, usecs, interval_secs: 0, interval_usecs: 0 }
    }
}

/// The request for a period that is not negative spans exactly the period:
/// its seconds and microseconds add up to it, and its microseconds stay
/// below a million, as the system asks. It never makes the timer repeat.
pub proof fn timer_request_spans_the_period(usecs: i64)
    requires
        usecs >= 0,
    ensures
        timer_request(usecs).secs * 1_000_000 + timer_request(usecs).usecs == usecs,
        0 <= timer_request(usecs).usecs < 1_000_000,
        0 <= timer_request(usecs).secs,
        timer_request(usecs).interval_secs == 0,
        timer_request(usecs).interval_usecs == 0,
{
}

/// Judges the status that a call made for [`call_setitimer`] returned:
/// anything but zero means that the timer is not armed, and the process
/// ends.
pub fn setitimer_returned(status: i64) -> (result: Result<(), Fatal>)
    ensures
        result == (if status == 0 {
            Ok::<(), Fatal>(())
        } else {
            Err::<(), Fatal>(Fatal::TimerFailed)
        }),
{
    if status != 0 {
        Err(Fatal::TimerFailed)
    } else {
        Ok(())
    }
}

/// The steps that start a measurement with a timer: make the tick handler
/// the handler of the timer's signal, arm the timer, and let the counters
/// run.
pub open spec fn timed_start(pa0: PassAround, usecs: i64, signo: i32) -> Seq<Step> {
    seq![
        Step::InstallTickHandler { signo },
        Step::ArmTimer(timer_request(usecs)),
        Step::StartCounters(pa0),
    ]
}

/// The steps that start a measurement without a timer: let the counters
/// run. No handler is installed and no timer is armed.
pub open spec fn untimed_start(pa0: PassAround) -> Seq<Step> {
    seq![Step::StartCounters(pa0)]
}

/// What holds of a controller that has just been set up: it keeps what it
/// was given, its buffer has room for one value of each of the
/// `num_counters` counters, and its flags say `Armed` with a timer and
/// `Finalized` without.
pub open spec fn fresh(
    handler: AlarmHandler,
    pa0: PassAround,
    output_fd: i64,
    num_counters: u8,
    func: bool,
    usecs: i64,
    signo: i32,
    with_timer: bool,
) -> bool {
    &&& handler.pa0 == pa0
    &&& handler.output_fd == output_fd
    &&& handler.buffer@ == Seq::new(num_counters as nat, |i: int| 0u64)
    &&& handler.func == func
    &&& handler.allowed == with_timer
    &&& handler.finalized == !with_timer
    &&& handler.usecs == usecs
    &&& handler.signo == signo
}

fn sample_buffer(num_counters: u8) -> (buffer: Vec<u64>)
    ensures
        buffer@ == Seq::new(num_counters as nat, |i: int| 0u64),
{
    let mut buffer: Vec<u64> = Vec::new();
    let mut i: u8 = 0;
    while i < num_counters
        invariant
            i <= num_counters,
            buffer@ == Seq::new(i as nat, |i: int| 0u64),
        decreases num_counters - i,
    {
        buffer.push(0);
        i = i + 1;
        assert(buffer@ =~= Seq::new(i as nat, |i: int| 0u64));
    }
    buffer
}

/// Sets up a measurement whose timer ticks every `usecs` microseconds and
/// raises the signal `signo`, for `num_counters` counters.
pub fn timed(
    pa0: PassAround,
    output_fd: i64,
    usecs: i64,
    func: bool,
    num_counters: u8,
    signo: i32,
) -> (result: (AlarmHandler, Plan))
    ensures
        fresh(result.0, pa0, output_fd, num_counters, func, usecs, signo, true),
        result.1@ == timed_start(pa0, usecs, signo),
{
    let handler = AlarmHandler {
        pa0,
        output_fd,
        buffer: sample_buffer(num_counters),
        func,
        allowed: true,
        finalized: false,
        usecs,
        signo,
    };
    let mut plan = Plan::new();
    plan.push(Step::InstallTickHandler { signo });
    plan.push(Step::ArmTimer(call_setitimer(usecs)));
    plan.push(Step::StartCounters(pa0));
    (handler, plan)
}

/// Sets up a measurement without a timer, for `num_counters` counters. The
/// controller remembers `signo` as the timer's signal all the same.
pub fn untimed(pa0: PassAround, output_fd: i64, num_counters: u8, signo: i32) -> (result: (
    AlarmHandler,
    Plan,
))
    ensures
        fresh(
            result.0,
            pa0,
            output_fd,
            num_counters,
            false,
            DEFAULT_PERIOD_USECS,
            signo,
            false,
        ),
        result.1@ == untimed_start(pa0),
{
    let handler = AlarmHandler {
        pa0,
        output_fd,
        buffer: sample_buffer(num_counters),
        func: false,
        allowed: false,
        finalized: true,
        usecs: DEFAULT_PERIOD_USECS,
        signo,
    };
    let mut plan = Plan::new();
    plan.push(Step::StartCounters(pa0));
    (handler, plan)
}

/// The period that a measurement runs with: the one that the caller names,
/// or the default.
pub open spec fn period(useconds: Option<i64>) -> i64 {
    match useconds {
        Some(usecs) => usecs,
        None => DEFAULT_PERIOD_USECS,
    }
}

/// Sets up a measurement with a timer on the platform's profiling signal.
/// `useconds` is the period of the timer, `func` says whether a function is
/// to be called on every tick, and `num_counters` is the number of counters
/// that the backend reports. The number of the signal is whatever the
/// platform gives it; the controller and the plan agree on it.
pub fn initialize(
    pa0: PassAround,
    output_fd: i64,
    useconds: Option<i64>,
    func: bool,
    num_counters: u8,
) -> (result: (AlarmHandler, Plan))
    ensures
        fresh(
            result.0,
            pa0,
            output_fd,
            num_counters,
            func,
            period(useconds),
            result.0.signo,
            true,
        ),
        result.1@ == timed_start(pa0, period(useconds), result.0.signo),
{
    let usecs = match useconds {
        Some(usecs) => usecs,
        None => DEFAULT_PERIOD_USECS,
    };
    timed(pa0, output_fd, usecs, func, num_counters, profiling_signal())
}

/// Sets up a measurement with a timer of the default period and without a
/// function to call, on the counters `pa0` that the backend has just
/// created.
pub fn initialize_pass_around(pa0: PassAround, output_fd: i64, num_counters: u8) -> (result: (
    AlarmHandler,
    Plan,
))
    ensures
        fresh(
            result.0,
            pa0,
            output_fd,
            num_counters,
            false,
            DEFAULT_PERIOD_USECS,
            result.0.signo,
            true,
        ),
        result.1@ == timed_start(pa0, DEFAULT_PERIOD_USECS, result.0.signo),
{
    timed(pa0, output_fd, DEFAULT_PERIOD_USECS, false, num_counters, profiling_signal())
}

/// Sets up a measurement without a timer: the counters are read once, when
/// the measurement ends.
pub fn initialize_no_timer(pa0: PassAround, output_fd: i64, num_counters: u8) -> (result: (
    AlarmHandler,
    Plan,
))
    ensures
        fresh(
            result.0,
            pa0,
            output_fd,
            num_counters,
            false,
            DEFAULT_PERIOD_USECS,
            result.0.signo,
            false,
        ),
        result.1@ == untimed_start(pa0),
{
    untimed(pa0, output_fd, num_counters, profiling_signal())
}

/// The steps of one sample in the middle of a measurement: pause the
/// counters, read and emit them, call the user's function if there is one,
/// arm the timer for the next tick, and let the counters run again.
pub open spec fn sample_plan(handler: AlarmHandler) -> Seq<Step> {
    let head = seq![
        Step::StopCounters(handler.pa0),
        Step::ReadAndEmit { counters: handler.pa0, fd: handler.output_fd },
    ];
    let tail = seq![
        Step::ArmTimer(timer_request(handler.usecs)),
        Step::StartCounters(handler.pa0),
    ];
    if handler.func {
        head + seq![Step::InvokeCallback] + tail
    } else {
        head + tail
    }
}

/// The plan of the tick handler, entered for the signal `signo`.
///
/// A signal that is not the timer's ends the process. A tick that may not
/// sample touches no counter: it has nothing to do but to acknowledge.
/// Every other tick takes one sample.
pub open spec fn tick_plan(handler: AlarmHandler, signo: i32) -> Seq<Step> {
    if signo != handler.signo {
        seq![Step::Abort(Fatal::NotATick { signo })]
    } else if !handler.allowed {
        Seq::<Step>::empty()
    } else {
        sample_plan(handler)
    }
}

/// The controller after its handler was entered for the signal `signo`: a
/// tick that may not sample sets `finalized`, and nothing else ever changes.
pub open spec fn after_tick(handler: AlarmHandler, signo: i32) -> AlarmHandler {
    if signo == handler.signo && !handler.allowed {
        AlarmHandler { finalized: true, ..handler }
    } else {
        handler
    }
}

/// Decides what the tick handler does for the signal `signo`. Whether the
/// tick may sample is looked at before anything else is done.
pub fn signal_handler(handler: &mut AlarmHandler, signo: i32) -> (plan: Plan)
    ensures
        plan@ == tick_plan(*old(handler), signo),
        *final(handler) == after_tick(*old(handler), signo),
{
    let mut plan = Plan::new();
    if signo != handler.signo {
        plan.push(Step::Abort(Fatal::NotATick { signo }));
        return plan;
    }
    if !handler.allowed {
        handler.finalized = true;
        return plan;
    }
    plan.push(Step::StopCounters(handler.pa0));
    plan.push(Step::ReadAndEmit { counters: handler.pa0, fd: handler.output_fd });
    if handler.func {
        plan.push(Step::InvokeCallback);
    }
    plan.push(Step::ArmTimer(call_setitimer(handler.usecs)));
    plan.push(Step::StartCounters(handler.pa0));
    plan
}

/// Decides how the tick handler begins for the signal `signo`: with the
/// first step of its plan, or with `None` where the plan is empty. The
/// counters can so be paused before the rest of the plan is made. The
/// controller stays as it is: the tick is acknowledged by
/// [`signal_handler`].
pub fn first_step(handler: &AlarmHandler, signo: i32) -> (step: Option<Step>)
    ensures
        step == (if tick_plan(*handler, signo).len() > 0 {
            Some(tick_plan(*handler, signo)[0])
        } else {
            None
        }),
{
    if signo != handler.signo {
        Some(Step::Abort(Fatal::NotATick { signo }))
    } else if !handler.allowed {
        None
    } else {
        Some(Step::StopCounters(handler.pa0))
    }
}

/// The steps that end a measurement: wait until the tick handler has set
/// `finalized`, then pause the counters, read and emit them one last time,
/// and set them back to zero.
pub open spec fn final_plan(handler: AlarmHandler) -> Seq<Step> {
    seq![
        Step::AwaitAcknowledgement,
        Step::StopCounters(handler.pa0),
        Step::ReadAndEmit { counters: handler.pa0, fd: handler.output_fd },
        Step::ResetCounters(handler.pa0),
    ]
}

/// The controller after the end of the measurement was asked for: ticks may
/// sample no more.
pub open spec fn after_finalize(handler: AlarmHandler) -> AlarmHandler {
    AlarmHandler { allowed: false, ..handler }
}

/// Asks for the end of the measurement. Ticks may not sample from now on;
/// the plan says how the caller waits for the handler's answer and takes the
/// last sample.
pub fn finalize(handler: &mut AlarmHandler) -> (plan: Plan)
    ensures
        *final(handler) == after_finalize(*old(handler)),
        plan@ == final_plan(*old(handler)),
{
    handler.allowed = false;
    let mut plan = Plan::new();
    plan.push(Step::AwaitAcknowledgement);
    plan.push(Step::StopCounters(handler.pa0));
    plan.push(Step::ReadAndEmit { counters: handler.pa0, fd: handler.output_fd });
    plan.push(Step::ResetCounters(handler.pa0));
    plan
}

/// The controller after `n` ticks of its timer.
pub open spec fn after_ticks(handler: AlarmHandler, n: nat) -> AlarmHandler
    decreases n,
{
    if n == 0 {
        handler
    } else {
        after_tick(after_ticks(handler, (n - 1) as nat), handler.signo)
    }
}

/// The number of samples that the steps of `plan` read and emit.
pub open spec fn samples(plan: Seq<Step>) -> nat
    decreases plan.len(),
{
    if plan.len() == 0 {
        0
    } else {
        samples(plan.drop_last()) + if plan.last() is ReadAndEmit {
            1nat
        } else {
            0nat
        }
    }
}

/// Whether a step of `plan` sets the counters running.
pub open spec fn starts_counters(plan: Seq<Step>) -> bool {
    exists|i: int| 0 <= i < plan.len() && #[trigger] plan[i] is StartCounters
}

/// Whether a step of `plan` installs a handler or arms the timer.
pub open spec fn sets_timer_up(plan: Seq<Step>) -> bool {
    exists|i: int|
        0 <= i < plan.len() && (#[trigger] plan[i] is InstallTickHandler || plan[i] is ArmTimer)
}

proof fn lemma_samples_of_final_plan(handler: AlarmHandler)
    ensures
        samples(final_plan(handler)) == 1,
{
    let plan = final_plan(handler);
    let three = plan.drop_last();
    let two = three.drop_last();
    let one = two.drop_last();
    assert(one.drop_last().len() == 0);
    reveal_with_fuel(samples, 5);
}

proof fn lemma_samples_of_sample_plan(handler: AlarmHandler)
    ensures
        samples(sample_plan(handler)) == 1,
{
    let plan = sample_plan(handler);
    let a = plan.drop_last();
    let b = a.drop_last();
    let c = b.drop_last();
    let d = c.drop_last();
    if handler.func {
        assert(d.drop_last().len() == 0);
    } else {
        assert(d.len() == 0);
    }
    reveal_with_fuel(samples, 6);
}

/// Every tick of an armed controller takes exactly one sample and arms the
/// timer again, with the period that the controller was set up with, just
/// before it lets the counters run. Where the period is not negative, the
/// seconds and microseconds of that request add up to it, whether it is
/// shorter than a second or longer. A tick leaves an armed controller as it
/// was, so this holds of every later tick as well.
pub proof fn every_tick_rearms_the_period(handler: AlarmHandler, n: nat)
    requires
        handler.allowed,
    ensures
        after_ticks(handler, n) == handler,
        ({
            let plan = tick_plan(after_ticks(handler, n), handler.signo);
            &&& samples(plan) == 1
            &&& plan.first() == Step::StopCounters(handler.pa0)
            &&& plan[plan.len() - 2] == Step::ArmTimer(timer_request(handler.usecs))
            &&& plan.last() == Step::StartCounters(handler.pa0)
        }),
        handler.usecs >= 0 ==> timer_request(handler.usecs).secs * 1_000_000 + timer_request(
            handler.usecs,
        ).usecs == handler.usecs && 0 <= timer_request(handler.usecs).usecs < 1_000_000,
    decreases n,
{
    if n > 0 {
        every_tick_rearms_the_period(handler, (n - 1) as nat);
    }
    lemma_samples_of_sample_plan(handler);
}

/// Taking a sample is kept out of the measurement: a tick that samples
/// pauses the counters before anything else, reads them while they are
/// paused, and lets them run again as its last step.
pub proof fn sampling_is_not_measured(handler: AlarmHandler)
    requires
        handler.allowed,
    ensures
        brackets_counters(tick_plan(handler, handler.signo), handler.pa0),
        tick_plan(handler, handler.signo)[1] == (Step::ReadAndEmit {
            counters: handler.pa0,
            fd: handler.output_fd,
        }),
{
}

/// Once the end of a measurement has been asked for, no tick reads the
/// counters or touches them in any way: the plan of every later tick is
/// empty. The first such tick sets `finalized`, which then stays, and
/// nothing else of the controller changes.
pub proof fn no_sample_after_finalize(handler: AlarmHandler, n: nat)
    ensures
        ({
            let asked = after_finalize(handler);
            let later = after_ticks(asked, n);
            &&& tick_plan(later, handler.signo) == Seq::<Step>::empty()
            &&& later == (AlarmHandler { finalized: asked.finalized || n >= 1, ..asked })
        }),
    decreases n,
{
    if n > 0 {
        no_sample_after_finalize(handler, (n - 1) as nat);
    }
}

/// The last sample is the only one that the end of a measurement takes, it
/// is taken while the counters are paused, and nothing sets the counters
/// running afterwards: neither a step of the closing plan nor a later tick.
pub proof fn counters_rest_after_finalize(handler: AlarmHandler, n: nat)
    ensures
        samples(final_plan(handler)) == 1,
        final_plan(handler)[1] == Step::StopCounters(handler.pa0),
        final_plan(handler)[2] is ReadAndEmit,
        !starts_counters(final_plan(handler)),
        !starts_counters(tick_plan(after_ticks(after_finalize(handler), n), handler.signo)),
{
    lemma_samples_of_final_plan(handler);
    no_sample_after_finalize(handler, n);
}

/// The handshake that ends a measurement. Asking for the end takes an armed
/// controller to `Draining` and leaves any other where it stands. The next
/// tick takes it to `Finalized`, which is what the closing plan waits for.
/// The two flags never come to stand together.
pub proof fn finalize_handshake(handler: AlarmHandler)
    requires
        handler.wf(),
    ensures
        after_finalize(handler).wf(),
        after_finalize(handler).lifecycle() == (if handler.lifecycle() == Lifecycle::Armed {
            Lifecycle::Draining
        } else {
            handler.lifecycle()
        }),
        after_tick(after_finalize(handler), handler.signo).wf(),
        after_tick(after_finalize(handler), handler.signo).lifecycle() == Lifecycle::Finalized,
        final_plan(handler).first() == Step::AwaitAcknowledgement,
{
}

/// A tick never breaks the rule that the two flags do not stand together,
/// and never changes the buffer.
pub proof fn tick_keeps_the_controller_sound(handler: AlarmHandler, signo: i32)
    requires
        handler.wf(),
    ensures
        after_tick(handler, signo).wf(),
        after_tick(handler, signo).buffer == handler.buffer,
        after_tick(handler, signo).usecs == handler.usecs,
{
}

/// A measurement without a timer takes no sample before its end and exactly
/// one at its end. Setting it up installs no handler and arms no timer, and
/// takes no sample. Should a tick come all the same, it takes none either.
/// The closing plan takes one, and its wait is over before it starts,
/// because the controller is `Finalized` from the beginning.
pub proof fn untimed_samples_once(handler: AlarmHandler, signo: i32, n: nat)
    requires
        !handler.allowed,
        handler.finalized,
    ensures
        !sets_timer_up(untimed_start(handler.pa0)),
        samples(untimed_start(handler.pa0)) == 0,
        samples(tick_plan(after_ticks(handler, n), signo)) == 0,
        after_ticks(handler, n) == handler,
        samples(final_plan(handler)) == 1,
        after_finalize(handler) == handler,
        handler.lifecycle() == Lifecycle::Finalized,
    decreases n,
{
    if n > 0 {
        untimed_samples_once(handler, signo, (n - 1) as nat);
    }
    lemma_samples_of_final_plan(handler);
    let start = untimed_start(handler.pa0);
    assert(start.drop_last().len() == 0);
    let tick = tick_plan(handler, signo);
    if tick.len() > 0 {
        assert(tick.drop_last().len() == 0);
    }
    reveal_with_fuel(samples, 2);
}

} // verus!
