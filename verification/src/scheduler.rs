//! The scheduler: when a cycle runs.
//!
//! One cycle runs when the process starts. After that the timer is armed only
//! when a cycle has finished, for one full period, so cycles never overlap
//! and a cycle that took long is not made up for. A tick that arrives while a
//! cycle is running is dropped, not queued. There is no last state.

use vstd::prelude::*;

verus! {

/// The period of the scheduler where none is configured, in minutes.
pub const DEFAULT_INTERVAL_MINUTES: u64 = 30;

/// What the scheduler is doing.
#[derive(Clone, Copy, PartialEq, Eq, Structural, Debug)]
pub enum Phase {
    /// Waiting for the start of the process or for the timer.
    Idle,
    /// A cycle is running.
    Running,
}

/// What the scheduler is told.
#[derive(Clone, Copy, PartialEq, Eq, Structural, Debug)]
pub enum Signal {
    /// The process has started.
    Started,
    /// The timer has fired.
    TimerFired,
    /// The cycle that was asked for is over.
    CycleFinished,
}

/// What the scheduler asks its caller to do.
#[derive(Clone, Copy, PartialEq, Eq, Structural, Debug)]
pub enum Order {
    /// Run one cycle and report when it is over.
    RunCycle,
    /// Let the timer fire once, this many seconds from now.
    ArmTimer { seconds: u64 },
    /// Nothing.
    Nothing,
}

/// The period in seconds that an interval in minutes stands for: positive,
/// and within the range of the seconds counter.
pub open spec fn period_of(interval_minutes: u64) -> Option<u64> {
    if 0 < interval_minutes && interval_minutes * 60 <= u64::MAX {
        Some((interval_minutes * 60) as u64)
    } else {
        None
    }
}

/// The phase that follows `phase` on `signal`, and what is asked for.
pub open spec fn schedule(phase: Phase, period_secs: u64, signal: Signal) -> (Phase, Order) {
    match (phase, signal) {
        (Phase::Idle, Signal::Started) => (Phase::Running, Order::RunCycle),
        (Phase::Idle, Signal::TimerFired) => (Phase::Running, Order::RunCycle),
        (Phase::Running, Signal::CycleFinished) => (
            Phase::Idle,
            Order::ArmTimer { seconds: period_secs },
        ),
        _ => (phase, Order::Nothing),
    }
}

/// The scheduler of the process.
pub struct Scheduler {
    period_secs: u64,
    phase: Phase,
}

impl Scheduler {
    #[verifier::type_invariant]
    spec fn well_formed(&self) -> bool {
        self.period_secs > 0
    }

    /// The period between the end of a cycle and the start of the next, in seconds.
    pub closed spec fn period(&self) -> u64 {
        self.period_secs
    }

    /// What the scheduler is doing.
    pub closed spec fn phase(&self) -> Phase {
        self.phase
    }

    /// An idle scheduler with a period of `interval_minutes`. There is none
    /// for a period of zero, nor for one whose seconds cannot be counted.
    pub fn new(interval_minutes: u64) -> (scheduler: Option<Scheduler>)
        ensures
            match scheduler {
                Some(s) => period_of(interval_minutes) == Some(s.period()) && s.phase()
                    == Phase::Idle,
                None => period_of(interval_minutes) is None,
            },
    {
        if interval_minutes == 0 {
            return None;
        }
        match interval_minutes.checked_mul(60) {
            Some(period_secs) => Some(Scheduler { period_secs, phase: Phase::Idle }),
            None => None,
        }
    }

    /// The period in seconds; never zero.
    pub fn period_secs(&self) -> (seconds: u64)
        ensures
            seconds == self.period(),
            seconds > 0,
    {
        proof {
            use_type_invariant(self);
        }
        self.period_secs
    }

    /// Whether a cycle is running.
    pub fn is_running(&self) -> (running: bool)
        ensures
            running == (self.phase() == Phase::Running),
    {
        match self.phase {
            Phase::Running => true,
            Phase::Idle => false,
        }
    }

    /// Takes in a signal and says what is to be done.
    pub fn step(&mut self, signal: Signal) -> (order: Order)
        ensures
            final(self).period() == old(self).period(),
            (final(self).phase(), order) == schedule(old(self).phase(), old(self).period(), signal),
    {
        proof {
            use_type_invariant(&*self);
        }
        match (self.phase, signal) {
            (Phase::Idle, Signal::Started) | (Phase::Idle, Signal::TimerFired) => {
                self.phase = Phase::Running;
                Order::RunCycle
            },
            (Phase::Running, Signal::CycleFinished) => {
                self.phase = Phase::Idle;
                Order::ArmTimer { seconds: self.period_secs }
            },
            _ => Order::Nothing,
        }
    }
}

/// One cycle at a time: a cycle is asked for only by an idle scheduler, which
/// is running from then on; a running scheduler asks for no cycle, whatever
/// it is told.
pub proof fn lemma_cycles_never_overlap(phase: Phase, period_secs: u64, signal: Signal)
    ensures
        schedule(phase, period_secs, signal).1 == Order::RunCycle ==> phase == Phase::Idle
            && schedule(phase, period_secs, signal).0 == Phase::Running,
        phase == Phase::Running ==> schedule(phase, period_secs, signal).1 != Order::RunCycle,
{
}

/// The timer is armed exactly when a running cycle is reported as finished,
/// and then for the full period: time that a cycle took is not made up for.
pub proof fn lemma_the_timer_counts_from_the_end_of_a_cycle(
    phase: Phase,
    period_secs: u64,
    signal: Signal,
)
    ensures
        schedule(phase, period_secs, signal).1 is ArmTimer <==> (phase == Phase::Running && signal
            == Signal::CycleFinished),
        schedule(phase, period_secs, signal).1 is ArmTimer ==> schedule(
            phase,
            period_secs,
            signal,
        ) == (Phase::Idle, Order::ArmTimer { seconds: period_secs }),
{
}

/// Every tick of the timer that finds the scheduler idle starts exactly one
/// cycle, and so does the start of the process; a tick that finds a cycle
/// running is dropped.
pub proof fn lemma_each_tick_starts_one_cycle(period_secs: u64)
    ensures
        schedule(Phase::Idle, period_secs, Signal::TimerFired) == (Phase::Running, Order::RunCycle),
        schedule(Phase::Idle, period_secs, Signal::Started) == (Phase::Running, Order::RunCycle),
        schedule(Phase::Running, period_secs, Signal::TimerFired) == (
            Phase::Running,
            Order::Nothing,
        ),
{
}

/// The scheduler has no last state: in either phase there is a signal that
/// takes it to the other.
pub proof fn lemma_the_scheduler_never_ends(phase: Phase, period_secs: u64)
    ensures
        exists|signal: Signal| (#[trigger] schedule(phase, period_secs, signal)).0 != phase,
{
    match phase {
        Phase::Idle => {
            assert(schedule(phase, period_secs, Signal::TimerFired).0 != phase);
        },
        Phase::Running => {
            assert(schedule(phase, period_secs, Signal::CycleFinished).0 != phase);
        },
    }
}

} // verus!
