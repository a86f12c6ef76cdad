//! The tick loop as a state machine. The scheduler decides what is done
//! next; whoever drives it does the waiting, the collecting and the
//! emitting, and reports back what happened.

use vstd::prelude::*;

verus! {

/// Milliseconds for which the source's counters settle after they were
/// first read, before the first tick.
pub const WARM_UP_MILLIS: u64 = 500;

/// Milliseconds from one tick to the next.
pub const TICK_INTERVAL_MILLIS: u64 = 1_000;

/// Where the loop stands.
#[derive(Clone, Copy, Debug, PartialEq, Eq, Structural)]
pub enum Phase {
    /// The source was read once and its counters are settling.
    WarmUp,
    /// The next tick is awaited.
    Wait,
    /// A snapshot is being collected and emitted.
    Tick,
}

/// What the driver reports back.
#[derive(Clone, Copy, Debug, PartialEq, Eq, Structural)]
pub enum Event {
    /// The source was read once and the time to settle has passed.
    Settled,
    /// The tick that was awaited has come.
    TimerFired,
    /// The snapshot was emitted.
    Emitted,
    /// The snapshot could not be encoded.
    EmissionFailed,
}

/// What the driver is to do next.
#[derive(Clone, Copy, Debug, PartialEq, Eq, Structural)]
pub enum Action {
    /// Read the source once, then let this many milliseconds pass.
    Prime { settle_millis: u64 },
    /// Await the next tick of the timer, which has this period. The timer
    /// starts when it is first awaited, and its first tick comes at once.
    AwaitTick { interval_millis: u64 },
    /// Read the source, collect a snapshot and emit it.
    Collect,
    /// Report the failure on the error stream, then await the next tick as
    /// under `AwaitTick`. The snapshot that failed is not emitted.
    ReportFailure { interval_millis: u64 },
}

/// The phase and the action that follow `event` in `phase`; `None` for an
/// event that the phase does not await.
pub open spec fn transition(phase: Phase, event: Event) -> Option<(Phase, Action)> {
    match (phase, event) {
        (Phase::WarmUp, Event::Settled) => Some(
            (Phase::Wait, Action::AwaitTick { interval_millis: TICK_INTERVAL_MILLIS }),
        ),
        (Phase::Wait, Event::TimerFired) => Some((Phase::Tick, Action::Collect)),
        (Phase::Tick, Event::Emitted) => Some(
            (Phase::Wait, Action::AwaitTick { interval_millis: TICK_INTERVAL_MILLIS }),
        ),
        (Phase::Tick, Event::EmissionFailed) => Some(
            (Phase::Wait, Action::ReportFailure { interval_millis: TICK_INTERVAL_MILLIS }),
        ),
        _ => None,
    }
}

/// The state of the tick loop.
#[derive(Debug)]
pub struct Scheduler {
    phase: Phase,
}

impl Scheduler {
    /// The phase, as a value of specifications.
    pub closed spec fn spec_phase(&self) -> Phase {
        self.phase
    }

    /// A scheduler at the start of its run, and the first thing to do: read
    /// the source once and let its counters settle.
    pub fn start() -> (begun: (Scheduler, Action))
        ensures
            begun.0.phase() == Phase::WarmUp,
            begun.1 == (Action::Prime { settle_millis: WARM_UP_MILLIS }),
    {
        (Scheduler { phase: Phase::WarmUp }, Action::Prime { settle_millis: WARM_UP_MILLIS })
    }

    /// Where the loop stands.
    #[verifier::when_used_as_spec(spec_phase)]
    pub fn phase(&self) -> (phase: Phase)
        ensures
            phase == self.spec_phase(),
    {
        self.phase
    }

    /// Takes `event` in and says what to do next. An event that the phase
    /// does not await changes nothing and gets no action.
    pub fn step(&mut self, event: Event) -> (action: Option<Action>)
        ensures
            match transition(old(self).phase(), event) {
                Some((next, todo)) => final(self).phase() == next && action == Some(todo),
                None => final(self).phase() == old(self).phase() && action is None,
            },
    {
        match (self.phase, event) {
            (Phase::WarmUp, Event::Settled) => {
                self.phase = Phase::Wait;
                Some(Action::AwaitTick { interval_millis: TICK_INTERVAL_MILLIS })
            },
            (Phase::Wait, Event::TimerFired) => {
                self.phase = Phase::Tick;
                Some(Action::Collect)
            },
            (Phase::Tick, Event::Emitted) => {
                self.phase = Phase::Wait;
                Some(Action::AwaitTick { interval_millis: TICK_INTERVAL_MILLIS })
            },
            (Phase::Tick, Event::EmissionFailed) => {
                self.phase = Phase::Wait;
                Some(Action::ReportFailure { interval_millis: TICK_INTERVAL_MILLIS })
            },
            _ => None,
        }
    }
}

/// A failed emission ends the tick as a successful one does: the loop goes
/// on to await the next tick.
pub proof fn lemma_failure_does_not_stop()
    ensures
        transition(Phase::Tick, Event::EmissionFailed) matches Some((next, _)) && next
            == Phase::Wait,
        transition(Phase::Tick, Event::Emitted) matches Some((next, _)) && next == Phase::Wait,
{
}

/// No phase is final: each awaits an event that moves the loop on, and
/// none but the first is ever left for the warm-up again.
pub proof fn lemma_runs_indefinitely(phase: Phase)
    ensures
        exists|event: Event| (#[trigger] transition(phase, event)) is Some,
        forall|event: Event|
            (#[trigger] transition(phase, event)) matches Some((next, _)) ==> next
                != Phase::WarmUp,
{
    match phase {
        Phase::WarmUp => {
            assert(transition(phase, Event::Settled) is Some);
        },
        Phase::Wait => {
            assert(transition(phase, Event::TimerFired) is Some);
        },
        Phase::Tick => {
            assert(transition(phase, Event::Emitted) is Some);
        },
    }
}

} // verus!
