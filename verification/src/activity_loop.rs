//! The reporting loop of an activity.
//!
//! The driver waits for whichever comes first: the end of the reporting
//! interval, the end of the supervised process, or a shutdown signal. It
//! tells the loop which it was, and the loop says whether to wait again or
//! to leave.

use vstd::prelude::*;
use crate::clock::now_micros;
use crate::counter::{sampling_error, sound_at};
use crate::error::{ErrorKind, ErrorView, ExeUnitError};
use crate::process::{stop_gives, ProcessState};
use crate::state::{ActivityState, ActivityStateView, State, StatePair};
use crate::unit::{ExeUnit, UnitView};

verus! {

/// What the driver's wait ended with.
#[derive(Debug)]
pub enum LoopEvent {
    /// The reporting interval is over, or the loop has just begun.
    Tick,
    /// The supervised process has ended by itself; `status` says how.
    ProcessExited { status: String },
    /// A shutdown signal has arrived.
    Signal,
}

/// The mathematical value of a [`LoopEvent`].
pub enum LoopEventView {
    Tick,
    ProcessExited { status: Seq<char> },
    Signal,
}

impl View for LoopEvent {
    type V = LoopEventView;

    open spec fn view(&self) -> LoopEventView {
        match *self {
            LoopEvent::Tick => LoopEventView::Tick,
            LoopEvent::ProcessExited { status } => LoopEventView::ProcessExited { status: status@ },
            LoopEvent::Signal => LoopEventView::Signal,
        }
    }
}

/// What the driver is to do next.
pub enum LoopStep<H> {
    /// Send what is in the outbox and wait for the next event.
    Wait,
    /// Send what is in the outbox and leave the loop. `runtime` is a
    /// process to stop first, if there is one. `cause` is the error that
    /// ended the loop; without one the loop ended because the activity was
    /// stopped or a signal arrived.
    Exit { runtime: Option<H>, cause: Option<ExeUnitError> },
}

/// The mathematical value of a [`LoopStep`].
pub enum LoopStepView<H> {
    Wait,
    Exit { runtime: Option<H>, cause: Option<ErrorView> },
}

impl<H> View for LoopStep<H> {
    type V = LoopStepView<H>;

    open spec fn view(&self) -> LoopStepView<H> {
        match *self {
            LoopStep::Wait => LoopStepView::Wait,
            LoopStep::Exit { runtime, cause } => LoopStepView::Exit {
                runtime,
                cause: match cause {
                    Some(error) => Some(error@),
                    None => None,
                },
            },
        }
    }
}

/// What a turn of the loop leaves behind: the unit and the step.
pub struct TurnView<H> {
    pub unit: UnitView<H>,
    pub step: LoopStepView<H>,
}

/// The terminated state, with the words that explain it.
pub open spec fn terminated(reason: Option<Seq<char>>, error_message: Option<Seq<char>>)
    -> ActivityStateView {
    ActivityStateView { state: StatePair(State::Terminated, None), reason, error_message }
}

impl ErrorKind {
    /// Whether an error of this kind ends the agent with a failure. Going
    /// over a usage limit does not: it ends the activity as agreed.
    pub open spec fn spec_is_fatal(self) -> bool {
        self == ErrorKind::CounterSampling || self == ErrorKind::ProcessExit
    }

    /// Whether an error of this kind ends the agent with a failure.
    #[verifier::when_used_as_spec(spec_is_fatal)]
    pub fn is_fatal(self) -> (r: bool)
        ensures
            r == self.spec_is_fatal(),
    {
        match self {
            ErrorKind::CounterSampling => true,
            ErrorKind::ProcessExit => true,
            _ => false,
        }
    }
}

/// What [`ActivityLoop::turn_at`] does.
///
/// - On a tick, when the supervisor is stopped, the activity is moved to
///   `Terminated` and the loop is left. Otherwise the counters are
///   sampled. Their values are reported and the loop goes on, unless a
///   counter is at fault: then the activity is moved to `Terminated` and
///   the loop is left with the error. A counter over its limit gives the
///   termination its reason; a counter that cannot be sampled gives it its
///   error message.
/// - When the process has ended while it was supervised, the supervisor is
///   stopped, the activity is moved to `Terminated` with the process's
///   status as reason and error message, and the loop is left with a
///   `ProcessExit` error. When no process was supervised the event is
///   stale and the loop goes on.
/// - On a signal the supervisor is stopped, the activity is moved to
///   `Terminated`, and the loop is left; a process that was running is
///   handed over to be stopped.
///
/// Moving to `Terminated` changes and reports nothing when the activity is
/// terminated already.
pub open spec fn turn_spec<H>(unit: UnitView<H>, event: LoopEventView, now: i64) -> TurnView<H> {
    match event {
        LoopEventView::Tick => if unit.process is Stopped {
            TurnView {
                unit: unit.with_state(terminated(None, None)),
                step: LoopStepView::Exit { runtime: None, cause: None },
            }
        } else if sound_at(unit.counters, now as int) {
            TurnView { unit: unit.with_usage(now), step: LoopStepView::Wait }
        } else {
            let error = sampling_error(unit.counters, now as int);
            TurnView {
                unit: unit.with_state(
                    if error.kind == ErrorKind::UsageLimitExceeded {
                        terminated(Some(error.text()), None)
                    } else {
                        terminated(None, Some(error.text()))
                    },
                ),
                step: LoopStepView::Exit { runtime: None, cause: Some(error) },
            }
        },
        LoopEventView::ProcessExited { status } => if unit.process is Working {
            let error = ErrorView { kind: ErrorKind::ProcessExit, detail: status };
            TurnView {
                unit: UnitView { process: ProcessState::Stopped, ..unit }.with_state(
                    terminated(Some(error.text()), Some(error.text())),
                ),
                step: LoopStepView::Exit {
                    runtime: stop_gives(unit.process),
                    cause: Some(error),
                },
            }
        } else {
            TurnView { unit, step: LoopStepView::Wait }
        },
        LoopEventView::Signal => TurnView {
            unit: UnitView { process: ProcessState::Stopped, ..unit }.with_state(
                terminated(None, None),
            ),
            step: LoopStepView::Exit { runtime: stop_gives(unit.process), cause: None },
        },
    }
}

/// The reporting loop.
#[derive(Clone, Copy, Debug)]
pub struct ActivityLoop {
    /// How long the driver waits between two usage reports, in
    /// milliseconds.
    pub interval_millis: u64,
}

impl ActivityLoop {
    /// A loop that reports once a second.
    pub fn new() -> (r: Self)
        ensures
            r.interval_millis == 1000,
    {
        ActivityLoop { interval_millis: 1000 }
    }

    /// Takes one event at the time `now`. What is done is stated by
    /// [`turn_spec`].
    pub fn turn_at<H>(&self, unit: &mut ExeUnit<H>, event: LoopEvent, now: i64) -> (r: LoopStep<H>)
        ensures
            (TurnView { unit: final(unit)@, step: r@ }) == turn_spec(old(unit)@, event@, now),
            final(unit).batches == old(unit).batches,
    {
        match event {
            LoopEvent::Tick => {
                if unit.supervisor.report().is_none() {
                    let _ = unit.set_state(
                        ActivityState::from_pair(StatePair::settled(State::Terminated)),
                    );
                    return LoopStep::Exit { runtime: None, cause: None };
                }
                match unit.report_usage_at(now) {
                    Ok(_) => LoopStep::Wait,
                    Err(error) => {
                        let text = error.text();
                        let next = match error.kind {
                            ErrorKind::UsageLimitExceeded => ActivityState {
                                state: StatePair::settled(State::Terminated),
                                reason: Some(text),
                                error_message: None,
                            },
                            _ => ActivityState {
                                state: StatePair::settled(State::Terminated),
                                reason: None,
                                error_message: Some(text),
                            },
                        };
                        let _ = unit.set_state(next);
                        LoopStep::Exit { runtime: None, cause: Some(error) }
                    },
                }
            },
            LoopEvent::ProcessExited { status } => {
                if !unit.supervisor.is_working() {
                    return LoopStep::Wait;
                }
                let runtime = unit.supervisor.exited();
                let error = ExeUnitError::new(ErrorKind::ProcessExit, status);
                let next = ActivityState {
                    state: StatePair::settled(State::Terminated),
                    reason: Some(error.text()),
                    error_message: Some(error.text()),
                };
                let _ = unit.set_state(next);
                LoopStep::Exit { runtime, cause: Some(error) }
            },
            LoopEvent::Signal => {
                let runtime = unit.supervisor.stop();
                let _ = unit.set_state(
                    ActivityState::from_pair(StatePair::settled(State::Terminated)),
                );
                LoopStep::Exit { runtime, cause: None }
            },
        }
    }

    /// Takes one event now, by the system clock. See [`Self::turn_at`].
    pub fn turn<H>(&self, unit: &mut ExeUnit<H>, event: LoopEvent) -> (r: LoopStep<H>)
        ensures
            exists|now: i64|
                (TurnView { unit: final(unit)@, step: r@ }) == turn_spec(old(unit)@, event@, now),
            final(unit).batches == old(unit).batches,
    {
        let now = now_micros();
        let ghost seen = event@;
        let r = self.turn_at(unit, event, now);
        assert((TurnView { unit: unit@, step: r@ }) == turn_spec(old(unit)@, seen, now));
        r
    }
}

/// The loop goes on exactly as long as the supervisor gives its liveness
/// token and the counters can be sampled within their limits: a tick is
/// answered with `Wait` if and only if the supervisor is not stopped and
/// no counter is at fault.
pub proof fn lemma_tick_waits_while_alive_and_sound<H>(unit: UnitView<H>, now: i64)
    ensures
        turn_spec(unit, LoopEventView::Tick, now).step is Wait <==> !(unit.process is Stopped)
            && sound_at(unit.counters, now as int),
{
}

/// Whatever ends the loop leaves the activity terminated, and a second
/// trigger changes nothing: once the activity is terminated, a turn leaves
/// its state and the outbox as they were.
pub proof fn lemma_loop_exit_terminates<H>(unit: UnitView<H>, event: LoopEventView, now: i64)
    ensures
        turn_spec(unit, event, now).step is Exit ==> turn_spec(unit, event, now).unit.state.state.0
            == State::Terminated,
        unit.state.state.0 == State::Terminated && turn_spec(unit, event, now).step is Exit ==> {
            &&& turn_spec(unit, event, now).unit.state == unit.state
            &&& turn_spec(unit, event, now).unit.outbox == unit.outbox
        },
{
}

/// The loop never takes the activity back: the rank of its state does not
/// fall in any turn, and a turn that goes on leaves the state as it was.
pub proof fn lemma_loop_never_takes_the_activity_back<H>(
    unit: UnitView<H>,
    event: LoopEventView,
    now: i64,
)
    ensures
        unit.state.state.0.rank() <= turn_spec(unit, event, now).unit.state.state.0.rank(),
        turn_spec(unit, event, now).step is Wait ==> turn_spec(unit, event, now).unit.state
            == unit.state,
        turn_spec(unit, event, now).unit.batches == unit.batches,
{
}

} // verus!
