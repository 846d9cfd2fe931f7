//! The batch executor: it takes the commands of one batch in order, works
//! them against the execution unit, and writes one result for each.
//!
//! A [`BatchRun`] is advanced by [`BatchRun::step_at`]. Each step handles
//! one command and answers with a [`Request`]: what the driver is to do
//! before it calls again. Only starting the runtime needs an answer, which
//! the driver gives to [`BatchRun::started_at`].

use vstd::prelude::*;
use crate::batch::well_indexed;
use crate::clock::now_micros;
use crate::counter::with_input;
use crate::error::{ErrorKind, ErrorView, ExeUnitError};
use crate::process::{stop_gives, ProcessState, StartRefusal};
use crate::script::{
    results_view, script_view, CommandResult, CommandView, ExeScriptCommand,
    ExeScriptCommandResult, ResultView,
};
use crate::state::{ActivityState, ActivityStateView, State, StatePair};
use crate::text::{copy_texts, debug_quoted, debug_text, joined, owned, same_text, texts};
use crate::unit::{ExeUnit, UnitView};

verus! {

/// Where a batch run stands.
#[derive(Clone, Copy, Debug, PartialEq, Eq, Hash, Structural)]
pub enum Phase {
    /// Ready for the next command.
    Idle,
    /// A `Start` command waits for the runtime to be started.
    Starting,
    /// The batch is over, by success or by failure.
    Finished,
}

/// What the driver is to do before it calls the run again.
pub enum Request<H> {
    /// Nothing.
    Next,
    /// Start the runtime with `args` and hand the outcome to
    /// [`BatchRun::started_at`].
    StartRuntime { args: Vec<String> },
    /// Stop `runtime` if there is one, without failing if that fails, and
    /// shut down the transfer service.
    Shutdown { runtime: Option<H> },
    /// Nothing more: the batch is over. `outcome` is the batch identifier,
    /// or the error at which the batch stopped.
    Finished { outcome: Result<String, ExeUnitError> },
}

/// The mathematical value of a [`Request`].
pub enum RequestView<H> {
    Next,
    StartRuntime { args: Seq<Seq<char>> },
    Shutdown { runtime: Option<H> },
    Finished { outcome: Result<Seq<char>, ErrorView> },
}

impl<H> View for Request<H> {
    type V = RequestView<H>;

    open spec fn view(&self) -> RequestView<H> {
        match *self {
            Request::Next => RequestView::Next,
            Request::StartRuntime { args } => RequestView::StartRuntime { args: texts(args@) },
            Request::Shutdown { runtime } => RequestView::Shutdown { runtime },
            Request::Finished { outcome } => RequestView::Finished {
                outcome: match outcome {
                    Ok(id) => Ok(id@),
                    Err(error) => Err(error@),
                },
            },
        }
    }
}

/// The execution of one batch.
pub struct BatchRun {
    pub batch_id: String,
    pub script: Vec<ExeScriptCommand>,
    /// Number of commands that went through.
    pub cursor: usize,
    pub phase: Phase,
    /// The results written so far.
    pub results: Vec<ExeScriptCommandResult>,
    /// The error at which the batch stopped, if it did.
    pub failure: Option<ExeUnitError>,
}

/// The mathematical value of a [`BatchRun`].
pub struct RunView {
    pub batch_id: Seq<char>,
    pub script: Seq<CommandView>,
    pub cursor: nat,
    pub phase: Phase,
    pub results: Seq<ResultView>,
    pub failure: Option<ErrorView>,
}

impl View for BatchRun {
    type V = RunView;

    open spec fn view(&self) -> RunView {
        RunView {
            batch_id: self.batch_id@,
            script: script_view(self.script@),
            cursor: self.cursor as nat,
            phase: self.phase,
            results: results_view(self.results@),
            failure: match self.failure {
                Some(error) => Some(error@),
                None => None,
            },
        }
    }
}

/// The result entry of a command that went through. A `Run` command
/// leaves empty output and the message `Ok`; the others leave neither.
pub open spec fn success_entry(index: nat, command: CommandView, now: i64) -> ResultView {
    ResultView {
        index: index as u32,
        result: CommandResult::Success,
        stdout: if command is Run { Some(""@) } else { None },
        stderr: if command is Run { Some(""@) } else { None },
        message: if command is Run { Some("Ok"@) } else { None },
        is_batch_finished: command is Run || command is Start,
        event_date: now,
    }
}

/// The result entry that ends a failed batch: it carries the error's text.
pub open spec fn failure_entry(index: nat, error: ErrorView, now: i64) -> ResultView {
    ResultView {
        index: index as u32,
        result: CommandResult::Failure,
        stdout: None,
        stderr: None,
        message: Some(error.text()),
        is_batch_finished: true,
        event_date: now,
    }
}

/// The error for an entry point that the runtime does not know.
pub open spec fn unknown_entry_point(entry_point: Seq<char>) -> ErrorView {
    ErrorView {
        kind: ErrorKind::UnsupportedCommand,
        detail: "invalid command for cruncher runtime: "@ + debug_text(entry_point),
    }
}

/// The error for a command that the runtime has no handling for.
pub open spec fn unknown_command(name: Seq<char>) -> ErrorView {
    ErrorView {
        kind: ErrorKind::UnsupportedCommand,
        detail: "invalid command for ai runtime: "@ + name,
    }
}

/// The error for a start that was asked for while no process can be
/// started.
pub open spec fn not_deployed() -> ErrorView {
    ErrorView { kind: ErrorKind::StartFailure, detail: "runtime is not deployed"@ }
}

/// The error for a start that was asked for after the activity ended.
pub open spec fn already_terminated() -> ErrorView {
    ErrorView { kind: ErrorKind::StartFailure, detail: "activity is terminated"@ }
}

impl RunView {
    /// Whether the run is what the executor can have made it.
    ///
    /// While the batch has not failed there is one result per command that
    /// went through, all successes. A failed batch has one more: the
    /// failure entry, which carries the error's text and ends the batch.
    /// Every entry's index is its position.
    pub open spec fn wf(self) -> bool {
        &&& self.script.len() <= u32::MAX
        &&& self.cursor <= self.script.len()
        &&& well_indexed(self.results)
        &&& forall|i: int|
            0 <= i < self.cursor && i < self.results.len() ==> (#[trigger] self.results[i]).result
                == CommandResult::Success
        &&& match self.failure {
            None => self.results.len() == self.cursor,
            Some(error) => {
                &&& self.phase == Phase::Finished
                &&& self.cursor < self.script.len()
                &&& self.results.len() == self.cursor + 1
                &&& self.results.last().result == CommandResult::Failure
                &&& self.results.last().is_batch_finished
                &&& self.results.last().message == Some(error.text())
            },
        }
        &&& self.phase == Phase::Starting ==> self.cursor < self.script.len()
            && self.script[self.cursor as int] is Start
    }

    /// The run after the command at the cursor went through at `now`.
    pub open spec fn completed(self, now: i64) -> RunView {
        RunView {
            cursor: self.cursor + 1,
            phase: Phase::Idle,
            results: self.results.push(
                success_entry(self.results.len(), self.script[self.cursor as int], now),
            ),
            ..self
        }
    }

    /// The run after the batch failed with `error` at `now`.
    pub open spec fn failed(self, error: ErrorView, now: i64) -> RunView {
        RunView {
            phase: Phase::Finished,
            results: self.results.push(failure_entry(self.results.len(), error, now)),
            failure: Some(error),
            ..self
        }
    }

    /// How the batch ended: with its identifier, or with the error at
    /// which it stopped.
    pub open spec fn outcome(self) -> Result<Seq<char>, ErrorView> {
        match self.failure {
            Some(error) => Err(error),
            None => Ok(self.batch_id),
        }
    }
}

/// The outcome of starting the runtime, with the words of a failure as a
/// sequence of characters.
pub open spec fn launched_view<H>(launched: Result<H, String>) -> Result<H, Seq<char>> {
    match launched {
        Ok(handle) => Ok(handle),
        Err(message) => Err(message@),
    }
}

/// What a step leaves behind: the run, the unit, and the request.
pub struct StepView<H> {
    pub run: RunView,
    pub unit: UnitView<H>,
    pub request: RequestView<H>,
}

/// The step that makes the command at the cursor go through at `now`,
/// leaving `unit`, and asking `request` of the driver.
pub open spec fn pass<H>(run: RunView, unit: UnitView<H>, request: RequestView<H>, now: i64)
    -> StepView<H> {
    let run = run.completed(now);
    StepView { run, unit: unit.with_results(run.batch_id, run.results), request }
}

/// The step that fails the batch with `error` at `now`, leaving `unit`,
/// and asking `request` of the driver.
pub open spec fn fail<H>(
    run: RunView,
    unit: UnitView<H>,
    error: ErrorView,
    request: RequestView<H>,
    now: i64,
) -> StepView<H> {
    let run = run.failed(error, now);
    StepView { run, unit: unit.with_results(run.batch_id, run.results), request }
}

/// What [`BatchRun::step_at`] does.
///
/// - A finished run stays as it is and says how it ended.
/// - A run that waits for the runtime asks for it again.
/// - At the end of the script the run is finished, with success.
/// - `Deploy` does nothing and goes through.
/// - `Start` fails the batch when no process can be started or the
///   activity is terminated. Otherwise usage is reported, the activity is
///   reported as on its way to `Ready`, and the driver is asked to start
///   the runtime.
/// - `Run` of `set_hash` sets the hash input counter to the command's
///   input, if it has one, reports usage, and goes through. Any other
///   entry point fails the batch.
/// - `Terminate` stops supervising, moves the activity to `Terminated`,
///   goes through, and asks the driver to shut down what was running.
/// - Any other command fails the batch.
pub open spec fn step_spec<H>(run: RunView, unit: UnitView<H>, now: i64) -> StepView<H> {
    match run.phase {
        Phase::Finished => StepView {
            run,
            unit,
            request: RequestView::Finished { outcome: run.outcome() },
        },
        Phase::Starting => StepView {
            run,
            unit,
            request: if run.cursor < run.script.len() {
                match run.script[run.cursor as int] {
                    CommandView::Start { args } => RequestView::StartRuntime { args },
                    _ => RequestView::Next,
                }
            } else {
                RequestView::Next
            },
        },
        Phase::Idle => if run.cursor >= run.script.len() {
            StepView {
                run: RunView { phase: Phase::Finished, ..run },
                unit,
                request: RequestView::Finished { outcome: run.outcome() },
            }
        } else {
            match run.script[run.cursor as int] {
                CommandView::Deploy => pass(run, unit, RequestView::Next, now),
                CommandView::Start { args } => if !(unit.process is Deployed) {
                    fail(run, unit, not_deployed(), RequestView::Next, now)
                } else if unit.state.state.0 == State::Terminated {
                    fail(run, unit, already_terminated(), RequestView::Next, now)
                } else {
                    StepView {
                        run: RunView { phase: Phase::Starting, ..run },
                        unit: unit.with_usage(now).with_state(
                            ActivityStateView::plain(StatePair(unit.state.state.0, Some(State::Ready))),
                        ),
                        request: RequestView::StartRuntime { args },
                    }
                },
                CommandView::Run { entry_point, args, input } => if entry_point == "set_hash"@ {
                    let told = match input {
                        Some(value) => UnitView {
                            counters: with_input(unit.counters, unit.hash_input as int, value),
                            ..unit
                        },
                        None => unit,
                    };
                    pass(run, told.with_usage(now), RequestView::Next, now)
                } else {
                    fail(run, unit, unknown_entry_point(entry_point), RequestView::Next, now)
                },
                CommandView::Terminate => pass(
                    run,
                    UnitView { process: ProcessState::Stopped, ..unit }.with_state(
                        ActivityStateView::plain(StatePair(State::Terminated, None)),
                    ),
                    RequestView::Shutdown { runtime: stop_gives(unit.process) },
                    now,
                ),
                CommandView::Other { name } => fail(
                    run,
                    unit,
                    unknown_command(name),
                    RequestView::Next,
                    now,
                ),
            }
        },
    }
}

/// What [`BatchRun::started_at`] does with the outcome of starting the
/// runtime.
///
/// - A run that did not ask for the runtime changes nothing; a process
///   that was started all the same is handed back to be shut down.
/// - A started process is taken by the supervisor, the activity is moved
///   to `Ready`, and the `Start` command goes through.
/// - A failed start fails the batch with the runtime's words, and the
///   activity is reported as no longer on its way.
/// - When the supervisor can no longer take a process, the batch fails and
///   a started process is handed back to be shut down.
pub open spec fn started_spec<H>(
    run: RunView,
    unit: UnitView<H>,
    launched: Result<H, Seq<char>>,
    now: i64,
) -> StepView<H> {
    let settled = unit.with_state(ActivityStateView::plain(StatePair(unit.state.state.0, None)));
    if run.phase != Phase::Starting {
        StepView {
            run,
            unit,
            request: match launched {
                Ok(handle) => RequestView::Shutdown { runtime: Some(handle) },
                Err(_) => RequestView::Next,
            },
        }
    } else {
        match launched {
            Ok(handle) => if unit.process is Deployed {
                pass(
                    run,
                    UnitView { process: ProcessState::Working { handle }, ..unit }.with_state(
                        ActivityStateView::plain(StatePair(State::Ready, None)),
                    ),
                    RequestView::Next,
                    now,
                )
            } else {
                fail(
                    run,
                    settled,
                    not_deployed(),
                    RequestView::Shutdown { runtime: Some(handle) },
                    now,
                )
            },
            Err(message) => fail(
                run,
                settled,
                ErrorView { kind: ErrorKind::StartFailure, detail: message },
                RequestView::Next,
                now,
            ),
        }
    }
}

/// The result of a command that went through. See [`success_entry`].
fn success_result(index: u32, command: &ExeScriptCommand, now: i64) -> (r: ExeScriptCommandResult)
    ensures
        r@ == success_entry(index as nat, command@, now),
{
    match command {
        ExeScriptCommand::Run { .. } => ExeScriptCommandResult {
            index,
            result: CommandResult::Success,
            stdout: Some(owned("")),
            stderr: Some(owned("")),
            message: Some(owned("Ok")),
            is_batch_finished: true,
            event_date: now,
        },
        ExeScriptCommand::Start { .. } => ExeScriptCommandResult {
            index,
            result: CommandResult::Success,
            stdout: None,
            stderr: None,
            message: None,
            is_batch_finished: true,
            event_date: now,
        },
        _ => ExeScriptCommandResult {
            index,
            result: CommandResult::Success,
            stdout: None,
            stderr: None,
            message: None,
            is_batch_finished: false,
            event_date: now,
        },
    }
}

impl BatchRun {
    /// A run of `script` under `batch_id`, before its first command.
    pub fn new(batch_id: String, script: Vec<ExeScriptCommand>) -> (r: BatchRun)
        requires
            script@.len() <= u32::MAX,
        ensures
            r@ == (RunView {
                batch_id: batch_id@,
                script: script_view(script@),
                cursor: 0,
                phase: Phase::Idle,
                results: Seq::empty(),
                failure: None,
            }),
            r@.wf(),
    {
        let r = BatchRun {
            batch_id,
            script,
            cursor: 0,
            phase: Phase::Idle,
            results: Vec::new(),
            failure: None,
        };
        assert(r@.results =~= Seq::empty());
        r
    }

    /// Whether the batch is over.
    pub fn is_finished(&self) -> (r: bool)
        ensures
            r == (self@.phase == Phase::Finished),
    {
        match self.phase {
            Phase::Finished => true,
            _ => false,
        }
    }

    /// Lets the command at the cursor go through: writes its result and
    /// moves on.
    fn complete<H>(&mut self, unit: &mut ExeUnit<H>, now: i64)
        requires
            old(self)@.wf(),
            old(self).failure is None,
            old(self).cursor < old(self).script@.len(),
        ensures
            final(self)@ == old(self)@.completed(now),
            final(self)@.wf(),
            final(unit)@ == old(unit)@.with_results(final(self)@.batch_id, final(self)@.results),
            old(unit).batches.wf() ==> final(unit).batches.wf(),
    {
        let index = self.results.len() as u32;
        let entry = success_result(index, &self.script[self.cursor], now);
        self.results.push(entry);
        self.cursor = self.cursor + 1;
        self.phase = Phase::Idle;
        assert(results_view(self.results@) =~= results_view(old(self).results@).push(entry@));
        unit.batches.publish(self.batch_id.as_str(), &self.results);
    }

    /// Fails the batch with `error`: writes the failure entry and ends the
    /// run.
    fn fail<H>(&mut self, unit: &mut ExeUnit<H>, error: ExeUnitError, now: i64)
        requires
            old(self)@.wf(),
            old(self).failure is None,
            old(self).cursor < old(self).script@.len(),
        ensures
            final(self)@ == old(self)@.failed(error@, now),
            final(self)@.wf(),
            final(unit)@ == old(unit)@.with_results(final(self)@.batch_id, final(self)@.results),
            old(unit).batches.wf() ==> final(unit).batches.wf(),
    {
        let index = self.results.len() as u32;
        let entry = ExeScriptCommandResult {
            index,
            result: CommandResult::Failure,
            stdout: None,
            stderr: None,
            message: Some(error.text()),
            is_batch_finished: true,
            event_date: now,
        };
        self.results.push(entry);
        self.phase = Phase::Finished;
        self.failure = Some(error);
        assert(results_view(self.results@) =~= results_view(old(self).results@).push(entry@));
        unit.batches.publish(self.batch_id.as_str(), &self.results);
    }

    /// How the batch ended. See [`RunView::outcome`].
    fn outcome(&self) -> (r: Result<String, ExeUnitError>)
        ensures
            match r {
                Ok(id) => self@.outcome() == Ok::<Seq<char>, ErrorView>(id@),
                Err(error) => self@.outcome() == Err::<Seq<char>, ErrorView>(error@),
            },
    {
        match &self.failure {
            Some(error) => Err(ExeUnitError::new(error.kind, error.detail.clone())),
            None => Ok(self.batch_id.clone()),
        }
    }

    /// Handles the command at the cursor, at the time `now`. What is done
    /// is stated by [`step_spec`].
    pub fn step_at<H>(&mut self, unit: &mut ExeUnit<H>, now: i64) -> (r: Request<H>)
        requires
            old(self)@.wf(),
        ensures
            (StepView { run: final(self)@, unit: final(unit)@, request: r@ }) == step_spec(
                old(self)@,
                old(unit)@,
                now,
            ),
            final(self)@.wf(),
            old(unit).batches.wf() ==> final(unit).batches.wf(),
    {
        match self.phase {
            Phase::Finished => {
                return Request::Finished { outcome: self.outcome() };
            },
            Phase::Starting => {
                if self.cursor < self.script.len() {
                    match &self.script[self.cursor] {
                        ExeScriptCommand::Start { args } => {
                            return Request::StartRuntime { args: copy_texts(args) };
                        },
                        _ => {
                            return Request::Next;
                        },
                    }
                }
                return Request::Next;
            },
            Phase::Idle => {},
        }
        if self.cursor >= self.script.len() {
            let outcome = self.outcome();
            self.phase = Phase::Finished;
            return Request::Finished { outcome };
        }
        let command = self.script[self.cursor].duplicate();
        match command {
            ExeScriptCommand::Deploy => {
                self.complete(unit, now);
                Request::Next
            },
            ExeScriptCommand::Start { args } => {
                if !unit.supervisor.is_deployed() {
                    let error = ExeUnitError::new(
                        ErrorKind::StartFailure,
                        owned("runtime is not deployed"),
                    );
                    self.fail(unit, error, now);
                    return Request::Next;
                }
                if unit.state.state.0.position() == 3 {
                    let error = ExeUnitError::new(
                        ErrorKind::StartFailure,
                        owned("activity is terminated"),
                    );
                    self.fail(unit, error, now);
                    return Request::Next;
                }
                let _ = unit.report_usage_at(now);
                let pending = unit.state.state.to_pending(State::Ready);
                let _ = unit.set_state(ActivityState::from_pair(pending));
                self.phase = Phase::Starting;
                Request::StartRuntime { args }
            },
            ExeScriptCommand::Run { entry_point, args, input } => {
                if same_text(&entry_point, "set_hash") {
                    match input {
                        Some(value) => {
                            let _ = unit.counters.set_input(unit.hash_input, value);
                        },
                        None => {},
                    }
                    let _ = unit.report_usage_at(now);
                    self.complete(unit, now);
                    Request::Next
                } else {
                    let quoted = debug_quoted(entry_point.as_str());
                    let error = ExeUnitError::new(
                        ErrorKind::UnsupportedCommand,
                        joined("invalid command for cruncher runtime: ", quoted.as_str()),
                    );
                    self.fail(unit, error, now);
                    Request::Next
                }
            },
            ExeScriptCommand::Terminate => {
                let runtime = unit.supervisor.stop();
                let _ = unit.set_state(
                    ActivityState::from_pair(StatePair::settled(State::Terminated)),
                );
                self.complete(unit, now);
                Request::Shutdown { runtime }
            },
            ExeScriptCommand::Other { name } => {
                let error = ExeUnitError::new(
                    ErrorKind::UnsupportedCommand,
                    joined("invalid command for ai runtime: ", name.as_str()),
                );
                self.fail(unit, error, now);
                Request::Next
            },
        }
    }

    /// Takes the outcome of starting the runtime, at the time `now`. What
    /// is done is stated by [`started_spec`].
    pub fn started_at<H>(&mut self, unit: &mut ExeUnit<H>, launched: Result<H, String>, now: i64)
        -> (r: Request<H>)
        requires
            old(self)@.wf(),
        ensures
            (StepView { run: final(self)@, unit: final(unit)@, request: r@ }) == started_spec(
                old(self)@,
                old(unit)@,
                launched_view(launched),
                now,
            ),
            final(self)@.wf(),
            old(unit).batches.wf() ==> final(unit).batches.wf(),
    {
        match self.phase {
            Phase::Starting => {},
            _ => {
                return match launched {
                    Ok(handle) => Request::Shutdown { runtime: Some(handle) },
                    Err(_) => Request::Next,
                };
            },
        }
        let settled = StatePair::settled(unit.state.state.0);
        match launched {
            Ok(handle) => match unit.supervisor.start(Ok(handle)) {
                Ok(_) => {
                    let _ = unit.set_state(
                        ActivityState::from_pair(StatePair::settled(State::Ready)),
                    );
                    self.complete(unit, now);
                    Request::Next
                },
                Err(StartRefusal::NotDeployed { handle }) => {
                    let _ = unit.set_state(ActivityState::from_pair(settled));
                    let error = ExeUnitError::new(
                        ErrorKind::StartFailure,
                        owned("runtime is not deployed"),
                    );
                    self.fail(unit, error, now);
                    Request::Shutdown { runtime: handle }
                },
                Err(StartRefusal::Failed { error }) => {
                    let _ = unit.set_state(ActivityState::from_pair(settled));
                    self.fail(unit, error, now);
                    Request::Next
                },
            },
            Err(message) => {
                let _ = unit.set_state(ActivityState::from_pair(settled));
                self.fail(unit, ExeUnitError::new(ErrorKind::StartFailure, message), now);
                Request::Next
            },
        }
    }

    /// Handles the command at the cursor now, by the system clock. See
    /// [`Self::step_at`].
    pub fn step<H>(&mut self, unit: &mut ExeUnit<H>) -> (r: Request<H>)
        requires
            old(self)@.wf(),
        ensures
            exists|now: i64|
                (StepView { run: final(self)@, unit: final(unit)@, request: r@ }) == step_spec(
                    old(self)@,
                    old(unit)@,
                    now,
                ),
            final(self)@.wf(),
            old(unit).batches.wf() ==> final(unit).batches.wf(),
    {
        let now = now_micros();
        let r = self.step_at(unit, now);
        assert((StepView { run: self@, unit: unit@, request: r@ }) == step_spec(
            old(self)@,
            old(unit)@,
            now,
        ));
        r
    }

    /// Takes the outcome of starting the runtime now, by the system clock.
    /// See [`Self::started_at`].
    pub fn started<H>(&mut self, unit: &mut ExeUnit<H>, launched: Result<H, String>) -> (r: Request<
        H,
    >)
        requires
            old(self)@.wf(),
        ensures
            exists|now: i64|
                (StepView { run: final(self)@, unit: final(unit)@, request: r@ }) == started_spec(
                    old(self)@,
                    old(unit)@,
                    launched_view(launched),
                    now,
                ),
            final(self)@.wf(),
            old(unit).batches.wf() ==> final(unit).batches.wf(),
    {
        let now = now_micros();
        let ghost outcome = launched_view(launched);
        let r = self.started_at(unit, launched, now);
        assert((StepView { run: self@, unit: unit@, request: r@ }) == started_spec(
            old(self)@,
            old(unit)@,
            outcome,
            now,
        ));
        r
    }
}

impl<H> ExeUnit<H> {
    /// Accepts a batch: makes `batch_id` known to the store, with no
    /// results yet, and gives the run that will execute `script`. An
    /// identifier that is submitted again starts over with no results.
    pub fn exec(&mut self, batch_id: String, script: Vec<ExeScriptCommand>) -> (r: BatchRun)
        requires
            script@.len() <= u32::MAX,
        ensures
            final(self)@ == old(self)@.with_results(batch_id@, Seq::empty()),
            old(self).batches.wf() ==> final(self).batches.wf(),
            r@ == (RunView {
                batch_id: batch_id@,
                script: script_view(script@),
                cursor: 0,
                phase: Phase::Idle,
                results: Seq::empty(),
                failure: None,
            }),
            r@.wf(),
    {
        self.batches.accept(batch_id.as_str());
        BatchRun::new(batch_id, script)
    }
}

/// Every result carries its position as its index, whichever commands
/// went through: the first is 0, the next 1, and so on without gaps.
pub proof fn lemma_results_are_indexed_by_position(run: RunView, n: int)
    requires
        run.wf(),
        0 <= n < run.results.len(),
    ensures
        run.results[n].index == n,
{
}

/// A batch that failed at command `k` has exactly `k` results of commands
/// that went through, then one failure entry that ends the batch and
/// carries the error's text. There is no result for any later command.
pub proof fn lemma_failed_batch_shape(run: RunView)
    requires
        run.wf(),
        run.failure is Some,
    ensures
        run.cursor < run.script.len(),
        run.results.len() == run.cursor + 1,
        forall|i: int| 0 <= i < run.cursor ==> (#[trigger] run.results[i]).result == CommandResult::Success,
        run.results[run.cursor as int].result == CommandResult::Failure,
        run.results[run.cursor as int].is_batch_finished,
        run.results[run.cursor as int].index == run.cursor,
        run.results[run.cursor as int].message == Some(run.failure->0.text()),
{
}

/// A batch that has not failed has one result per command that went
/// through, all of them successes.
pub proof fn lemma_running_batch_shape(run: RunView)
    requires
        run.wf(),
        run.failure is None,
    ensures
        run.results.len() == run.cursor,
        forall|i: int| 0 <= i < run.results.len() ==> (#[trigger] run.results[i]).result == CommandResult::Success,
{
}

/// Every step leaves the run as the executor can have made it, and what it
/// keeps in the store under the batch's identifier are the run's results.
/// A step writes at most one result, and never changes one that was
/// written. Commands are taken strictly in order: a step moves the cursor
/// on by one command or not at all, and a batch that has failed is over.
pub proof fn lemma_step_keeps_runs_well_formed<H>(run: RunView, unit: UnitView<H>, now: i64)
    requires
        run.wf(),
    ensures
        step_spec(run, unit, now).run.wf(),
        step_spec(run, unit, now).run.results.len() <= run.results.len() + 1,
        run.results.is_prefix_of(step_spec(run, unit, now).run.results),
        step_spec(run, unit, now).run.script == run.script,
        step_spec(run, unit, now).run.batch_id == run.batch_id,
        step_spec(run, unit, now).run.cursor == run.cursor || (step_spec(run, unit, now).run.cursor
            == run.cursor + 1 && step_spec(run, unit, now).run.failure is None),
        step_spec(run, unit, now).run.failure is Some ==> step_spec(run, unit, now).run.phase
            == Phase::Finished,
        step_spec(run, unit, now).run.results != run.results ==> step_spec(
            run,
            unit,
            now,
        ).unit.batches == unit.batches.insert(run.batch_id, step_spec(run, unit, now).run.results),
        step_spec(run, unit, now).run.results == run.results ==> step_spec(run, unit, now).unit.batches
            == unit.batches,
{
}

/// As [`lemma_step_keeps_runs_well_formed`], for the outcome of starting
/// the runtime.
pub proof fn lemma_started_keeps_runs_well_formed<H>(
    run: RunView,
    unit: UnitView<H>,
    launched: Result<H, Seq<char>>,
    now: i64,
)
    requires
        run.wf(),
    ensures
        started_spec(run, unit, launched, now).run.wf(),
        started_spec(run, unit, launched, now).run.results.len() <= run.results.len() + 1,
        run.results.is_prefix_of(started_spec(run, unit, launched, now).run.results),
{
}

/// A finished batch is over: further steps change neither the run nor the
/// unit, and answer with how the batch ended.
pub proof fn lemma_finished_batch_stays<H>(run: RunView, unit: UnitView<H>, now: i64)
    requires
        run.phase == Phase::Finished,
    ensures
        step_spec(run, unit, now).run == run,
        step_spec(run, unit, now).unit == unit,
        step_spec(run, unit, now).request == (RequestView::<H>::Finished { outcome: run.outcome() }),
{
}

/// A command that the runtime does not implement fails the batch and
/// touches nothing else: the activity's state, the process, the counters
/// and the outbox are as before, and only the batch's results, with the
/// failure entry at their end, are written to the store.
pub proof fn lemma_unsupported_command_changes_nothing<H>(
    run: RunView,
    unit: UnitView<H>,
    now: i64,
)
    requires
        run.wf(),
        run.phase == Phase::Idle,
        run.cursor < run.script.len(),
        run.script[run.cursor as int] is Other || (run.script[run.cursor as int]
            matches CommandView::Run { entry_point, .. } && entry_point != "set_hash"@),
    ensures
        step_spec(run, unit, now).run.failure is Some,
        step_spec(run, unit, now).run.failure->0.kind == ErrorKind::UnsupportedCommand,
        step_spec(run, unit, now).run.results.len() == run.cursor + 1,
        step_spec(run, unit, now).run.results.last().result == CommandResult::Failure,
        step_spec(run, unit, now).run.results.last().index == run.cursor,
        step_spec(run, unit, now).unit == unit.with_results(
            run.batch_id,
            step_spec(run, unit, now).run.results,
        ),
        step_spec(run, unit, now).unit.state == unit.state,
        step_spec(run, unit, now).unit.process == unit.process,
        step_spec(run, unit, now).unit.counters == unit.counters,
        step_spec(run, unit, now).unit.outbox == unit.outbox,
{
}

/// A batch that was accepted stays known: accepting another batch, a step
/// of any run and the outcome of any start leave every identifier in the
/// store that was there, and accepting a batch makes its identifier known
/// at once, with no results yet.
pub proof fn lemma_accepted_batches_stay_known<H>(
    run: RunView,
    unit: UnitView<H>,
    launched: Result<H, Seq<char>>,
    accepted: Seq<char>,
    known: Seq<char>,
    now: i64,
)
    requires
        unit.batches.contains_key(known),
    ensures
        unit.with_results(accepted, Seq::empty()).batches.contains_key(known),
        unit.with_results(accepted, Seq::empty()).batches.contains_key(accepted),
        unit.with_results(accepted, Seq::empty()).batches[accepted] == Seq::<ResultView>::empty(),
        step_spec(run, unit, now).unit.batches.contains_key(known),
        started_spec(run, unit, launched, now).unit.batches.contains_key(known),
        known != run.batch_id ==> step_spec(run, unit, now).unit.batches[known]
            == unit.batches[known],
        known != run.batch_id ==> started_spec(run, unit, launched, now).unit.batches[known]
            == unit.batches[known],
{
}

/// No batch takes the activity back: whatever a step or the outcome of a
/// start does, the rank of the activity's state does not fall, and a
/// terminated activity keeps its state and the words that explain it.
pub proof fn lemma_batches_never_take_the_activity_back<H>(
    run: RunView,
    unit: UnitView<H>,
    launched: Result<H, Seq<char>>,
    now: i64,
)
    ensures
        unit.state.state.0.rank() <= step_spec(run, unit, now).unit.state.state.0.rank(),
        unit.state.state.0.rank() <= started_spec(run, unit, launched, now).unit.state.state.0.rank(),
        unit.state.state.0 == State::Terminated ==> step_spec(run, unit, now).unit.state
            == unit.state && started_spec(run, unit, launched, now).unit.state == unit.state,
{
}

} // verus!
