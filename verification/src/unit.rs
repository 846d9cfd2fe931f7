//! The execution unit: the state that the batches and the reporting loop
//! of one activity share.
//!
//! The unit sends nothing itself. What is to be reported upstream is put
//! into its outbox; the driver takes the reports out and sends them, as
//! well as it can: a report that cannot be delivered is dropped.

use vstd::prelude::*;
use crate::batch::BatchStore;
use crate::counter::{sample, sampling_error, sound_at, CounterEntry, CounterRegistry};
use crate::error::{ErrorKind, ErrorView, ExeUnitError};
use crate::process::{ProcessState, ProcessSupervisor};
use crate::script::{results_view, ExeScriptCommandResult, ResultView};
use crate::state::{ActivityState, ActivityStateView, State, StatePair, Transition};

verus! {

/// Something to be sent upstream.
#[derive(Debug)]
pub enum Report {
    /// The activity's state has changed.
    State { state: ActivityState },
    /// The usage counters, sampled.
    Usage { usage: Vec<i64> },
}

/// The mathematical value of a [`Report`].
pub enum ReportView {
    State { state: ActivityStateView },
    Usage { usage: Seq<i64> },
}

impl View for Report {
    type V = ReportView;

    open spec fn view(&self) -> ReportView {
        match *self {
            Report::State { state } => ReportView::State { state: state@ },
            Report::Usage { usage } => ReportView::Usage { usage: usage@ },
        }
    }
}

/// The views of a list of reports, in order.
pub open spec fn reports_view(reports: Seq<Report>) -> Seq<ReportView> {
    Seq::new(reports.len(), |i: int| reports[i]@)
}

/// The state shared by everything that works on one activity, with
/// process handles of type `H`.
pub struct ExeUnit<H> {
    pub activity_id: String,
    pub state: ActivityState,
    pub supervisor: ProcessSupervisor<H>,
    pub counters: CounterRegistry,
    pub batches: BatchStore,
    /// Reports that wait to be sent.
    pub outbox: Vec<Report>,
    /// Position of the input counter that the `set_hash` command sets.
    pub hash_input: usize,
}

/// The mathematical value of an [`ExeUnit`].
pub struct UnitView<H> {
    pub activity_id: Seq<char>,
    pub state: ActivityStateView,
    pub process: ProcessState<H>,
    pub counters: Seq<CounterEntry>,
    pub batches: Map<Seq<char>, Seq<ResultView>>,
    pub outbox: Seq<ReportView>,
    pub hash_input: usize,
}

impl<H> View for ExeUnit<H> {
    type V = UnitView<H>;

    open spec fn view(&self) -> UnitView<H> {
        UnitView {
            activity_id: self.activity_id@,
            state: self.state@,
            process: self.supervisor.state,
            counters: self.counters.entries@,
            batches: self.batches.model(),
            outbox: reports_view(self.outbox@),
            hash_input: self.hash_input,
        }
    }
}

impl<H> UnitView<H> {
    /// The unit after a request to go to `next`: the state is advanced if
    /// that is permitted, and only then is the new state put into the
    /// outbox.
    pub open spec fn with_state(self, next: ActivityStateView) -> UnitView<H> {
        if self.state.permits(next.state) {
            UnitView {
                state: next,
                outbox: self.outbox.push(ReportView::State { state: next }),
                ..self
            }
        } else {
            self
        }
    }

    /// The unit after its counters were sampled at `now` for a usage
    /// report: the values are put into the outbox unless a counter is at
    /// fault.
    pub open spec fn with_usage(self, now: i64) -> UnitView<H> {
        if sound_at(self.counters, now as int) {
            UnitView {
                outbox: self.outbox.push(
                    ReportView::Usage { usage: sample(self.counters, now as int) },
                ),
                ..self
            }
        } else {
            self
        }
    }

    /// The unit with `results` kept under `batch_id`.
    pub open spec fn with_results(self, batch_id: Seq<char>, results: Seq<ResultView>) -> UnitView<
        H,
    > {
        UnitView { batches: self.batches.insert(batch_id, results), ..self }
    }
}

impl<H> ExeUnit<H> {
    /// A unit for the activity `activity_id` with the given counters. The
    /// activity is `Initialized`, which is the first thing to report; no
    /// process runs and no batch is known.
    pub fn new(activity_id: String, counters: CounterRegistry, hash_input: usize) -> (r: Self)
        ensures
            r@ == (UnitView::<H> {
                activity_id: activity_id@,
                state: ActivityStateView::plain(StatePair(State::Initialized, None)),
                process: ProcessState::Deployed,
                counters: counters.entries@,
                batches: Map::empty(),
                outbox: seq![
                    ReportView::State {
                        state: ActivityStateView::plain(StatePair(State::Initialized, None)),
                    },
                ],
                hash_input,
            }),
            r.batches.wf(),
    {
        let state = ActivityState::from_pair(StatePair::settled(State::Initialized));
        let mut outbox: Vec<Report> = Vec::new();
        outbox.push(Report::State { state: state.duplicate() });
        let r = ExeUnit {
            activity_id,
            state,
            supervisor: ProcessSupervisor::new(),
            counters,
            batches: BatchStore::new(),
            outbox,
            hash_input,
        };
        assert(r@.outbox =~= seq![
            ReportView::State {
                state: ActivityStateView::plain(StatePair(State::Initialized, None)),
            },
        ]);
        r
    }

    /// Asks the activity to go to `next`, and reports the new state if it
    /// does. This is the one way in which batches and the reporting loop
    /// change the state, so that whoever asks for `Terminated` first
    /// decides, and whoever asks again changes nothing.
    pub fn set_state(&mut self, next: ActivityState) -> (r: Transition)
        ensures
            r == old(self)@.state.judge(next.state),
            final(self)@ == old(self)@.with_state(next@),
            final(self).batches == old(self).batches,
            final(self).hash_input == old(self).hash_input,
    {
        let report = next.duplicate();
        let r = self.state.advance(next);
        match r {
            Transition::Applied => {
                self.outbox.push(Report::State { state: report });
                assert(reports_view(self.outbox@) =~= reports_view(old(self).outbox@).push(
                    ReportView::State { state: next@ },
                ));
            },
            _ => {},
        }
        r
    }

    /// Samples the counters at `now` and puts the values into the outbox.
    /// When a counter is at fault nothing is reported and the error comes
    /// back, as [`CounterRegistry::get_counters_at`] gives it.
    pub fn report_usage_at(&mut self, now: i64) -> (r: Result<(), ExeUnitError>)
        ensures
            final(self)@ == old(self)@.with_usage(now),
            final(self).batches == old(self).batches,
            match r {
                Ok(_) => sound_at(old(self)@.counters, now as int),
                Err(error) => !sound_at(old(self)@.counters, now as int) && error@
                    == sampling_error(old(self)@.counters, now as int),
            },
    {
        match self.counters.get_counters_at(now) {
            Ok(usage) => {
                self.outbox.push(Report::Usage { usage });
                assert(reports_view(self.outbox@) =~= reports_view(old(self).outbox@).push(
                    ReportView::Usage { usage: sample(old(self)@.counters, now as int) },
                ));
                Ok(())
            },
            Err(error) => Err(error),
        }
    }

    /// Takes the waiting reports out, oldest first, for the driver to send.
    pub fn take_reports(&mut self) -> (r: Vec<Report>)
        ensures
            reports_view(r@) == old(self)@.outbox,
            final(self)@ == (UnitView { outbox: Seq::empty(), ..old(self)@ }),
            final(self).batches == old(self).batches,
    {
        let mut taken: Vec<Report> = Vec::new();
        std::mem::swap(&mut self.outbox, &mut taken);
        assert(reports_view(self.outbox@) =~= Seq::empty());
        taken
    }

    /// The results of `batch_id` so far. See [`BatchStore::results`].
    pub fn get_exec_batch_results(&self, batch_id: &str) -> (r: Result<
        Vec<ExeScriptCommandResult>,
        ExeUnitError,
    >)
        ensures
            match r {
                Ok(list) => self@.batches.contains_key(batch_id@) && results_view(list@)
                    == self@.batches[batch_id@],
                Err(error) => !self@.batches.contains_key(batch_id@) && error@ == (ErrorView {
                    kind: ErrorKind::NotFound,
                    detail: "Batch id="@ + batch_id@,
                }),
            },
    {
        self.batches.results(batch_id)
    }
}

} // verus!
