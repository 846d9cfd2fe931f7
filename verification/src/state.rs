//! Activity states and the rule by which an activity moves between them.

use vstd::prelude::*;
use crate::text::{copy_opt, opt_text};

verus! {

/// A stage in the life of an activity.
#[derive(Clone, Copy, Debug, PartialEq, Eq, Hash, Structural)]
pub enum State {
    Initialized,
    Deployed,
    Ready,
    Terminated,
}

impl State {
    /// Position of the state on the way from `Initialized` to `Terminated`.
    pub open spec fn rank(self) -> nat {
        match self {
            State::Initialized => 0,
            State::Deployed => 1,
            State::Ready => 2,
            State::Terminated => 3,
        }
    }

    /// Executable form of [`State::rank`].
    pub fn position(self) -> (r: u8)
        ensures
            r == self.rank(),
    {
        match self {
            State::Initialized => 0,
            State::Deployed => 1,
            State::Ready => 2,
            State::Terminated => 3,
        }
    }
}

/// The current state of an activity and, while a change is under way, the
/// state it is moving to.
#[derive(Clone, Copy, Debug, PartialEq, Eq, Hash, Structural)]
pub struct StatePair(pub State, pub Option<State>);

impl StatePair {
    /// A pair that rests in `state`.
    pub fn settled(state: State) -> (r: StatePair)
        ensures
            r == StatePair(state, None),
    {
        StatePair(state, None)
    }

    pub open spec fn spec_alive(self) -> bool {
        self.0 != State::Terminated && self.1 != Some(State::Terminated)
    }

    /// Whether the activity is neither terminated nor on its way there.
    #[verifier::when_used_as_spec(spec_alive)]
    pub fn alive(self) -> (r: bool)
        ensures
            r == self.spec_alive(),
    {
        match (self.0, self.1) {
            (State::Terminated, _) => false,
            (_, Some(State::Terminated)) => false,
            _ => true,
        }
    }

    /// The same current state, now moving to `state`.
    pub fn to_pending(self, state: State) -> (r: StatePair)
        ensures
            r == StatePair(self.0, Some(state)),
    {
        StatePair(self.0, Some(state))
    }
}

/// The state of an activity as it is reported: the pair, and for a
/// termination or a failure the words that explain it.
#[derive(Debug)]
pub struct ActivityState {
    pub state: StatePair,
    /// Why the activity was terminated.
    pub reason: Option<String>,
    /// The error that caused the change, if one did.
    pub error_message: Option<String>,
}

/// The mathematical value of an [`ActivityState`].
pub struct ActivityStateView {
    pub state: StatePair,
    pub reason: Option<Seq<char>>,
    pub error_message: Option<Seq<char>>,
}

impl View for ActivityState {
    type V = ActivityStateView;

    open spec fn view(&self) -> ActivityStateView {
        ActivityStateView {
            state: self.state,
            reason: opt_text(self.reason),
            error_message: opt_text(self.error_message),
        }
    }
}

/// What became of a requested change of state.
#[derive(Clone, Copy, Debug, PartialEq, Eq, Hash, Structural)]
pub enum Transition {
    /// The activity is in the requested state now.
    Applied,
    /// The activity was terminated already and was asked to terminate
    /// again. Nothing changed, and that is no error.
    Redundant,
    /// The change would have led away from `Terminated` or back to an
    /// earlier state. Nothing changed.
    Rejected,
}

impl ActivityStateView {
    /// An unexplained state.
    pub open spec fn plain(state: StatePair) -> ActivityStateView {
        ActivityStateView { state, reason: None, error_message: None }
    }

    /// Whether the activity may go from this state to `next`: it is not
    /// terminated, and `next` is no earlier state.
    pub open spec fn permits(self, next: StatePair) -> bool {
        self.state.0 != State::Terminated && self.state.0.rank() <= next.0.rank()
    }

    /// What a request to go to `next` comes to.
    pub open spec fn judge(self, next: StatePair) -> Transition {
        if self.permits(next) {
            Transition::Applied
        } else if self.state.0 == State::Terminated && next.0 == State::Terminated {
            Transition::Redundant
        } else {
            Transition::Rejected
        }
    }

    /// The state after a request to go to `next`.
    pub open spec fn advanced(self, next: ActivityStateView) -> ActivityStateView {
        if self.permits(next.state) {
            next
        } else {
            self
        }
    }
}

impl ActivityState {
    /// An unexplained state.
    pub fn from_pair(state: StatePair) -> (r: ActivityState)
        ensures
            r@ == ActivityStateView::plain(state),
    {
        ActivityState { state, reason: None, error_message: None }
    }

    /// Whether the activity is neither terminated nor on its way there.
    pub fn alive(&self) -> (r: bool)
        ensures
            r == self.state.spec_alive(),
    {
        self.state.alive()
    }

    /// A copy of the state.
    pub fn duplicate(&self) -> (r: ActivityState)
        ensures
            r@ == self@,
    {
        ActivityState {
            state: self.state,
            reason: copy_opt(&self.reason),
            error_message: copy_opt(&self.error_message),
        }
    }

    /// Moves the activity to `next` if that is a step forward.
    ///
    /// A state is never left for an earlier one, and `Terminated` is never
    /// left at all. Asking a terminated activity to terminate is answered
    /// with `Redundant`.
    pub fn advance(&mut self, next: ActivityState) -> (r: Transition)
        ensures
            r == old(self)@.judge(next.state),
            final(self)@ == old(self)@.advanced(next@),
            old(self).state.0.rank() <= final(self).state.0.rank(),
            old(self).state.0 == State::Terminated ==> final(self)@ == old(self)@,
    {
        let terminated = match self.state.0 {
            State::Terminated => true,
            _ => false,
        };
        if !terminated && self.state.0.position() <= next.state.0.position() {
            *self = next;
            Transition::Applied
        } else if terminated && next.state.0.position() == 3 {
            Transition::Redundant
        } else {
            Transition::Rejected
        }
    }
}

/// States only move forward: whatever is requested, and however often, the
/// rank of the current state never falls, and a terminated activity stays
/// exactly as it is.
pub proof fn lemma_transitions_are_monotonic(
    current: ActivityStateView,
    first: ActivityStateView,
    second: ActivityStateView,
)
    ensures
        current.state.0.rank() <= current.advanced(first).state.0.rank(),
        current.advanced(first).state.0.rank() <= current.advanced(first).advanced(
            second,
        ).state.0.rank(),
        current.state.0 == State::Terminated ==> current.advanced(first).advanced(second)
            == current,
{
}

/// Termination converges: when two triggers each ask for `Terminated`, the
/// first that arrives decides the reported reason, the second changes
/// nothing and is not treated as an error.
pub proof fn lemma_termination_is_idempotent(
    current: ActivityStateView,
    first: ActivityStateView,
    second: ActivityStateView,
)
    requires
        first.state.0 == State::Terminated,
        second.state.0 == State::Terminated,
    ensures
        current.advanced(first).state.0 == State::Terminated,
        current.advanced(first).advanced(second) == current.advanced(first),
        current.advanced(first).judge(second.state) == Transition::Redundant,
{
}

} // verus!
