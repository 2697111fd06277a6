//! Snapshots, per-identity session state and the transition between them.
//!
//! A session is the span during which an identity's activity stays the same.
//! Each poll yields a [`Snapshot`]; [`transition`] compares it with the
//! activity seen on the poll before and classifies what happened. The function
//! has no effects: writing the state and emitting metrics is left to the
//! caller.

use vstd::prelude::*;

verus! {

/// What one poll observed for one identity.
#[derive(Clone, Debug, PartialEq, Eq)]
pub struct Snapshot {
    /// The tracked subject that was polled.
    pub identity: String,
    /// The activity the identity is engaged in, if any.
    pub activity_id: Option<String>,
    /// Logical time of the poll.
    pub observed_at: u64,
}

/// The mathematical content of a [`Snapshot`].
pub ghost struct SnapshotView {
    pub identity: Seq<char>,
    pub activity_id: Option<Seq<char>>,
    pub observed_at: u64,
}

impl View for Snapshot {
    type V = SnapshotView;

    open spec fn view(&self) -> SnapshotView {
        SnapshotView {
            identity: self.identity@,
            activity_id: self.activity_id.deep_view(),
            observed_at: self.observed_at,
        }
    }
}

/// The classified outcome of comparing a snapshot with the state before it.
#[derive(Clone, Debug, PartialEq, Eq)]
pub enum TransitionEvent {
    /// An activity began where there was none.
    Started { activity_id: String },
    /// The same activity was seen again; one tick interval is credited to it.
    Continued { activity_id: String, elapsed_seconds: u64 },
    /// One activity was replaced by another; nothing is credited.
    SwitchedFromTo { old: String, new: String },
    /// The activity ended.
    Stopped { old: String },
    /// No activity before, none now.
    Idle,
}

/// The mathematical content of a [`TransitionEvent`].
pub ghost enum EventView {
    Started { activity_id: Seq<char> },
    Continued { activity_id: Seq<char>, elapsed_seconds: u64 },
    SwitchedFromTo { old: Seq<char>, new: Seq<char> },
    Stopped { old: Seq<char> },
    Idle,
}

impl View for TransitionEvent {
    type V = EventView;

    open spec fn view(&self) -> EventView {
        match self {
            TransitionEvent::Started { activity_id } => EventView::Started {
                activity_id: activity_id@,
            },
            TransitionEvent::Continued { activity_id, elapsed_seconds } => EventView::Continued {
                activity_id: activity_id@,
                elapsed_seconds: *elapsed_seconds,
            },
            TransitionEvent::SwitchedFromTo { old, new } => EventView::SwitchedFromTo {
                old: old@,
                new: new@,
            },
            TransitionEvent::Stopped { old } => EventView::Stopped { old: old@ },
            TransitionEvent::Idle => EventView::Idle,
        }
    }
}

/// The state after a snapshot has been processed: the activity it observed.
pub open spec fn next_activity(
    previous: Option<Seq<char>>,
    observed: Option<Seq<char>>,
) -> Option<Seq<char>> {
    observed
}

/// The event that a snapshot gives rise to, by the state before it.
pub open spec fn event_for(
    previous: Option<Seq<char>>,
    observed: Option<Seq<char>>,
    tick_interval_seconds: u64,
) -> EventView {
    match (previous, observed) {
        (None, None) => EventView::Idle,
        (None, Some(a)) => EventView::Started { activity_id: a },
        (Some(p), Some(a)) => if p == a {
            EventView::Continued { activity_id: a, elapsed_seconds: tick_interval_seconds }
        } else {
            EventView::SwitchedFromTo { old: p, new: a }
        },
        (Some(p), None) => EventView::Stopped { old: p },
    }
}

/// The seconds that an event credits to `activity`.
pub open spec fn credit(event: EventView, activity: Seq<char>) -> nat {
    match event {
        EventView::Continued { activity_id, elapsed_seconds } => if activity_id == activity {
            elapsed_seconds as nat
        } else {
            0
        },
        _ => 0,
    }
}

/// Whether `result` is what [`transition`] returns for the given input.
pub open spec fn is_transition_of(
    previous: Option<String>,
    snapshot: Snapshot,
    tick_interval_seconds: u64,
    result: (Option<String>, TransitionEvent),
) -> bool {
    &&& result.0.deep_view() == next_activity(previous.deep_view(), snapshot@.activity_id)
    &&& result.1@ == event_for(previous.deep_view(), snapshot@.activity_id, tick_interval_seconds)
}

/// Classifies `snapshot` against the activity seen on the poll before.
///
/// Returns the new state, which is the activity the snapshot observed, and the
/// event. A repeated activity is credited exactly one tick interval; a switch
/// credits nothing to either activity.
pub fn transition(
    previous: Option<String>,
    snapshot: &Snapshot,
    tick_interval_seconds: u64,
) -> (r: (Option<String>, TransitionEvent))
    ensures
        is_transition_of(previous, *snapshot, tick_interval_seconds, r),
{
    match previous {
        None => match &snapshot.activity_id {
            None => (None, TransitionEvent::Idle),
            Some(a) => (Some(a.clone()), TransitionEvent::Started { activity_id: a.clone() }),
        },
        Some(p) => match &snapshot.activity_id {
            None => (None, TransitionEvent::Stopped { old: p }),
            Some(a) => {
                if p == *a {
                    let event = TransitionEvent::Continued {
                        activity_id: a.clone(),
                        elapsed_seconds: tick_interval_seconds,
                    };
                    (Some(p), event)
                } else {
                    (Some(a.clone()), TransitionEvent::SwitchedFromTo { old: p, new: a.clone() })
                }
            },
        },
    }
}

/// The long-lived state of one identity: the activity of the snapshot that
/// was processed last, or none before the first poll.
#[derive(Debug, PartialEq, Eq)]
pub struct SessionState {
    pub current_activity_id: Option<String>,
}

impl View for SessionState {
    type V = Option<Seq<char>>;

    open spec fn view(&self) -> Option<Seq<char>> {
        self.current_activity_id.deep_view()
    }
}

impl Clone for SessionState {
    fn clone(&self) -> (r: SessionState)
        ensures
            r@ == self@,
    {
        match &self.current_activity_id {
            Some(a) => SessionState { current_activity_id: Some(a.clone()) },
            None => SessionState { current_activity_id: None },
        }
    }
}

impl SessionState {
    /// The state of an identity that has not been polled yet.
    pub fn new() -> (r: SessionState)
        ensures
            r@ is None,
    {
        SessionState { current_activity_id: None }
    }

    /// Folds one snapshot into the state and returns the event it gave rise to.
    pub fn advance(&mut self, snapshot: &Snapshot, tick_interval_seconds: u64) -> (event:
        TransitionEvent)
        ensures
            final(self)@ == next_activity(old(self)@, snapshot@.activity_id),
            event@ == event_for(old(self)@, snapshot@.activity_id, tick_interval_seconds),
    {
        let previous = self.current_activity_id.take();
        let (next, event) = transition(previous, snapshot, tick_interval_seconds);
        self.current_activity_id = next;
        event
    }
}

/// The state after a run of observations, folded in order from `initial`.
pub open spec fn replay_state(
    initial: Option<Seq<char>>,
    observed: Seq<Option<Seq<char>>>,
) -> Option<Seq<char>>
    decreases observed.len(),
{
    if observed.len() == 0 {
        initial
    } else {
        next_activity(replay_state(initial, observed.drop_last()), observed.last())
    }
}

/// The events of a run of observations, folded in order from `initial`.
pub open spec fn replay_events(
    initial: Option<Seq<char>>,
    observed: Seq<Option<Seq<char>>>,
    tick_interval_seconds: u64,
) -> Seq<EventView>
    decreases observed.len(),
{
    if observed.len() == 0 {
        Seq::empty()
    } else {
        replay_events(initial, observed.drop_last(), tick_interval_seconds).push(
            event_for(
                replay_state(initial, observed.drop_last()),
                observed.last(),
                tick_interval_seconds,
            ),
        )
    }
}

/// The seconds that a run of events credits to `activity` in all.
pub open spec fn credited(events: Seq<EventView>, activity: Seq<char>) -> nat
    decreases events.len(),
{
    if events.len() == 0 {
        0
    } else {
        credited(events.drop_last(), activity) + credit(events.last(), activity)
    }
}

/// The state in which observation `at` of a run is processed: the
/// observation before it, or `initial` for the first.
pub open spec fn state_before(
    initial: Option<Seq<char>>,
    observed: Seq<Option<Seq<char>>>,
    at: int,
) -> Option<Seq<char>> {
    if at == 0 {
        initial
    } else {
        observed[at - 1]
    }
}

/// The transition is a function of its input: two results for the same
/// previous state, snapshot and interval are the same state and the same event.
pub proof fn transition_is_deterministic(
    previous: Option<String>,
    snapshot: Snapshot,
    tick_interval_seconds: u64,
    first: (Option<String>, TransitionEvent),
    second: (Option<String>, TransitionEvent),
)
    requires
        is_transition_of(previous, snapshot, tick_interval_seconds, first),
        is_transition_of(previous, snapshot, tick_interval_seconds, second),
    ensures
        first.0.deep_view() == second.0.deep_view(),
        first.1@ == second.1@,
{
}

/// The transition looks at nothing but the previous activity, the observed
/// activity and the interval: the identity and the time of the snapshot do not
/// enter.
pub proof fn transition_ignores_the_rest(
    previous: Option<String>,
    one: Snapshot,
    other: Snapshot,
    tick_interval_seconds: u64,
    first: (Option<String>, TransitionEvent),
    second: (Option<String>, TransitionEvent),
)
    requires
        one@.activity_id == other@.activity_id,
        is_transition_of(previous, one, tick_interval_seconds, first),
        is_transition_of(previous, other, tick_interval_seconds, second),
    ensures
        first.0.deep_view() == second.0.deep_view(),
        first.1@ == second.1@,
{
}

/// Without an activity before and without one now, the state stays empty and
/// the event is `Idle`, whatever the interval.
pub proof fn idle_is_stable(tick_interval_seconds: u64)
    ensures
        next_activity(None, None) is None,
        event_for(None, None, tick_interval_seconds) == EventView::Idle,
{
}

/// After a run of observations the state is the last observation, or the
/// initial state where nothing was observed.
pub proof fn state_is_last_observation(
    initial: Option<Seq<char>>,
    observed: Seq<Option<Seq<char>>>,
)
    ensures
        replay_state(initial, observed) == if observed.len() == 0 {
            initial
        } else {
            observed.last()
        },
{
}

/// A run yields one event for each observation, and event `at` is the one
/// that observation `at` gives rise to in the state left by the observation
/// before it.
pub proof fn replay_yields_one_event_each(
    initial: Option<Seq<char>>,
    observed: Seq<Option<Seq<char>>>,
    tick_interval_seconds: u64,
)
    ensures
        replay_events(initial, observed, tick_interval_seconds).len() == observed.len(),
        forall|at: int|
            0 <= at < observed.len() ==> #[trigger] replay_events(
                initial,
                observed,
                tick_interval_seconds,
            )[at] == event_for(
                state_before(initial, observed, at),
                observed[at],
                tick_interval_seconds,
            ),
    decreases observed.len(),
{
    if observed.len() > 0 {
        let front = observed.drop_last();
        replay_yields_one_event_each(initial, front, tick_interval_seconds);
        state_is_last_observation(initial, front);
        let events = replay_events(initial, observed, tick_interval_seconds);
        let before = replay_events(initial, front, tick_interval_seconds);
        assert forall|at: int| 0 <= at < observed.len() implies #[trigger] events[at]
            == event_for(
            state_before(initial, observed, at),
            observed[at],
            tick_interval_seconds,
        ) by {
            if at < front.len() {
                assert(events[at] == before[at]);
                assert(front[at] == observed[at]);
                if at > 0 {
                    assert(front[at - 1] == observed[at - 1]);
                }
            } else {
                if at > 0 {
                    assert(front.last() == observed[at - 1]);
                }
            }
        }
    }
}

/// Seeing the same activity on every one of `ticks` polls, starting in that
/// activity, credits it exactly `ticks` intervals and leaves the state in it.
pub proof fn continuation_accumulates(
    activity: Seq<char>,
    ticks: nat,
    tick_interval_seconds: u64,
)
    ensures
        replay_state(Some(activity), Seq::new(ticks, |i: int| Some(activity))) == Some(
            activity,
        ),
        credited(
            replay_events(
                Some(activity),
                Seq::new(ticks, |i: int| Some(activity)),
                tick_interval_seconds,
            ),
            activity,
        ) == ticks * tick_interval_seconds,
    decreases ticks,
{
    let observed = Seq::new(ticks, |i: int| Some(activity));
    if ticks == 0 {
        assert(ticks * tick_interval_seconds == 0) by (nonlinear_arith)
            requires
                ticks == 0,
        ;
    } else {
        let fewer = (ticks - 1) as nat;
        let front = Seq::new(fewer, |i: int| Some(activity));
        assert(observed.drop_last() =~= front);
        continuation_accumulates(activity, fewer, tick_interval_seconds);
        let events = replay_events(Some(activity), observed, tick_interval_seconds);
        let before = replay_events(Some(activity), front, tick_interval_seconds);
        let last = event_for(Some(activity), Some(activity), tick_interval_seconds);
        assert(events == before.push(last));
        assert(events.drop_last() =~= before);
        assert(events.last() == last);
        assert(ticks * tick_interval_seconds == fewer * tick_interval_seconds
            + tick_interval_seconds) by (nonlinear_arith)
            requires
                ticks == fewer + 1,
        ;
    }
}

/// A switch credits nothing, neither to the activity left nor to the one
/// entered.
pub proof fn switch_credits_nothing(
    old_activity: Seq<char>,
    new_activity: Seq<char>,
    tick_interval_seconds: u64,
    activity: Seq<char>,
)
    requires
        old_activity != new_activity,
    ensures
        event_for(Some(old_activity), Some(new_activity), tick_interval_seconds)
            == (EventView::SwitchedFromTo { old: old_activity, new: new_activity }),
        credit(
            event_for(Some(old_activity), Some(new_activity), tick_interval_seconds),
            activity,
        ) == 0,
{
}

/// Only a continuation credits time, and a continuation of an activity takes
/// two sightings in a row: the observation that is processed and the state
/// it is processed in both hold that activity.
pub proof fn credit_needs_two_sightings(
    initial: Option<Seq<char>>,
    observed: Seq<Option<Seq<char>>>,
    tick_interval_seconds: u64,
    at: int,
    activity: Seq<char>,
)
    requires
        0 <= at < observed.len(),
    ensures
        (replay_events(initial, observed, tick_interval_seconds)[at] matches EventView::Continued {
            activity_id,
            ..
        } && activity_id == activity) <==> (observed[at] == Some(activity) && state_before(
            initial,
            observed,
            at,
        ) == Some(activity)),
        credit(replay_events(initial, observed, tick_interval_seconds)[at], activity) > 0
            ==> observed[at] == Some(activity) && state_before(initial, observed, at) == Some(
            activity,
        ),
{
    replay_yields_one_event_each(initial, observed, tick_interval_seconds);
}

} // verus!
