//! The poll cycle: what a tick does with the outcome of each fetch.
//!
//! Fetching is left to the caller. A tick starts with
//! [`SteamTracker::begin_tick`], which names the identities to fetch, and ends
//! with [`SteamTracker::complete_tick`], which takes the outcomes. A fetched
//! snapshot is folded into the state of its identity and yields an event and
//! the counter updates that the event calls for; a failed fetch is counted and
//! otherwise skipped, so that it affects neither the state of its identity
//! nor the processing of any other.

use crate::error::ConfigurationError;
use crate::error::FetchError;
use crate::error::FetchErrorView;
use crate::metrics::emit;
use crate::metrics::fetch_failure;
use crate::metrics::fetch_failure_update;
use crate::metrics::updates_for;
use crate::metrics::updates_view;
use crate::metrics::CounterAdd;
use crate::metrics::CounterAddView;
use crate::session::event_for;
use crate::session::replay_events;
use crate::session::replay_state;
use crate::session::replay_yields_one_event_each;
use crate::session::state_before;
use crate::session::state_is_last_observation;
use crate::session::EventView;
use crate::session::Snapshot;
use crate::session::SnapshotView;
use crate::session::TransitionEvent;
use crate::session::SessionState;
use crate::settings::SteamConfig;
use crate::store::state_in;
use crate::store::SessionStore;
use crate::text::decimal;
use crate::text::decimal_string;
use vstd::prelude::*;
use vstd::string::StringExecFns;

verus! {

/// The phase of one identity within a tick.
///
/// A tick takes an identity from `Idle` through `Fetching` and then either
/// through `Succeeded`, `Transitioning` and `Emitting` or through `Failed`
/// back to `Idle`.
#[derive(Clone, Copy, Debug, PartialEq, Eq)]
pub enum TickPhase {
    Idle,
    Fetching,
    Succeeded,
    Transitioning,
    Emitting,
    Failed,
}

impl TickPhase {
    /// The phase that follows `self`. Only `Fetching` looks at the outcome of
    /// the fetch.
    pub open spec fn successor(self, fetched: bool) -> TickPhase {
        match self {
            TickPhase::Idle => TickPhase::Fetching,
            TickPhase::Fetching => if fetched {
                TickPhase::Succeeded
            } else {
                TickPhase::Failed
            },
            TickPhase::Succeeded => TickPhase::Transitioning,
            TickPhase::Transitioning => TickPhase::Emitting,
            TickPhase::Emitting => TickPhase::Idle,
            TickPhase::Failed => TickPhase::Idle,
        }
    }

    /// The phase after `steps` steps.
    pub open spec fn after(self, fetched: bool, steps: nat) -> TickPhase
        decreases steps,
    {
        if steps == 0 {
            self
        } else {
            self.successor(fetched).after(fetched, (steps - 1) as nat)
        }
    }

    /// The phase that follows `self`.
    pub fn next(self, fetched: bool) -> (r: TickPhase)
        ensures
            r == self.successor(fetched),
    {
        match self {
            TickPhase::Idle => TickPhase::Fetching,
            TickPhase::Fetching => if fetched {
                TickPhase::Succeeded
            } else {
                TickPhase::Failed
            },
            TickPhase::Succeeded => TickPhase::Transitioning,
            TickPhase::Transitioning => TickPhase::Emitting,
            TickPhase::Emitting => TickPhase::Idle,
            TickPhase::Failed => TickPhase::Idle,
        }
    }
}

/// What a fetch came to: a snapshot or a failure.
pub type FetchOutcome = Result<Snapshot, FetchError>;

/// The mathematical content of a [`FetchOutcome`].
pub type OutcomeView = Result<SnapshotView, FetchErrorView>;

/// The view of an outcome.
pub open spec fn outcome_view(outcome: FetchOutcome) -> OutcomeView {
    match outcome {
        Ok(snapshot) => Ok(snapshot@),
        Err(error) => Err(error@),
    }
}

/// The views of a list of outcomes, in order.
pub open spec fn outcomes_view(outcomes: Seq<FetchOutcome>) -> Seq<OutcomeView> {
    Seq::new(outcomes.len(), |i: int| outcome_view(outcomes[i]))
}

/// The identity that an outcome belongs to.
pub open spec fn outcome_identity(outcome: OutcomeView) -> Seq<char> {
    match outcome {
        Ok(snapshot) => snapshot.identity,
        Err(error) => error.identity,
    }
}

/// What processing one outcome yields.
#[derive(Clone, Debug, PartialEq, Eq)]
pub struct TickReport {
    /// The identity that was processed.
    pub identity: String,
    /// The event of the identity, or nothing where its fetch failed.
    pub event: Option<TransitionEvent>,
    /// The counter updates to hand to the metrics sink.
    pub metrics: Vec<CounterAdd>,
}

/// The mathematical content of a [`TickReport`].
pub ghost struct TickReportView {
    pub identity: Seq<char>,
    pub event: Option<EventView>,
    pub metrics: Seq<CounterAddView>,
}

impl View for TickReport {
    type V = TickReportView;

    open spec fn view(&self) -> TickReportView {
        TickReportView {
            identity: self.identity@,
            event: match self.event {
                Some(event) => Some(event@),
                None => None,
            },
            metrics: updates_view(self.metrics@),
        }
    }
}

/// The views of a list of reports, in order.
pub open spec fn reports_view(reports: Seq<TickReport>) -> Seq<TickReportView> {
    Seq::new(reports.len(), |i: int| reports[i]@)
}

/// The states after one outcome: a snapshot replaces the state of its
/// identity, a failure changes nothing.
pub open spec fn states_after(
    states: Map<Seq<char>, Option<Seq<char>>>,
    outcome: OutcomeView,
) -> Map<Seq<char>, Option<Seq<char>>> {
    match outcome {
        Ok(snapshot) => states.insert(snapshot.identity, snapshot.activity_id),
        Err(_) => states,
    }
}

/// The report on one outcome, by the states before it.
pub open spec fn report_for(
    states: Map<Seq<char>, Option<Seq<char>>>,
    outcome: OutcomeView,
    tick_interval_seconds: u64,
) -> TickReportView {
    match outcome {
        Ok(snapshot) => {
            let event = event_for(
                state_in(states, snapshot.identity),
                snapshot.activity_id,
                tick_interval_seconds,
            );
            TickReportView {
                identity: snapshot.identity,
                event: Some(event),
                metrics: updates_for(snapshot.identity, event),
            }
        },
        Err(error) => TickReportView {
            identity: error.identity,
            event: None,
            metrics: seq![fetch_failure_update(error.identity)],
        },
    }
}

/// The states after a list of outcomes, processed in order.
pub open spec fn states_after_all(
    states: Map<Seq<char>, Option<Seq<char>>>,
    outcomes: Seq<OutcomeView>,
) -> Map<Seq<char>, Option<Seq<char>>>
    decreases outcomes.len(),
{
    if outcomes.len() == 0 {
        states
    } else {
        states_after(states_after_all(states, outcomes.drop_last()), outcomes.last())
    }
}

/// The reports on a list of outcomes, processed in order.
pub open spec fn reports_for(
    states: Map<Seq<char>, Option<Seq<char>>>,
    outcomes: Seq<OutcomeView>,
    tick_interval_seconds: u64,
) -> Seq<TickReportView> {
    Seq::new(
        outcomes.len(),
        |i: int|
            report_for(
                states_after_all(states, outcomes.take(i)),
                outcomes[i],
                tick_interval_seconds,
            ),
    )
}

/// Processes the outcome of one fetch.
///
/// A snapshot is folded into the state of its identity; the report holds the
/// event and its counter updates. A failure leaves the store as it was; the
/// report holds no event and one increase of the error counter.
pub fn process_outcome(
    store: &mut SessionStore,
    outcome: &FetchOutcome,
    tick_interval_seconds: u64,
) -> (report: TickReport)
    ensures
        final(store)@ == states_after(old(store)@, outcome_view(*outcome)),
        report@ == report_for(old(store)@, outcome_view(*outcome), tick_interval_seconds),
{
    match outcome {
        Ok(snapshot) => {
            let event = store.update(snapshot, tick_interval_seconds);
            let metrics = emit(snapshot.identity.as_str(), &event);
            TickReport { identity: snapshot.identity.clone(), event: Some(event), metrics }
        },
        Err(error) => {
            let mut metrics: Vec<CounterAdd> = Vec::new();
            metrics.push(fetch_failure(error.identity.as_str()));
            assert(updates_view(metrics@) =~= seq![fetch_failure_update(error@.identity)]);
            TickReport { identity: error.identity.clone(), event: None, metrics }
        },
    }
}

/// Processes the outcomes of one tick in order, one report for each.
pub fn process_tick(
    store: &mut SessionStore,
    outcomes: &Vec<FetchOutcome>,
    tick_interval_seconds: u64,
) -> (reports: Vec<TickReport>)
    ensures
        final(store)@ == states_after_all(old(store)@, outcomes_view(outcomes@)),
        reports_view(reports@) == reports_for(
            old(store)@,
            outcomes_view(outcomes@),
            tick_interval_seconds,
        ),
{
    let ghost all = outcomes_view(outcomes@);
    let mut reports: Vec<TickReport> = Vec::new();
    let mut i: usize = 0;
    assert(all.take(0) =~= Seq::empty());
    while i < outcomes.len()
        invariant
            i <= outcomes@.len(),
            all == outcomes_view(outcomes@),
            store@ == states_after_all(old(store)@, all.take(i as int)),
            reports@.len() == i,
            forall|j: int|
                0 <= j < i ==> (#[trigger] reports@[j])@ == report_for(
                    states_after_all(old(store)@, all.take(j)),
                    all[j],
                    tick_interval_seconds,
                ),
        decreases outcomes@.len() - i,
    {
        let report = process_outcome(store, &outcomes[i], tick_interval_seconds);
        reports.push(report);
        proof {
            assert(all.take(i + 1).drop_last() =~= all.take(i as int));
            assert(all.take(i + 1).last() == all[i as int]);
        }
        i += 1;
    }
    proof {
        assert(all.take(i as int) =~= all);
        assert(reports_view(reports@) =~= reports_for(old(store)@, all, tick_interval_seconds));
    }
    reports
}

/// The schedule on which a tick fires every `interval_seconds` seconds, as
/// a cron expression with a field for seconds.
pub open spec fn schedule_text(interval_seconds: u16) -> Seq<char> {
    "1/"@ + decimal(interval_seconds as nat) + " * * * * *"@
}

/// The schedule on which a tick fires every `interval_seconds` seconds.
pub fn polling_schedule(interval_seconds: u16) -> (schedule: String)
    ensures
        schedule@ == schedule_text(interval_seconds),
{
    let mut schedule = String::from_str("1/");
    let number = decimal_string(interval_seconds as u64);
    schedule.append(number.as_str());
    schedule.append(" * * * * *");
    schedule
}

/// The scheduler of the poll cycle: the identities to poll, the tick
/// interval, the session states, and whether a tick is in flight.
///
/// At most one tick is in flight at a time, so that the states of an
/// identity are read and written by one tick after the other.
pub struct SteamTracker {
    steam_ids: Vec<String>,
    tick_interval_seconds: u16,
    store: SessionStore,
    fetching: bool,
}

impl SteamTracker {
    /// The identities that every tick polls, in order.
    pub closed spec fn identities(&self) -> Seq<Seq<char>> {
        self.steam_ids.deep_view()
    }

    /// The tick interval in seconds.
    pub closed spec fn interval(&self) -> u16 {
        self.tick_interval_seconds
    }

    /// The session states, by identity.
    pub closed spec fn states(&self) -> Map<Seq<char>, Option<Seq<char>>> {
        self.store@
    }

    /// Whether a tick has begun and is not yet complete.
    pub closed spec fn in_flight(&self) -> bool {
        self.fetching
    }

    /// A tracker for the identities and the interval of `config`, with no
    /// state for any identity and no tick in flight. Settings without an
    /// identity or with a zero interval are refused.
    pub fn new(config: &SteamConfig) -> (r: Result<SteamTracker, ConfigurationError>)
        ensures
            match r {
                Ok(tracker) => {
                    &&& config.fault() is None
                    &&& tracker.identities() == config.steam_ids.deep_view()
                    &&& tracker.interval() == config.polling_interval_seconds
                    &&& tracker.states() == Map::<Seq<char>, Option<Seq<char>>>::empty()
                    &&& !tracker.in_flight()
                },
                Err(e) => config.fault() == Some(e),
            },
    {
        match config.validate() {
            Err(e) => Err(e),
            Ok(_) => {
                let steam_ids = config.steam_ids.clone();
                assert(steam_ids.deep_view() =~= config.steam_ids.deep_view());
                Ok(
                    SteamTracker {
                        steam_ids,
                        tick_interval_seconds: config.polling_interval_seconds,
                        store: SessionStore::new(),
                        fetching: false,
                    },
                )
            },
        }
    }

    /// The phase between the steps of the tracker: `Fetching` while a tick is
    /// in flight, `Idle` otherwise.
    pub fn phase(&self) -> (phase: TickPhase)
        ensures
            phase == if self.in_flight() {
                TickPhase::Fetching
            } else {
                TickPhase::Idle
            },
    {
        if self.fetching {
            TickPhase::Fetching
        } else {
            TickPhase::Idle
        }
    }

    /// The state of `identity`.
    pub fn state_of(&self, identity: &str) -> (state: SessionState)
        ensures
            state@ == state_in(self.states(), identity@),
    {
        self.store.get(identity)
    }

    /// The schedule on which the ticks of this tracker fire.
    pub fn schedule(&self) -> (schedule: String)
        ensures
            schedule@ == schedule_text(self.interval()),
    {
        polling_schedule(self.tick_interval_seconds)
    }

    /// Begins a tick and returns the identities to fetch. While a tick is in
    /// flight no other begins: the call then returns no identity and changes
    /// nothing.
    pub fn begin_tick(&mut self) -> (to_fetch: Vec<String>)
        ensures
            final(self).identities() == old(self).identities(),
            final(self).interval() == old(self).interval(),
            final(self).states() == old(self).states(),
            final(self).in_flight(),
            to_fetch.deep_view() == if old(self).in_flight() {
                Seq::<Seq<char>>::empty()
            } else {
                old(self).identities()
            },
    {
        if self.fetching {
            let none: Vec<String> = Vec::new();
            assert(none.deep_view() =~= Seq::<Seq<char>>::empty());
            none
        } else {
            self.fetching = true;
            let to_fetch = self.steam_ids.clone();
            assert(to_fetch.deep_view() =~= self.steam_ids.deep_view());
            to_fetch
        }
    }

    /// Completes the tick in flight with the outcomes of its fetches,
    /// processed in order, and returns one report for each. Without a tick in
    /// flight the outcomes are dropped: nothing changes and nothing is
    /// reported.
    pub fn complete_tick(&mut self, outcomes: &Vec<FetchOutcome>) -> (reports: Vec<TickReport>)
        ensures
            final(self).identities() == old(self).identities(),
            final(self).interval() == old(self).interval(),
            !final(self).in_flight(),
            final(self).states() == if old(self).in_flight() {
                states_after_all(old(self).states(), outcomes_view(outcomes@))
            } else {
                old(self).states()
            },
            reports_view(reports@) == if old(self).in_flight() {
                reports_for(
                    old(self).states(),
                    outcomes_view(outcomes@),
                    old(self).interval() as u64,
                )
            } else {
                Seq::<TickReportView>::empty()
            },
    {
        if self.fetching {
            self.fetching = false;
            process_tick(&mut self.store, outcomes, self.tick_interval_seconds as u64)
        } else {
            let none: Vec<TickReport> = Vec::new();
            assert(reports_view(none@) =~= Seq::<TickReportView>::empty());
            none
        }
    }
}

/// A tick takes an identity from `Idle` to `Fetching`; from there a fetch
/// that succeeded leads through `Succeeded`, `Transitioning` and `Emitting`
/// back to `Idle`, and one that failed through `Failed`.
pub proof fn a_tick_is_a_round_trip(fetched: bool)
    ensures
        TickPhase::Idle.successor(fetched) == TickPhase::Fetching,
        TickPhase::Fetching.after(true, 1) == TickPhase::Succeeded,
        TickPhase::Fetching.after(true, 2) == TickPhase::Transitioning,
        TickPhase::Fetching.after(true, 3) == TickPhase::Emitting,
        TickPhase::Fetching.after(true, 4) == TickPhase::Idle,
        TickPhase::Fetching.after(false, 1) == TickPhase::Failed,
        TickPhase::Fetching.after(false, 2) == TickPhase::Idle,
{
    reveal_with_fuel(TickPhase::after, 5);
}

/// Whatever the phase and the outcome of the fetch, `Idle` is reached within
/// four steps: no tick gets stuck.
pub proof fn every_phase_leads_to_idle(phase: TickPhase, fetched: bool)
    ensures
        exists|steps: nat| steps <= 4 && #[trigger] phase.after(fetched, steps) == TickPhase::Idle,
{
    reveal_with_fuel(TickPhase::after, 5);
    match phase {
        TickPhase::Idle => {
            assert(phase.after(fetched, 0) == TickPhase::Idle);
        },
        TickPhase::Fetching => {
            if fetched {
                assert(phase.after(fetched, 4) == TickPhase::Idle);
            } else {
                assert(phase.after(fetched, 2) == TickPhase::Idle);
            }
        },
        TickPhase::Succeeded => {
            assert(phase.after(fetched, 3) == TickPhase::Idle);
        },
        TickPhase::Transitioning => {
            assert(phase.after(fetched, 2) == TickPhase::Idle);
        },
        TickPhase::Emitting => {
            assert(phase.after(fetched, 1) == TickPhase::Idle);
        },
        TickPhase::Failed => {
            assert(phase.after(fetched, 1) == TickPhase::Idle);
        },
    }
}

/// Processing an outcome touches the state of its own identity only: every
/// other identity reads as before.
pub proof fn other_identities_keep_their_state(
    states: Map<Seq<char>, Option<Seq<char>>>,
    outcome: OutcomeView,
    other: Seq<char>,
)
    requires
        other != outcome_identity(outcome),
    ensures
        state_in(states_after(states, outcome), other) == state_in(states, other),
{
}

/// The outcomes of two different identities can be processed in either
/// order: the states afterwards are the same, and the report on each is what
/// it would be had the other not been processed.
pub proof fn different_identities_commute(
    states: Map<Seq<char>, Option<Seq<char>>>,
    one: OutcomeView,
    other: OutcomeView,
    tick_interval_seconds: u64,
)
    requires
        outcome_identity(one) != outcome_identity(other),
    ensures
        states_after(states_after(states, one), other) == states_after(
            states_after(states, other),
            one,
        ),
        report_for(states_after(states, one), other, tick_interval_seconds) == report_for(
            states,
            other,
            tick_interval_seconds,
        ),
        report_for(states_after(states, other), one, tick_interval_seconds) == report_for(
            states,
            one,
            tick_interval_seconds,
        ),
{
    assert(states_after(states_after(states, one), other) =~= states_after(
        states_after(states, other),
        one,
    ));
}

/// What the snapshots of a run of outcomes observed, in order.
pub open spec fn observations(outcomes: Seq<OutcomeView>) -> Seq<Option<Seq<char>>> {
    Seq::new(
        outcomes.len(),
        |i: int|
            match outcomes[i] {
                Ok(snapshot) => snapshot.activity_id,
                Err(_) => None,
            },
    )
}

/// For one identity, a run of fetched snapshots is the replay of what they
/// observed: the state afterwards is the replayed state, and the event of
/// each report is the replayed event.
pub proof fn one_identity_replays(
    states: Map<Seq<char>, Option<Seq<char>>>,
    identity: Seq<char>,
    outcomes: Seq<OutcomeView>,
    tick_interval_seconds: u64,
)
    requires
        forall|i: int|
            0 <= i < outcomes.len() ==> (#[trigger] outcomes[i]) is Ok && outcome_identity(
                outcomes[i],
            ) == identity,
    ensures
        outcomes.len() > 0 ==> state_in(states_after_all(states, outcomes), identity)
            == replay_state(state_in(states, identity), observations(outcomes)),
        forall|i: int|
            0 <= i < outcomes.len() ==> (#[trigger] reports_for(
                states,
                outcomes,
                tick_interval_seconds,
            )[i]).event == Some(
                replay_events(
                    state_in(states, identity),
                    observations(outcomes),
                    tick_interval_seconds,
                )[i],
            ),
{
    let observed = observations(outcomes);
    let initial = state_in(states, identity);
    replay_yields_one_event_each(initial, observed, tick_interval_seconds);
    state_is_last_observation(initial, observed);
    assert forall|i: int| 0 <= i <= outcomes.len() implies state_in(
        #[trigger] states_after_all(states, outcomes.take(i)),
        identity,
    ) == if i == 0 {
        initial
    } else {
        observed[i - 1]
    } by {
        if i > 0 {
            let run = outcomes.take(i);
            assert(run.last() == outcomes[i - 1]);
        }
    }
    assert(outcomes.take(outcomes.len() as int) =~= outcomes);
    assert forall|i: int| 0 <= i < outcomes.len() implies (#[trigger] reports_for(
        states,
        outcomes,
        tick_interval_seconds,
    )[i]).event == Some(replay_events(initial, observed, tick_interval_seconds)[i]) by {
        let before = states_after_all(states, outcomes.take(i));
        assert(state_in(before, identity) == state_before(initial, observed, i));
    }
}

/// A failed fetch leaves every state as it was before the tick, that of its
/// own identity included, and is counted once under its identity.
pub proof fn a_failed_fetch_changes_no_state(
    states: Map<Seq<char>, Option<Seq<char>>>,
    error: FetchErrorView,
    tick_interval_seconds: u64,
)
    ensures
        states_after(states, Err(error)) == states,
        report_for(states, Err(error), tick_interval_seconds).event is None,
        report_for(states, Err(error), tick_interval_seconds).metrics == seq![
            fetch_failure_update(error.identity),
        ],
{
}

/// `outcomes` without the one at `at`.
pub open spec fn without(outcomes: Seq<OutcomeView>, at: int) -> Seq<OutcomeView> {
    outcomes.take(at) + outcomes.skip(at + 1)
}

proof fn lemma_states_skip_failure(
    states: Map<Seq<char>, Option<Seq<char>>>,
    outcomes: Seq<OutcomeView>,
    at: int,
)
    requires
        0 <= at < outcomes.len(),
        outcomes[at] is Err,
    ensures
        states_after_all(states, outcomes) == states_after_all(states, without(outcomes, at)),
    decreases outcomes.len(),
{
    if at == outcomes.len() - 1 {
        assert(without(outcomes, at) =~= outcomes.drop_last());
    } else {
        let front = outcomes.drop_last();
        lemma_states_skip_failure(states, front, at);
        assert(without(outcomes, at).drop_last() =~= without(front, at));
        assert(without(outcomes, at).last() == outcomes.last());
    }
}

/// A failed fetch does not reach beyond itself: the states after the tick,
/// and the report on every other outcome of the tick, are what they would be
/// had the failed fetch not been part of the tick.
pub proof fn a_failed_fetch_is_isolated(
    states: Map<Seq<char>, Option<Seq<char>>>,
    outcomes: Seq<OutcomeView>,
    at: int,
    tick_interval_seconds: u64,
)
    requires
        0 <= at < outcomes.len(),
        outcomes[at] is Err,
    ensures
        states_after_all(states, outcomes) == states_after_all(states, without(outcomes, at)),
        forall|i: int|
            0 <= i < at ==> #[trigger] reports_for(states, outcomes, tick_interval_seconds)[i]
                == reports_for(states, without(outcomes, at), tick_interval_seconds)[i],
        forall|i: int|
            at < i < outcomes.len() ==> #[trigger] reports_for(
                states,
                outcomes,
                tick_interval_seconds,
            )[i] == reports_for(states, without(outcomes, at), tick_interval_seconds)[i - 1],
{
    lemma_states_skip_failure(states, outcomes, at);
    let rest = without(outcomes, at);
    assert forall|i: int| 0 <= i < at implies #[trigger] reports_for(
        states,
        outcomes,
        tick_interval_seconds,
    )[i] == reports_for(states, rest, tick_interval_seconds)[i] by {
        assert(rest.take(i) =~= outcomes.take(i));
        assert(rest[i] == outcomes[i]);
    }
    assert forall|i: int| at < i < outcomes.len() implies #[trigger] reports_for(
        states,
        outcomes,
        tick_interval_seconds,
    )[i] == reports_for(states, rest, tick_interval_seconds)[i - 1] by {
        let before = outcomes.take(i);
        assert(before[at] == outcomes[at]);
        lemma_states_skip_failure(states, before, at);
        assert(rest.take(i - 1) =~= without(before, at));
        assert(rest[i - 1] == outcomes[i]);
    }
}

} // verus!
