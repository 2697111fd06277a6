//! The metrics emitter adapter: what each event means for the instruments.
//!
//! Nothing is sent from here. The functions of this module say which counter
//! is to be increased, by how much and under which labels; the caller hands
//! the updates to the metrics sink, which may drop them without affecting the
//! session state.

use crate::session::EventView;
use crate::session::TransitionEvent;
use vstd::prelude::*;
use vstd::string::StringExecFns;

verus! {

/// The instruments of the tracker.
#[derive(Clone, Copy, Debug, PartialEq, Eq)]
pub enum Instrument {
    /// Histogram of the duration of requests to the summary endpoint.
    SummaryLatency,
    /// Counter of failed requests to the summary endpoint.
    SummaryErrorsTotal,
    /// Counter of the seconds spent in an activity.
    GameTimeTotal,
}

impl Instrument {
    /// The name under which the instrument is registered.
    pub open spec fn name_of(self) -> Seq<char> {
        match self {
            Instrument::SummaryLatency => "steam_summary_latency"@,
            Instrument::SummaryErrorsTotal => "steam_summary_errors_total"@,
            Instrument::GameTimeTotal => "steam_game_time_total"@,
        }
    }

    /// The description with which the instrument is registered.
    pub open spec fn description_of(self) -> Seq<char> {
        match self {
            Instrument::SummaryLatency =>
                "The duration of requests to the steam summary handler in milliseconds."@,
            Instrument::SummaryErrorsTotal =>
                "The total number of failed requests to the steam summary handler."@,
            Instrument::GameTimeTotal => "The total time in seconds spent playing a game."@,
        }
    }

    /// The name under which the instrument is registered.
    pub fn name(&self) -> (r: &'static str)
        ensures
            r@ == self.name_of(),
    {
        match self {
            Instrument::SummaryLatency => "steam_summary_latency",
            Instrument::SummaryErrorsTotal => "steam_summary_errors_total",
            Instrument::GameTimeTotal => "steam_game_time_total",
        }
    }

    /// The description with which the instrument is registered.
    pub fn description(&self) -> (r: &'static str)
        ensures
            r@ == self.description_of(),
    {
        match self {
            Instrument::SummaryLatency =>
                "The duration of requests to the steam summary handler in milliseconds.",
            Instrument::SummaryErrorsTotal =>
                "The total number of failed requests to the steam summary handler.",
            Instrument::GameTimeTotal => "The total time in seconds spent playing a game.",
        }
    }
}

/// One label of a metric update.
#[derive(Clone, Debug, PartialEq, Eq)]
pub struct Label {
    pub key: String,
    pub value: String,
}

/// The mathematical content of a [`Label`].
pub ghost struct LabelView {
    pub key: Seq<char>,
    pub value: Seq<char>,
}

impl View for Label {
    type V = LabelView;

    open spec fn view(&self) -> LabelView {
        LabelView { key: self.key@, value: self.value@ }
    }
}

/// An increase of a counter.
#[derive(Clone, Debug, PartialEq, Eq)]
pub struct CounterAdd {
    pub instrument: Instrument,
    pub value: u64,
    pub labels: Vec<Label>,
}

/// The mathematical content of a [`CounterAdd`].
pub ghost struct CounterAddView {
    pub instrument: Instrument,
    pub value: u64,
    pub labels: Seq<LabelView>,
}

impl View for CounterAdd {
    type V = CounterAddView;

    open spec fn view(&self) -> CounterAddView {
        CounterAddView {
            instrument: self.instrument,
            value: self.value,
            labels: Seq::new(self.labels@.len(), |i: int| self.labels@[i]@),
        }
    }
}

/// The views of a list of counter updates, in order.
pub open spec fn updates_view(updates: Seq<CounterAdd>) -> Seq<CounterAddView> {
    Seq::new(updates.len(), |i: int| updates[i]@)
}

/// The update that credits `elapsed_seconds` of `activity` to `identity`.
pub open spec fn game_time_update(
    identity: Seq<char>,
    activity: Seq<char>,
    elapsed_seconds: u64,
) -> CounterAddView {
    CounterAddView {
        instrument: Instrument::GameTimeTotal,
        value: elapsed_seconds,
        labels: seq![
            LabelView { key: "game_id"@, value: activity },
            LabelView { key: "steam_id"@, value: identity },
        ],
    }
}

/// The update that counts one failed fetch for `identity`.
pub open spec fn fetch_failure_update(identity: Seq<char>) -> CounterAddView {
    CounterAddView {
        instrument: Instrument::SummaryErrorsTotal,
        value: 1,
        labels: seq![LabelView { key: "steam_id"@, value: identity }],
    }
}

/// The updates that an event of `identity` calls for: a continuation credits
/// its elapsed seconds to the activity, every other event is informational.
pub open spec fn updates_for(identity: Seq<char>, event: EventView) -> Seq<CounterAddView> {
    match event {
        EventView::Continued { activity_id, elapsed_seconds } => seq![
            game_time_update(identity, activity_id, elapsed_seconds),
        ],
        _ => Seq::empty(),
    }
}

/// The counter updates for one event of `identity`.
pub fn emit(identity: &str, event: &TransitionEvent) -> (updates: Vec<CounterAdd>)
    ensures
        updates_view(updates@) == updates_for(identity@, event@),
{
    let mut updates: Vec<CounterAdd> = Vec::new();
    match event {
        TransitionEvent::Continued { activity_id, elapsed_seconds } => {
            let mut labels: Vec<Label> = Vec::new();
            labels.push(Label { key: String::from_str("game_id"), value: activity_id.clone() });
            labels.push(Label { key: String::from_str("steam_id"), value: identity.to_owned() });
            let update = CounterAdd {
                instrument: Instrument::GameTimeTotal,
                value: *elapsed_seconds,
                labels,
            };
            assert(update@.labels =~= game_time_update(
                identity@,
                activity_id@,
                *elapsed_seconds,
            ).labels);
            updates.push(update);
            assert(updates_view(updates@) =~= updates_for(identity@, event@));
        },
        _ => {
            assert(updates_view(updates@) =~= updates_for(identity@, event@));
        },
    }
    updates
}

/// The counter update for a failed fetch of `identity`.
pub fn fetch_failure(identity: &str) -> (update: CounterAdd)
    ensures
        update@ == fetch_failure_update(identity@),
{
    let mut labels: Vec<Label> = Vec::new();
    labels.push(Label { key: String::from_str("steam_id"), value: identity.to_owned() });
    let update = CounterAdd { instrument: Instrument::SummaryErrorsTotal, value: 1, labels };
    assert(update@.labels =~= fetch_failure_update(identity@).labels);
    update
}

} // verus!
