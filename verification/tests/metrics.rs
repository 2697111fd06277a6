use steam_tracker::metrics::{emit, fetch_failure, CounterAdd, Instrument, Label};
use steam_tracker::session::TransitionEvent;

fn label(key: &str, value: &str) -> Label {
    Label { key: key.to_string(), value: value.to_string() }
}

#[test]
fn continued_credits_the_game_time_counter() {
    let event = TransitionEvent::Continued { activity_id: "440".to_string(), elapsed_seconds: 60 };
    assert_eq!(
        emit("76561198000000001", &event),
        vec![CounterAdd {
            instrument: Instrument::GameTimeTotal,
            value: 60,
            labels: vec![label("game_id", "440"), label("steam_id", "76561198000000001")],
        }]
    );
}

#[test]
fn other_events_emit_nothing() {
    let events = [
        TransitionEvent::Started { activity_id: "440".to_string() },
        TransitionEvent::SwitchedFromTo { old: "440".to_string(), new: "570".to_string() },
        TransitionEvent::Stopped { old: "440".to_string() },
        TransitionEvent::Idle,
    ];
    for event in events.iter() {
        assert_eq!(emit("X", event), vec![]);
    }
}

#[test]
fn zero_interval_is_still_emitted() {
    let event = TransitionEvent::Continued { activity_id: "A".to_string(), elapsed_seconds: 0 };
    let updates = emit("X", &event);
    assert_eq!(updates.len(), 1);
    assert_eq!(updates[0].value, 0);
}

#[test]
fn fetch_failure_counts_one_error_for_the_identity() {
    assert_eq!(
        fetch_failure("X"),
        CounterAdd {
            instrument: Instrument::SummaryErrorsTotal,
            value: 1,
            labels: vec![label("steam_id", "X")],
        }
    );
}

#[test]
fn instrument_names_and_descriptions() {
    assert_eq!(Instrument::SummaryLatency.name(), "steam_summary_latency");
    assert_eq!(Instrument::SummaryErrorsTotal.name(), "steam_summary_errors_total");
    assert_eq!(Instrument::GameTimeTotal.name(), "steam_game_time_total");
    assert_eq!(
        Instrument::SummaryLatency.description(),
        "The duration of requests to the steam summary handler in milliseconds."
    );
    assert_eq!(
        Instrument::SummaryErrorsTotal.description(),
        "The total number of failed requests to the steam summary handler."
    );
    assert_eq!(
        Instrument::GameTimeTotal.description(),
        "The total time in seconds spent playing a game."
    );
}
