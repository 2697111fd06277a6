use steam_tracker::session::{transition, SessionState, Snapshot, TransitionEvent};

fn snapshot(activity: Option<&str>) -> Snapshot {
    Snapshot {
        identity: "76561198000000001".to_string(),
        activity_id: activity.map(|a| a.to_string()),
        observed_at: 0,
    }
}

fn some(activity: &str) -> Option<String> {
    Some(activity.to_string())
}

#[test]
fn idle_stays_idle_for_any_interval() {
    for interval in [0u64, 1, 60, 3600, u64::MAX] {
        assert_eq!(transition(None, &snapshot(None), interval), (None, TransitionEvent::Idle));
    }
}

#[test]
fn start_opens_a_session() {
    assert_eq!(
        transition(None, &snapshot(Some("A")), 60),
        (some("A"), TransitionEvent::Started { activity_id: "A".to_string() })
    );
}

#[test]
fn continue_credits_one_interval() {
    assert_eq!(
        transition(some("A"), &snapshot(Some("A")), 60),
        (
            some("A"),
            TransitionEvent::Continued { activity_id: "A".to_string(), elapsed_seconds: 60 }
        )
    );
}

#[test]
fn switch_resets_without_credit() {
    assert_eq!(
        transition(some("A"), &snapshot(Some("B")), 60),
        (
            some("B"),
            TransitionEvent::SwitchedFromTo { old: "A".to_string(), new: "B".to_string() }
        )
    );
}

#[test]
fn stop_closes_the_session() {
    assert_eq!(
        transition(some("A"), &snapshot(None), 60),
        (None, TransitionEvent::Stopped { old: "A".to_string() })
    );
}

#[test]
fn repeated_calls_agree() {
    let first = transition(some("A"), &snapshot(Some("B")), 60);
    let second = transition(some("A"), &snapshot(Some("B")), 60);
    assert_eq!(first, second);
}

#[test]
fn continue_accumulates_sixty_per_tick() {
    for n in [0u64, 1, 2, 7, 100] {
        let mut state = SessionState { current_activity_id: some("A") };
        let mut total: u64 = 0;
        for _ in 0..n {
            match state.advance(&snapshot(Some("A")), 60) {
                TransitionEvent::Continued { activity_id, elapsed_seconds } => {
                    assert_eq!(activity_id, "A");
                    total += elapsed_seconds;
                }
                other => panic!("expected a continuation, got {:?}", other),
            }
        }
        assert_eq!(total, 60 * n);
        assert_eq!(state.current_activity_id, some("A"));
    }
}

#[test]
fn credit_after_switch_needs_a_second_sighting() {
    let mut state = SessionState { current_activity_id: some("A") };
    let switched = state.advance(&snapshot(Some("B")), 60);
    assert_eq!(
        switched,
        TransitionEvent::SwitchedFromTo { old: "A".to_string(), new: "B".to_string() }
    );
    let continued = state.advance(&snapshot(Some("B")), 60);
    assert_eq!(
        continued,
        TransitionEvent::Continued { activity_id: "B".to_string(), elapsed_seconds: 60 }
    );
}

#[test]
fn fresh_state_has_no_activity() {
    assert_eq!(SessionState::new().current_activity_id, None);
}
