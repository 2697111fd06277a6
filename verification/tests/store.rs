use steam_tracker::session::{SessionState, Snapshot, TransitionEvent};
use steam_tracker::store::SessionStore;

fn state(activity: Option<&str>) -> SessionState {
    SessionState { current_activity_id: activity.map(|a| a.to_string()) }
}

fn snapshot(identity: &str, activity: Option<&str>) -> Snapshot {
    Snapshot {
        identity: identity.to_string(),
        activity_id: activity.map(|a| a.to_string()),
        observed_at: 7,
    }
}

#[test]
fn unknown_identity_reads_as_no_activity() {
    let store = SessionStore::new();
    assert_eq!(store.get("X"), state(None));
    assert_eq!(store.get(""), state(None));
}

#[test]
fn reading_creates_nothing_observable() {
    let store = SessionStore::new();
    let first = store.get("X");
    let second = store.get("X");
    assert_eq!(first, second);
    assert_eq!(first, SessionState::new());
}

#[test]
fn set_replaces_the_state_of_its_identity() {
    let mut store = SessionStore::new();
    store.set("X", state(Some("A")));
    assert_eq!(store.get("X"), state(Some("A")));
    store.set("X", state(Some("B")));
    assert_eq!(store.get("X"), state(Some("B")));
    store.set("X", state(None));
    assert_eq!(store.get("X"), state(None));
}

#[test]
fn set_leaves_other_identities_alone() {
    let mut store = SessionStore::new();
    store.set("X", state(Some("A")));
    store.set("Y", state(Some("B")));
    store.set("X", state(Some("C")));
    assert_eq!(store.get("Y"), state(Some("B")));
    assert_eq!(store.get("X"), state(Some("C")));
    assert_eq!(store.get("Z"), state(None));
}

#[test]
fn identities_are_told_apart_exactly() {
    let mut store = SessionStore::new();
    store.set("x", state(Some("A")));
    assert_eq!(store.get("X"), state(None));
    assert_eq!(store.get("x "), state(None));
    assert_eq!(store.get("x"), state(Some("A")));
}

#[test]
fn update_is_read_transition_write() {
    let mut store = SessionStore::new();
    assert_eq!(
        store.update(&snapshot("X", Some("A")), 30),
        TransitionEvent::Started { activity_id: "A".to_string() }
    );
    assert_eq!(store.get("X"), state(Some("A")));
    assert_eq!(
        store.update(&snapshot("X", Some("A")), 30),
        TransitionEvent::Continued { activity_id: "A".to_string(), elapsed_seconds: 30 }
    );
    assert_eq!(
        store.update(&snapshot("X", Some("B")), 30),
        TransitionEvent::SwitchedFromTo { old: "A".to_string(), new: "B".to_string() }
    );
    assert_eq!(store.get("X"), state(Some("B")));
    assert_eq!(
        store.update(&snapshot("X", None), 30),
        TransitionEvent::Stopped { old: "B".to_string() }
    );
    assert_eq!(store.update(&snapshot("X", None), 30), TransitionEvent::Idle);
    assert_eq!(store.get("X"), state(None));
}

#[test]
fn updates_of_two_identities_do_not_mix() {
    let mut one = SessionStore::new();
    one.update(&snapshot("X", Some("A")), 60);
    one.update(&snapshot("Y", Some("B")), 60);
    let mut other = SessionStore::new();
    other.update(&snapshot("Y", Some("B")), 60);
    other.update(&snapshot("X", Some("A")), 60);
    for identity in ["X", "Y", "Z"] {
        assert_eq!(one.get(identity), other.get(identity));
    }
    assert_eq!(
        one.update(&snapshot("X", Some("A")), 60),
        TransitionEvent::Continued { activity_id: "A".to_string(), elapsed_seconds: 60 }
    );
    assert_eq!(
        one.update(&snapshot("Y", Some("A")), 60),
        TransitionEvent::SwitchedFromTo { old: "B".to_string(), new: "A".to_string() }
    );
}

#[test]
fn state_clone_is_equal() {
    let original = state(Some("A"));
    assert_eq!(original.clone(), original);
    assert_eq!(state(None).clone(), state(None));
}
