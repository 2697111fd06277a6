use steam_tracker::models::{one_to_bool, CommunityVisibilityState, PlayerState};

#[test]
fn player_state_codes() {
    let expected = [
        PlayerState::Offline,
        PlayerState::Online,
        PlayerState::Busy,
        PlayerState::Away,
        PlayerState::Snooze,
        PlayerState::LookingToTrade,
        PlayerState::LookingToPlay,
    ];
    for (code, state) in expected.iter().enumerate() {
        assert_eq!(PlayerState::try_from(code as u8), Ok(*state));
    }
}

#[test]
fn unknown_player_state_codes() {
    for code in 7..=u8::MAX {
        assert_eq!(PlayerState::try_from(code), Ok(PlayerState::Unknown));
    }
}

#[test]
fn visibility_codes() {
    assert_eq!(CommunityVisibilityState::try_from(1), Ok(CommunityVisibilityState::Private));
    assert_eq!(CommunityVisibilityState::try_from(3), Ok(CommunityVisibilityState::Public));
    for code in [0u8, 2, 4, 5, 100, 255] {
        assert_eq!(CommunityVisibilityState::try_from(code), Ok(CommunityVisibilityState::Unknown));
    }
}

#[test]
fn defaults_are_unknown() {
    assert_eq!(PlayerState::default(), PlayerState::Unknown);
    assert_eq!(CommunityVisibilityState::default(), CommunityVisibilityState::Unknown);
}

#[test]
fn only_one_is_true() {
    assert!(one_to_bool(Some(1)));
    assert!(!one_to_bool(Some(0)));
    assert!(!one_to_bool(Some(2)));
    assert!(!one_to_bool(Some(255)));
    assert!(!one_to_bool(None));
}
