use steam_tracker::client::{
    snapshot_of, ClientError, SteamClient, UrlFault, DEFAULT_API_URL, NO_PLAYER,
    PLAYER_SUMMARIES_ENDPOINT,
};
use steam_tracker::error::FetchError;
use steam_tracker::models::{
    CommunityVisibilityState, PlayerInfo, PlayerState, PlayerSummariesResponse, PlayersArray,
};
use steam_tracker::session::Snapshot;

fn client(url: Option<&str>) -> SteamClient {
    SteamClient::new(Some("KEY".to_string()), url.map(|u| u.to_string())).ok().unwrap()
}

fn player(steam_id: &str, game: Option<&str>) -> PlayerInfo {
    PlayerInfo {
        steam_id: steam_id.to_string(),
        persona_name: Some("someone".to_string()),
        profile_url: "https://steamcommunity.com/id/someone/".to_string(),
        avatar: None,
        avatar_medium: None,
        avatar_full: None,
        persona_state: PlayerState::Online,
        community_visibility_state: CommunityVisibilityState::Public,
        profile_state: true,
        last_logoff: Some(1700000000),
        comment_permission: false,
        real_name: None,
        primary_clan_id: None,
        time_created: None,
        game_id: game.map(|g| g.to_string()),
        game_server_ip: None,
        game_extra_info: None,
        loc_country_code: None,
        loc_state_code: None,
        loc_city_id: None,
    }
}

fn answer(players: Vec<PlayerInfo>) -> PlayerSummariesResponse {
    PlayerSummariesResponse { response: PlayersArray { players } }
}

#[test]
fn constants() {
    assert_eq!(DEFAULT_API_URL, "http://api.steampowered.com/");
    assert_eq!(PLAYER_SUMMARIES_ENDPOINT, "ISteamUser/GetPlayerSummaries/v0002/");
}

#[test]
fn client_needs_a_key() {
    assert!(matches!(SteamClient::new(None, None), Err(ClientError::MissingApiKey)));
    assert!(matches!(
        SteamClient::new(None, Some("not a url".to_string())),
        Err(ClientError::MissingApiKey)
    ));
}

#[test]
fn client_defaults_to_the_public_address() {
    assert_eq!(client(None).api_url(), "http://api.steampowered.com/");
}

#[test]
fn client_writes_the_address_as_a_url() {
    assert_eq!(client(Some("HTTP://Example.COM")).api_url(), "http://example.com/");
    assert_eq!(client(Some("http://localhost:8080/api")).api_url(), "http://localhost:8080/api");
}

#[test]
fn client_refuses_what_is_no_url() {
    assert!(matches!(
        SteamClient::new(Some("k".to_string()), Some("api.steampowered.com".to_string())),
        Err(ClientError::InvalidUrl(UrlFault::RelativeUrlWithoutBase))
    ));
    assert!(matches!(
        SteamClient::new(Some("k".to_string()), Some("http://".to_string())),
        Err(ClientError::InvalidUrl(UrlFault::EmptyHost))
    ));
    assert!(matches!(
        SteamClient::new(Some("k".to_string()), Some("http://host:99999/".to_string())),
        Err(ClientError::InvalidUrl(UrlFault::InvalidPort))
    ));
}

#[test]
fn summaries_address_carries_key_and_identity() {
    assert_eq!(
        client(None).player_summaries_url("76561198000000001").ok().unwrap(),
        "http://api.steampowered.com/ISteamUser/GetPlayerSummaries/v0002/?key=KEY&steamids=76561198000000001"
    );
}

#[test]
fn summaries_address_is_resolved_against_the_base() {
    assert_eq!(
        client(Some("http://localhost:8080/mock/")).player_summaries_url("1").ok().unwrap(),
        "http://localhost:8080/mock/ISteamUser/GetPlayerSummaries/v0002/?key=KEY&steamids=1"
    );
    assert_eq!(
        client(Some("http://localhost:8080/mock?x=1#top")).player_summaries_url("1").ok().unwrap(),
        "http://localhost:8080/ISteamUser/GetPlayerSummaries/v0002/?key=KEY&steamids=1"
    );
}

#[test]
fn summaries_address_encodes_the_query() {
    let client =
        SteamClient::new(Some("a b&c".to_string()), Some("http://h/".to_string())).ok().unwrap();
    assert_eq!(
        client.player_summaries_url("1,2 é").ok().unwrap(),
        "http://h/ISteamUser/GetPlayerSummaries/v0002/?key=a+b%26c&steamids=1%2C2+%C3%A9"
    );
}

#[test]
fn summaries_address_needs_a_base_that_can_be_one() {
    let client = client(Some("mailto:someone@example.com"));
    assert!(matches!(
        client.player_summaries_url("1"),
        Err(ClientError::InvalidUrl(UrlFault::RelativeUrlWithCannotBeABaseBase))
    ));
}

#[test]
fn url_faults_are_named_after_the_parse_errors() {
    assert_eq!(UrlFault::from(url::ParseError::EmptyHost), UrlFault::EmptyHost);
    assert_eq!(UrlFault::from(url::ParseError::IdnaError), UrlFault::IdnaError);
    assert_eq!(UrlFault::from(url::ParseError::InvalidPort), UrlFault::InvalidPort);
    assert_eq!(UrlFault::from(url::ParseError::InvalidIpv4Address), UrlFault::InvalidIpv4Address);
    assert_eq!(UrlFault::from(url::ParseError::InvalidIpv6Address), UrlFault::InvalidIpv6Address);
    assert_eq!(
        UrlFault::from(url::ParseError::InvalidDomainCharacter),
        UrlFault::InvalidDomainCharacter
    );
    assert_eq!(
        UrlFault::from(url::ParseError::RelativeUrlWithoutBase),
        UrlFault::RelativeUrlWithoutBase
    );
    assert_eq!(
        UrlFault::from(url::ParseError::RelativeUrlWithCannotBeABaseBase),
        UrlFault::RelativeUrlWithCannotBeABaseBase
    );
    assert_eq!(
        UrlFault::from(url::ParseError::SetHostOnCannotBeABaseUrl),
        UrlFault::SetHostOnCannotBeABaseUrl
    );
    assert_eq!(UrlFault::from(url::ParseError::Overflow), UrlFault::Overflow);
}

#[test]
fn snapshot_takes_the_game_of_the_first_player() {
    assert_eq!(
        snapshot_of("X", &answer(vec![player("X", Some("440")), player("Y", Some("570"))]), 12),
        Ok(Snapshot { identity: "X".to_string(), activity_id: Some("440".to_string()), observed_at: 12 })
    );
}

#[test]
fn snapshot_of_a_player_without_a_game_has_no_activity() {
    assert_eq!(
        snapshot_of("X", &answer(vec![player("X", None)]), 0),
        Ok(Snapshot { identity: "X".to_string(), activity_id: None, observed_at: 0 })
    );
}

#[test]
fn an_answer_without_players_is_a_failed_fetch() {
    assert_eq!(
        snapshot_of("X", &answer(vec![]), 3),
        Err(FetchError { identity: "X".to_string(), cause: NO_PLAYER.to_string() })
    );
    assert_eq!(NO_PLAYER, "the answer names no player");
}
