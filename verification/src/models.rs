//! The answer of the presence service to a request for player summaries.

use vstd::prelude::*;

verus! {

/// Who may see a profile.
#[derive(Clone, Copy, Debug, PartialEq, Eq)]
pub enum CommunityVisibilityState {
    Private,
    Public,
    Unknown,
}

impl CommunityVisibilityState {
    /// The visibility that the service writes as `code`: 1 is private, 3 is
    /// public, and every other number is unknown.
    pub open spec fn of_code(code: u8) -> CommunityVisibilityState {
        if code == 1 {
            CommunityVisibilityState::Private
        } else if code == 3 {
            CommunityVisibilityState::Public
        } else {
            CommunityVisibilityState::Unknown
        }
    }
}

impl Default for CommunityVisibilityState {
    fn default() -> (r: CommunityVisibilityState)
        ensures
            r == CommunityVisibilityState::Unknown,
    {
        CommunityVisibilityState::Unknown
    }
}

impl vstd::std_specs::convert::TryFromSpecImpl<u8> for CommunityVisibilityState {
    open spec fn obeys_try_from_spec() -> bool {
        true
    }

    open spec fn try_from_spec(value: u8) -> Result<CommunityVisibilityState, ()> {
        Ok(CommunityVisibilityState::of_code(value))
    }
}

impl TryFrom<u8> for CommunityVisibilityState {
    type Error = ();

    /// Reads a visibility code. Every code is read; none is refused.
    fn try_from(value: u8) -> (r: Result<CommunityVisibilityState, ()>)
        ensures
            r == Ok::<CommunityVisibilityState, ()>(CommunityVisibilityState::of_code(value)),
    {
        match value {
            1 => Ok(CommunityVisibilityState::Private),
            3 => Ok(CommunityVisibilityState::Public),
            _ => Ok(CommunityVisibilityState::Unknown),
        }
    }
}

/// What a player is doing, as the player chose to show it.
#[derive(Clone, Copy, Debug, PartialEq, Eq)]
pub enum PlayerState {
    Offline,
    Online,
    Busy,
    Away,
    Snooze,
    LookingToTrade,
    LookingToPlay,
    Unknown,
}

impl PlayerState {
    /// The state that the service writes as `code`: 0 to 6 are the known
    /// states in order, and every other number is unknown.
    pub open spec fn of_code(code: u8) -> PlayerState {
        if code == 0 {
            PlayerState::Offline
        } else if code == 1 {
            PlayerState::Online
        } else if code == 2 {
            PlayerState::Busy
        } else if code == 3 {
            PlayerState::Away
        } else if code == 4 {
            PlayerState::Snooze
        } else if code == 5 {
            PlayerState::LookingToTrade
        } else if code == 6 {
            PlayerState::LookingToPlay
        } else {
            PlayerState::Unknown
        }
    }
}

impl Default for PlayerState {
    fn default() -> (r: PlayerState)
        ensures
            r == PlayerState::Unknown,
    {
        PlayerState::Unknown
    }
}

impl vstd::std_specs::convert::TryFromSpecImpl<u8> for PlayerState {
    open spec fn obeys_try_from_spec() -> bool {
        true
    }

    open spec fn try_from_spec(value: u8) -> Result<PlayerState, ()> {
        Ok(PlayerState::of_code(value))
    }
}

impl TryFrom<u8> for PlayerState {
    type Error = ();

    /// Reads a state code. Every code is read; none is refused.
    fn try_from(value: u8) -> (r: Result<PlayerState, ()>)
        ensures
            r == Ok::<PlayerState, ()>(PlayerState::of_code(value)),
    {
        match value {
            0 => Ok(PlayerState::Offline),
            1 => Ok(PlayerState::Online),
            2 => Ok(PlayerState::Busy),
            3 => Ok(PlayerState::Away),
            4 => Ok(PlayerState::Snooze),
            5 => Ok(PlayerState::LookingToTrade),
            6 => Ok(PlayerState::LookingToPlay),
            _ => Ok(PlayerState::Unknown),
        }
    }
}

/// Reads a flag that the service writes as the number 1: a flag that is
/// absent or holds another number is off.
pub fn one_to_bool(value: Option<u8>) -> (r: bool)
    ensures
        r == (value == Some(1u8)),
{
    match value {
        Some(v) => v == 1,
        None => false,
    }
}

/// The summary of one player.
#[derive(Clone, Debug, PartialEq, Eq)]
pub struct PlayerInfo {
    pub steam_id: String,
    pub persona_name: Option<String>,
    pub profile_url: String,
    pub avatar: Option<String>,
    pub avatar_medium: Option<String>,
    pub avatar_full: Option<String>,
    pub persona_state: PlayerState,
    pub community_visibility_state: CommunityVisibilityState,
    pub profile_state: bool,
    pub last_logoff: Option<u64>,
    pub comment_permission: bool,
    pub real_name: Option<String>,
    pub primary_clan_id: Option<String>,
    pub time_created: Option<u64>,
    /// The game that the player is in, where the player is in one and shows it.
    pub game_id: Option<String>,
    pub game_server_ip: Option<String>,
    pub game_extra_info: Option<String>,
    pub loc_country_code: Option<String>,
    pub loc_state_code: Option<String>,
    pub loc_city_id: Option<u32>,
}

/// The players of an answer.
#[derive(Clone, Debug, PartialEq, Eq)]
pub struct PlayersArray {
    pub players: Vec<PlayerInfo>,
}

/// The answer to a request for player summaries.
#[derive(Clone, Debug, PartialEq, Eq)]
pub struct PlayerSummariesResponse {
    pub response: PlayersArray,
}

} // verus!
