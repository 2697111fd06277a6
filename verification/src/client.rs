//! The snapshot client: where to ask for the presence of an identity, and
//! what the answer says.
//!
//! The request itself is the caller's business. The client builds the address
//! to ask at, with the `url` crate, and turns the answer into a [`Snapshot`]
//! or a [`FetchError`]. It never retries.

use crate::error::FetchError;
use crate::error::FetchErrorView;
use crate::models::PlayerSummariesResponse;
use crate::session::Snapshot;
use crate::session::SnapshotView;
use url::ParseError;
use url::Url;
use vstd::prelude::*;
use vstd::std_specs::convert::FromSpecImpl;
use vstd::string::StringExecFns;
use vstd::utf8::encode_utf8;

verus! {

/// `url::Url`, a parsed URL. Nothing is known of what it holds but its text.
#[verifier::external_type_specification]
#[verifier::external_body]
pub struct ExUrl(Url);

/// `url::ParseError`, the reasons for which parsing a URL fails. It is an
/// enumeration without fields, which may grow.
#[verifier::external_type_specification]
pub struct ExParseError(ParseError);

/// The text that a URL is written as. A URL is determined by its text.
pub uninterp spec fn url_text(url: Url) -> Seq<char>;

/// What parsing `input` as an absolute URL gives: the text of the URL, or the
/// reason why `input` is none.
pub uninterp spec fn parsed_url(input: Seq<char>) -> Result<Seq<char>, ParseError>;

/// What resolving `reference` against the URL written as `base` gives: the
/// text of the resulting URL, or the reason why there is none.
pub uninterp spec fn joined_url(base: Seq<char>, reference: Seq<char>) -> Result<
    Seq<char>,
    ParseError,
>;

/// The text of the URL written as `url` after the pair of `name` and `value`
/// has been appended to its query in `application/x-www-form-urlencoded`
/// syntax.
pub uninterp spec fn url_with_pair(url: Seq<char>, name: Seq<char>, value: Seq<char>) -> Seq<
    char,
>;

/// `Url::as_str` returns the serialization of the URL.
pub assume_specification<'a>[ Url::as_str ](url: &'a Url) -> (text: &'a str)
    ensures
        text@ == url_text(*url),
;

/// `Url::parse` parses an absolute URL from a string, or returns the error
/// that stopped it. The result depends on the string alone.
pub assume_specification[ Url::parse ](input: &str) -> (r: Result<Url, ParseError>)
    ensures
        match r {
            Ok(url) => parsed_url(input@) == Ok::<Seq<char>, ParseError>(url_text(url)),
            Err(e) => parsed_url(input@) == Err::<Seq<char>, ParseError>(e),
        },
;

/// `Url::join` parses a string as a URL with the given URL as base, or
/// returns the error that stopped it. The result depends on the base and the
/// string alone.
pub assume_specification[ Url::join ](base: &Url, input: &str) -> (r: Result<Url, ParseError>)
    ensures
        match r {
            Ok(url) => joined_url(url_text(*base), input@) == Ok::<Seq<char>, ParseError>(
                url_text(url),
            ),
            Err(e) => joined_url(url_text(*base), input@) == Err::<Seq<char>, ParseError>(e),
        },
;

/// The length of `text` in bytes.
pub open spec fn byte_len(text: Seq<char>) -> nat {
    encode_utf8(text).len()
}

/// Whether the pair of `name` and `value` can be appended to the URL written
/// as `url` without the URL growing beyond what a URL can hold, four
/// gigabytes. Every byte of the pair may take three bytes in the query, and
/// two separators may be added.
pub open spec fn pair_fits(url: Seq<char>, name: Seq<char>, value: Seq<char>) -> bool {
    byte_len(url) + 3 * (byte_len(name) + byte_len(value)) + 2 <= u32::MAX
}

/// `Url::query_pairs_mut` followed by `Serializer::append_pair` appends one
/// pair to the query of the URL. The two stop the program where the URL would
/// grow beyond four gigabytes, which the condition excludes.
#[verifier::external_body]
fn append_query_pair(url: &mut Url, name: &str, value: &str)
    requires
        pair_fits(url_text(*old(url)), name@, value@),
    ensures
        url_text(*final(url)) == url_with_pair(url_text(*old(url)), name@, value@),
{
    url.query_pairs_mut().append_pair(name, value);
}

/// Why a text is no URL.
#[derive(Clone, Copy, Debug, PartialEq, Eq)]
pub enum UrlFault {
    EmptyHost,
    IdnaError,
    InvalidPort,
    InvalidIpv4Address,
    InvalidIpv6Address,
    InvalidDomainCharacter,
    RelativeUrlWithoutBase,
    RelativeUrlWithCannotBeABaseBase,
    SetHostOnCannotBeABaseUrl,
    Overflow,
    /// A reason that this library does not know by name.
    Other,
}

impl UrlFault {
    /// The fault that `error` stands for, name by name.
    pub open spec fn of(error: ParseError) -> UrlFault {
        match error {
            ParseError::EmptyHost => UrlFault::EmptyHost,
            ParseError::IdnaError => UrlFault::IdnaError,
            ParseError::InvalidPort => UrlFault::InvalidPort,
            ParseError::InvalidIpv4Address => UrlFault::InvalidIpv4Address,
            ParseError::InvalidIpv6Address => UrlFault::InvalidIpv6Address,
            ParseError::InvalidDomainCharacter => UrlFault::InvalidDomainCharacter,
            ParseError::RelativeUrlWithoutBase => UrlFault::RelativeUrlWithoutBase,
            ParseError::RelativeUrlWithCannotBeABaseBase =>
                UrlFault::RelativeUrlWithCannotBeABaseBase,
            ParseError::SetHostOnCannotBeABaseUrl => UrlFault::SetHostOnCannotBeABaseUrl,
            ParseError::Overflow => UrlFault::Overflow,
            _ => UrlFault::Other,
        }
    }
}

impl FromSpecImpl<ParseError> for UrlFault {
    open spec fn obeys_from_spec() -> bool {
        true
    }

    open spec fn from_spec(error: ParseError) -> UrlFault {
        UrlFault::of(error)
    }
}

impl From<ParseError> for UrlFault {
    /// The fault that `error` stands for, name by name.
    fn from(error: ParseError) -> (fault: UrlFault) {
        match error {
            ParseError::EmptyHost => UrlFault::EmptyHost,
            ParseError::IdnaError => UrlFault::IdnaError,
            ParseError::InvalidPort => UrlFault::InvalidPort,
            ParseError::InvalidIpv4Address => UrlFault::InvalidIpv4Address,
            ParseError::InvalidIpv6Address => UrlFault::InvalidIpv6Address,
            ParseError::InvalidDomainCharacter => UrlFault::InvalidDomainCharacter,
            ParseError::RelativeUrlWithoutBase => UrlFault::RelativeUrlWithoutBase,
            ParseError::RelativeUrlWithCannotBeABaseBase =>
                UrlFault::RelativeUrlWithCannotBeABaseBase,
            ParseError::SetHostOnCannotBeABaseUrl => UrlFault::SetHostOnCannotBeABaseUrl,
            ParseError::Overflow => UrlFault::Overflow,
            _ => UrlFault::Other,
        }
    }
}

/// Why the client cannot be made, or cannot say where to ask.
#[derive(Clone, Copy, Debug, PartialEq, Eq)]
pub enum ClientError {
    /// No API key was given.
    MissingApiKey,
    /// The address of the service, or the address to ask at, is no URL.
    InvalidUrl(UrlFault),
    /// The address to ask at would be longer than a URL can be.
    UrlTooLong,
}

/// The address of the service where none is given.
pub const DEFAULT_API_URL: &'static str = "http://api.steampowered.com/";

/// Where player summaries are asked for, relative to the address of the
/// service.
pub const PLAYER_SUMMARIES_ENDPOINT: &'static str = "ISteamUser/GetPlayerSummaries/v0002/";

/// The address that the client is made for: the one given, or the default.
pub open spec fn service_address(api_url: Option<String>) -> Seq<char> {
    match api_url {
        Some(address) => address@,
        None => DEFAULT_API_URL@,
    }
}

/// The address at which the summary of `steam_id` is asked for: the endpoint
/// resolved against `base`, with the key and the identity as its query.
pub open spec fn summaries_url(base: Seq<char>, api_key: Seq<char>, steam_id: Seq<char>) -> Result<
    Seq<char>,
    ClientError,
> {
    match joined_url(base, PLAYER_SUMMARIES_ENDPOINT@) {
        Err(e) => Err(ClientError::InvalidUrl(UrlFault::of(e))),
        Ok(endpoint) => {
            let keyed = url_with_pair(endpoint, "key"@, api_key);
            if !pair_fits(endpoint, "key"@, api_key) {
                Err(ClientError::UrlTooLong)
            } else if !pair_fits(keyed, "steamids"@, steam_id) {
                Err(ClientError::UrlTooLong)
            } else {
                Ok(url_with_pair(keyed, "steamids"@, steam_id))
            }
        },
    }
}

/// Whether a pair can be appended to `url`.
fn fits(url: &Url, name: &str, value: &str) -> (r: bool)
    ensures
        r == pair_fits(url_text(*url), name@, value@),
{
    let url_bytes = url.as_str().as_bytes().len();
    let name_bytes = name.as_bytes().len();
    let value_bytes = value.as_bytes().len();
    let total: u128 = url_bytes as u128 + 3 * (name_bytes as u128 + value_bytes as u128) + 2;
    total <= 0xffff_ffff
}

/// The client of the presence service.
pub struct SteamClient {
    api_key: String,
    api_url: Url,
}

impl SteamClient {
    /// The API key of the client.
    pub closed spec fn key(&self) -> Seq<char> {
        self.api_key@
    }

    /// The address of the service, as the client writes it.
    pub closed spec fn base(&self) -> Seq<char> {
        url_text(self.api_url)
    }

    /// A client for the service at `api_url`, or at the default address
    /// where none is given. A missing key is reported first, then an address
    /// that is no URL.
    pub fn new(api_key: Option<String>, api_url: Option<String>) -> (r: Result<
        SteamClient,
        ClientError,
    >)
        ensures
            match r {
                Ok(client) => {
                    &&& api_key is Some
                    &&& client.key() == api_key->0@
                    &&& parsed_url(service_address(api_url)) == Ok::<Seq<char>, ParseError>(
                        client.base(),
                    )
                },
                Err(ClientError::MissingApiKey) => api_key is None,
                Err(ClientError::InvalidUrl(fault)) => {
                    &&& api_key is Some
                    &&& parsed_url(service_address(api_url)) matches Err(e)
                    &&& fault == UrlFault::of(e)
                },
                Err(ClientError::UrlTooLong) => false,
            },
    {
        let api_key = match api_key {
            Some(key) => key,
            None => {
                return Err(ClientError::MissingApiKey);
            },
        };
        let parsed = match &api_url {
            Some(address) => Url::parse(address.as_str()),
            None => Url::parse(DEFAULT_API_URL),
        };
        match parsed {
            Ok(api_url) => Ok(SteamClient { api_key, api_url }),
            Err(e) => Err(ClientError::InvalidUrl(UrlFault::from(e))),
        }
    }

    /// The address of the service, as the client writes it.
    pub fn api_url(&self) -> (text: String)
        ensures
            text@ == self.base(),
    {
        String::from_str(self.api_url.as_str())
    }

    /// The address at which the summary of `steam_id` is asked for.
    pub fn player_summaries_url(&self, steam_id: &str) -> (r: Result<String, ClientError>)
        ensures
            match r {
                Ok(text) => summaries_url(self.base(), self.key(), steam_id@) == Ok::<
                    Seq<char>,
                    ClientError,
                >(text@),
                Err(e) => summaries_url(self.base(), self.key(), steam_id@) == Err::<
                    Seq<char>,
                    ClientError,
                >(e),
            },
    {
        let mut endpoint = match self.api_url.join(PLAYER_SUMMARIES_ENDPOINT) {
            Ok(endpoint) => endpoint,
            Err(e) => {
                return Err(ClientError::InvalidUrl(UrlFault::from(e)));
            },
        };
        if !fits(&endpoint, "key", self.api_key.as_str()) {
            return Err(ClientError::UrlTooLong);
        }
        append_query_pair(&mut endpoint, "key", self.api_key.as_str());
        if !fits(&endpoint, "steamids", steam_id) {
            return Err(ClientError::UrlTooLong);
        }
        append_query_pair(&mut endpoint, "steamids", steam_id);
        Ok(String::from_str(endpoint.as_str()))
    }
}

/// The cause of the failure where the answer of the service names no player.
pub const NO_PLAYER: &'static str = "the answer names no player";

/// What the answer of the service says about `identity` at `observed_at`:
/// the game of the first player that it names. An answer that names no
/// player is a failed fetch.
pub fn snapshot_of(identity: &str, response: &PlayerSummariesResponse, observed_at: u64) -> (r:
    Result<Snapshot, FetchError>)
    ensures
        match r {
            Ok(snapshot) => {
                &&& response.response.players@.len() > 0
                &&& snapshot@ == (SnapshotView {
                    identity: identity@,
                    activity_id: response.response.players@[0].game_id.deep_view(),
                    observed_at,
                })
            },
            Err(error) => {
                &&& response.response.players@.len() == 0
                &&& error@ == (FetchErrorView { identity: identity@, cause: NO_PLAYER@ })
            },
        },
{
    if response.response.players.len() == 0 {
        Err(FetchError { identity: identity.to_owned(), cause: String::from_str(NO_PLAYER) })
    } else {
        let activity_id = match &response.response.players[0].game_id {
            Some(game) => Some(game.clone()),
            None => None,
        };
        Ok(Snapshot { identity: identity.to_owned(), activity_id, observed_at })
    }
}

} // verus!
