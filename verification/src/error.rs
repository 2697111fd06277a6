//! The errors of the tracker.

use vstd::prelude::*;

verus! {

/// A setting that the tracker cannot start without is missing or unusable.
/// Such an error is fatal: no poll cycle is scheduled.
#[derive(Clone, Copy, Debug, PartialEq, Eq)]
pub enum ConfigurationError {
    /// No API key was given, neither directly nor by the environment.
    MissingApiKey,
    /// No identities were given, neither directly nor by the environment.
    MissingSteamIds,
    /// The list of identities is empty.
    NoIdentities,
    /// The tick interval is zero.
    ZeroInterval,
}

impl ConfigurationError {
    /// The text of the error.
    pub open spec fn message_of(self) -> Seq<char> {
        match self {
            ConfigurationError::MissingApiKey => "STEAM_API_KEY not configured"@,
            ConfigurationError::MissingSteamIds => "STEAM_IDS not configured"@,
            ConfigurationError::NoIdentities => "no steam ids to track"@,
            ConfigurationError::ZeroInterval => "polling interval must be positive"@,
        }
    }

    /// The text of the error.
    pub fn message(&self) -> (r: &'static str)
        ensures
            r@ == self.message_of(),
    {
        match self {
            ConfigurationError::MissingApiKey => "STEAM_API_KEY not configured",
            ConfigurationError::MissingSteamIds => "STEAM_IDS not configured",
            ConfigurationError::NoIdentities => "no steam ids to track",
            ConfigurationError::ZeroInterval => "polling interval must be positive",
        }
    }
}

/// A poll of one identity that yielded no snapshot. The cause is kept for the
/// log; every failure is handled alike.
#[derive(Clone, Debug, PartialEq, Eq)]
pub struct FetchError {
    /// The identity whose poll failed.
    pub identity: String,
    /// What went wrong, in words.
    pub cause: String,
}

/// The mathematical content of a [`FetchError`].
pub ghost struct FetchErrorView {
    pub identity: Seq<char>,
    pub cause: Seq<char>,
}

impl View for FetchError {
    type V = FetchErrorView;

    open spec fn view(&self) -> FetchErrorView {
        FetchErrorView { identity: self.identity@, cause: self.cause@ }
    }
}

} // verus!
