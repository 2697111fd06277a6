//! The settings that the tracker is started with.
//!
//! Loading them is the caller's business. What is loaded is checked once and
//! kept in a [`SettingsSlot`], which is filled at most once and read from then
//! on.

use crate::error::ConfigurationError;
use vstd::prelude::*;

verus! {

/// Settings of the presence service.
#[derive(Clone, Debug, PartialEq, Eq)]
pub struct SteamConfig {
    /// The credential that the service asks for; opaque to the tracker.
    pub api_key: String,
    /// The tick interval in seconds; must be positive.
    pub polling_interval_seconds: u16,
    /// The identities to track; must not be empty.
    pub steam_ids: Vec<String>,
}

/// The protocol by which telemetry is exported.
#[derive(Clone, Copy, Debug, PartialEq, Eq)]
pub enum OtlpProtocol {
    Tonic,
    Http,
}

/// Settings of the telemetry export.
#[derive(Clone, Debug, PartialEq, Eq)]
pub struct OtlpConfig {
    pub collector_endpoint: String,
    pub protocol: OtlpProtocol,
    pub log_level: String,
    pub enable_stdout: bool,
}

/// All settings of the process.
#[derive(Clone, Debug, PartialEq, Eq)]
pub struct Settings {
    pub service_name: String,
    pub steam: SteamConfig,
    pub otlp_config: OtlpConfig,
}

impl SteamConfig {
    /// What is wrong with the settings, if anything: an empty list of
    /// identities comes before a zero interval.
    pub open spec fn fault(&self) -> Option<ConfigurationError> {
        if self.steam_ids@.len() == 0 {
            Some(ConfigurationError::NoIdentities)
        } else if self.polling_interval_seconds == 0 {
            Some(ConfigurationError::ZeroInterval)
        } else {
            None
        }
    }

    /// Checks that there is an identity to track and that the tick interval
    /// is positive.
    pub fn validate(&self) -> (r: Result<(), ConfigurationError>)
        ensures
            match r {
                Ok(_) => self.fault() is None,
                Err(e) => self.fault() == Some(e),
            },
    {
        if self.steam_ids.len() == 0 {
            Err(ConfigurationError::NoIdentities)
        } else if self.polling_interval_seconds == 0 {
            Err(ConfigurationError::ZeroInterval)
        } else {
            Ok(())
        }
    }
}

/// The place of the settings of the process: empty until they are set, and
/// set at most once.
pub struct SettingsSlot {
    value: Option<Settings>,
}

impl SettingsSlot {
    /// Whether the settings have been set.
    pub closed spec fn is_set(&self) -> bool {
        self.value is Some
    }

    /// The settings that the slot holds, where it is set.
    pub closed spec fn settings(&self) -> Settings
        recommends
            self.is_set(),
    {
        self.value->0
    }

    /// An empty slot.
    pub fn new() -> (slot: SettingsSlot)
        ensures
            !slot.is_set(),
    {
        SettingsSlot { value: None }
    }

    /// Whether the settings have been set.
    pub fn is_initialized(&self) -> (r: bool)
        ensures
            r == self.is_set(),
    {
        self.value.is_some()
    }
}

impl Settings {
    /// Puts `settings` into the empty `slot` if they are valid. Invalid
    /// settings are refused with the fault found, and the slot stays empty.
    pub fn init(slot: &mut SettingsSlot, settings: Settings) -> (r: Result<
        (),
        ConfigurationError,
    >)
        requires
            !old(slot).is_set(),
        ensures
            match r {
                Ok(_) => {
                    &&& settings.steam.fault() is None
                    &&& final(slot).is_set()
                    &&& final(slot).settings() == settings
                },
                Err(e) => settings.steam.fault() == Some(e) && !final(slot).is_set(),
            },
    {
        match settings.steam.validate() {
            Ok(_) => {
                slot.value = Some(settings);
                Ok(())
            },
            Err(e) => Err(e),
        }
    }

    /// The settings in `slot`, which must have been set.
    pub fn get(slot: &SettingsSlot) -> (settings: &Settings)
        requires
            slot.is_set(),
        ensures
            *settings == slot.settings(),
    {
        slot.value.as_ref().unwrap()
    }
}

} // verus!
