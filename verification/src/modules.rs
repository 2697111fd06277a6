//! Tracker modules: what a module is configured with, and how the module for
//! the presence service is built.

use crate::error::ConfigurationError;
use crate::metrics::Instrument;
use crate::text::comma_separated;
use crate::text::split_comma_separated;
use std::time::Duration;
use vstd::prelude::*;

verus! {

/// The length of a duration in nanoseconds.
pub uninterp spec fn duration_nanos(duration: Duration) -> nat;

/// `Duration::from_secs` makes a duration of that many whole seconds.
pub assume_specification[ Duration::from_secs ](secs: u64) -> (duration: Duration)
    ensures
        duration_nanos(duration) == secs * 1_000_000_000,
;

/// What every module is configured with.
#[derive(Debug)]
pub struct ModuleConfig {
    pub poll_interval: Duration,
    pub enabled: bool,
    pub max_retries: u32,
}

impl Clone for ModuleConfig {
    fn clone(&self) -> (config: ModuleConfig)
        ensures
            config == *self,
    {
        ModuleConfig {
            poll_interval: self.poll_interval,
            enabled: self.enabled,
            max_retries: self.max_retries,
        }
    }
}

impl Default for ModuleConfig {
    /// Polling every minute, enabled, with three retries.
    fn default() -> (config: ModuleConfig)
        ensures
            duration_nanos(config.poll_interval) == 60 * 1_000_000_000,
            config.enabled,
            config.max_retries == 3,
    {
        ModuleConfig { poll_interval: Duration::from_secs(60), enabled: true, max_retries: 3 }
    }
}

/// The module that tracks the presence service.
pub struct SteamModule {
    api_key: String,
    steam_ids: Vec<String>,
    poll_interval: Duration,
    max_retries: u32,
    enabled: bool,
}

/// The mathematical content of a [`SteamModule`].
pub ghost struct SteamModuleView {
    pub api_key: Seq<char>,
    pub steam_ids: Seq<Seq<char>>,
    pub poll_interval: Duration,
    pub max_retries: u32,
    pub enabled: bool,
}

impl View for SteamModule {
    type V = SteamModuleView;

    closed spec fn view(&self) -> SteamModuleView {
        SteamModuleView {
            api_key: self.api_key@,
            steam_ids: self.steam_ids.deep_view(),
            poll_interval: self.poll_interval,
            max_retries: self.max_retries,
            enabled: self.enabled,
        }
    }
}

/// The instruments of the module, in the order in which they are registered.
pub open spec fn all_instruments() -> Seq<Instrument> {
    seq![Instrument::SummaryLatency, Instrument::SummaryErrorsTotal, Instrument::GameTimeTotal]
}

impl SteamModule {
    /// The name of the module.
    pub fn name(&self) -> (name: &'static str)
        ensures
            name@ == "steam"@,
    {
        "steam"
    }

    /// The instruments to register for the module: all of them where the
    /// module is enabled, none where it is not.
    pub fn instruments(&self) -> (instruments: Vec<Instrument>)
        ensures
            instruments@ == if self@.enabled {
                all_instruments()
            } else {
                Seq::<Instrument>::empty()
            },
    {
        let mut instruments: Vec<Instrument> = Vec::new();
        if self.enabled {
            instruments.push(Instrument::SummaryLatency);
            instruments.push(Instrument::SummaryErrorsTotal);
            instruments.push(Instrument::GameTimeTotal);
            assert(instruments@ =~= all_instruments());
        }
        instruments
    }

    /// The API key of the module.
    pub fn api_key(&self) -> (key: &str)
        ensures
            key@ == self@.api_key,
    {
        self.api_key.as_str()
    }

    /// The identities that the module tracks.
    pub fn steam_ids(&self) -> (ids: &Vec<String>)
        ensures
            ids.deep_view() == self@.steam_ids,
    {
        &self.steam_ids
    }

    /// The interval between two polls.
    pub fn poll_interval(&self) -> (interval: Duration)
        ensures
            interval == self@.poll_interval,
    {
        self.poll_interval
    }

    /// How often a failed poll may be tried again.
    pub fn max_retries(&self) -> (retries: u32)
        ensures
            retries == self@.max_retries,
    {
        self.max_retries
    }

    /// Whether the module is enabled.
    pub fn is_enabled(&self) -> (enabled: bool)
        ensures
            enabled == self@.enabled,
    {
        self.enabled
    }
}

/// Builds a [`SteamModule`] from what is given directly and, for what is not,
/// from the environment.
pub struct SteamModuleBuilder {
    api_key: Option<String>,
    steam_ids: Option<Vec<String>>,
    config: ModuleConfig,
}

/// The mathematical content of a [`SteamModuleBuilder`].
pub ghost struct SteamModuleBuilderView {
    pub api_key: Option<Seq<char>>,
    pub steam_ids: Option<Seq<Seq<char>>>,
    pub config: ModuleConfig,
}

impl View for SteamModuleBuilder {
    type V = SteamModuleBuilderView;

    closed spec fn view(&self) -> SteamModuleBuilderView {
        SteamModuleBuilderView {
            api_key: self.api_key.deep_view(),
            steam_ids: self.steam_ids.deep_view(),
            config: self.config,
        }
    }
}

/// The API key that a module is built with: the one given directly, else the
/// one of the environment.
pub open spec fn chosen_api_key(
    given: Option<Seq<char>>,
    from_environment: Option<Seq<char>>,
) -> Option<Seq<char>> {
    match given {
        Some(key) => Some(key),
        None => from_environment,
    }
}

/// The identities that a module is built with: those given directly, else
/// those that the environment lists, separated by commas.
pub open spec fn chosen_steam_ids(
    given: Option<Seq<Seq<char>>>,
    from_environment: Option<Seq<char>>,
) -> Option<Seq<Seq<char>>> {
    match given {
        Some(ids) => Some(ids),
        None => match from_environment {
            Some(list) => Some(comma_separated(list)),
            None => None,
        },
    }
}

/// The module that a builder yields with what the environment holds, or what
/// is missing: a missing key comes before missing identities.
pub open spec fn built(
    builder: SteamModuleBuilderView,
    env_api_key: Option<Seq<char>>,
    env_steam_ids: Option<Seq<char>>,
) -> Result<SteamModuleView, ConfigurationError> {
    match chosen_api_key(builder.api_key, env_api_key) {
        None => Err(ConfigurationError::MissingApiKey),
        Some(api_key) => match chosen_steam_ids(builder.steam_ids, env_steam_ids) {
            None => Err(ConfigurationError::MissingSteamIds),
            Some(steam_ids) => Ok(
                SteamModuleView {
                    api_key,
                    steam_ids,
                    poll_interval: builder.config.poll_interval,
                    max_retries: builder.config.max_retries,
                    enabled: builder.config.enabled,
                },
            ),
        },
    }
}

impl SteamModuleBuilder {
    /// A builder with nothing given and the default configuration.
    pub fn new() -> (builder: SteamModuleBuilder)
        ensures
            builder@.api_key is None,
            builder@.steam_ids is None,
            duration_nanos(builder@.config.poll_interval) == 60 * 1_000_000_000,
            builder@.config.enabled,
            builder@.config.max_retries == 3,
    {
        SteamModuleBuilder { api_key: None, steam_ids: None, config: ModuleConfig::default() }
    }

    /// Replaces the configuration.
    pub fn with_config(self, config: ModuleConfig) -> (builder: SteamModuleBuilder)
        ensures
            builder@ == (SteamModuleBuilderView { config, ..self@ }),
    {
        let mut builder = self;
        builder.config = config;
        builder
    }

    /// Gives the API key directly.
    pub fn with_api_key(self, api_key: String) -> (builder: SteamModuleBuilder)
        ensures
            builder@ == (SteamModuleBuilderView { api_key: Some(api_key@), ..self@ }),
    {
        let mut builder = self;
        builder.api_key = Some(api_key);
        builder
    }

    /// Gives the identities directly.
    pub fn with_steam_ids(self, steam_ids: Vec<String>) -> (builder: SteamModuleBuilder)
        ensures
            builder@ == (SteamModuleBuilderView {
                steam_ids: Some(steam_ids.deep_view()),
                ..self@
            }),
    {
        let mut builder = self;
        builder.steam_ids = Some(steam_ids);
        builder
    }

    /// Sets the interval between two polls and leaves the rest of the
    /// configuration as it is.
    pub fn with_poll_interval(self, interval: Duration) -> (builder: SteamModuleBuilder)
        ensures
            builder@ == (SteamModuleBuilderView {
                config: ModuleConfig { poll_interval: interval, ..self@.config },
                ..self@
            }),
    {
        let mut builder = self;
        builder.config.poll_interval = interval;
        builder
    }

    /// Builds the module. `env_api_key` and `env_steam_ids` are what the
    /// environment holds under `STEAM_API_KEY` and `STEAM_IDS`; they count
    /// only for what was not given directly. A missing key is reported
    /// first, then missing identities.
    pub fn build(self, env_api_key: Option<String>, env_steam_ids: Option<String>) -> (r: Result<
        SteamModule,
        ConfigurationError,
    >)
        ensures
            match r {
                Ok(module) => built(self@, env_api_key.deep_view(), env_steam_ids.deep_view())
                    == Ok::<SteamModuleView, ConfigurationError>(module@),
                Err(e) => built(self@, env_api_key.deep_view(), env_steam_ids.deep_view())
                    == Err::<SteamModuleView, ConfigurationError>(e),
            },
    {
        let api_key = match self.api_key {
            Some(key) => key,
            None => match env_api_key {
                Some(key) => key,
                None => {
                    return Err(ConfigurationError::MissingApiKey);
                },
            },
        };
        let steam_ids = match self.steam_ids {
            Some(ids) => ids,
            None => match env_steam_ids {
                Some(list) => split_comma_separated(list.as_str()),
                None => {
                    return Err(ConfigurationError::MissingSteamIds);
                },
            },
        };
        Ok(
            SteamModule {
                api_key,
                steam_ids,
                poll_interval: self.config.poll_interval,
                max_retries: self.config.max_retries,
                enabled: self.config.enabled,
            },
        )
    }
}

} // verus!
