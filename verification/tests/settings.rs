use steam_tracker::error::ConfigurationError;
use steam_tracker::settings::{OtlpConfig, OtlpProtocol, Settings, SettingsSlot, SteamConfig};

fn settings(ids: &[&str], interval: u16) -> Settings {
    Settings {
        service_name: "tracker".to_string(),
        steam: SteamConfig {
            api_key: "key".to_string(),
            polling_interval_seconds: interval,
            steam_ids: ids.iter().map(|id| id.to_string()).collect(),
        },
        otlp_config: OtlpConfig {
            collector_endpoint: "http://localhost:4317".to_string(),
            protocol: OtlpProtocol::Tonic,
            log_level: "info".to_string(),
            enable_stdout: false,
        },
    }
}

#[test]
fn valid_settings_pass() {
    assert_eq!(settings(&["X"], 1).steam.validate(), Ok(()));
    assert_eq!(settings(&["X", "Y"], u16::MAX).steam.validate(), Ok(()));
}

#[test]
fn settings_need_an_identity() {
    assert_eq!(settings(&[], 60).steam.validate(), Err(ConfigurationError::NoIdentities));
}

#[test]
fn settings_need_a_positive_interval() {
    assert_eq!(settings(&["X"], 0).steam.validate(), Err(ConfigurationError::ZeroInterval));
}

#[test]
fn missing_identities_are_reported_first() {
    assert_eq!(settings(&[], 0).steam.validate(), Err(ConfigurationError::NoIdentities));
}

#[test]
fn slot_is_empty_until_set() {
    let slot = SettingsSlot::new();
    assert!(!slot.is_initialized());
}

#[test]
fn init_fills_the_slot() {
    let mut slot = SettingsSlot::new();
    assert_eq!(Settings::init(&mut slot, settings(&["X"], 60)), Ok(()));
    assert!(slot.is_initialized());
    assert_eq!(Settings::get(&slot), &settings(&["X"], 60));
    assert_eq!(Settings::get(&slot).steam.polling_interval_seconds, 60);
}

#[test]
fn init_refuses_invalid_settings() {
    let mut slot = SettingsSlot::new();
    assert_eq!(
        Settings::init(&mut slot, settings(&[], 60)),
        Err(ConfigurationError::NoIdentities)
    );
    assert!(!slot.is_initialized());
    assert_eq!(
        Settings::init(&mut slot, settings(&["X"], 0)),
        Err(ConfigurationError::ZeroInterval)
    );
    assert!(!slot.is_initialized());
    assert_eq!(Settings::init(&mut slot, settings(&["X"], 5)), Ok(()));
    assert!(slot.is_initialized());
}

#[test]
fn error_messages() {
    assert_eq!(ConfigurationError::MissingApiKey.message(), "STEAM_API_KEY not configured");
    assert_eq!(ConfigurationError::MissingSteamIds.message(), "STEAM_IDS not configured");
    assert_eq!(ConfigurationError::NoIdentities.message(), "no steam ids to track");
    assert_eq!(ConfigurationError::ZeroInterval.message(), "polling interval must be positive");
}
