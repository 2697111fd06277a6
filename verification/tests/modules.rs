use std::time::Duration;
use steam_tracker::error::ConfigurationError;
use steam_tracker::metrics::Instrument;
use steam_tracker::modules::{ModuleConfig, SteamModuleBuilder};

fn ids(list: &[&str]) -> Vec<String> {
    list.iter().map(|id| id.to_string()).collect()
}

#[test]
fn default_config_polls_every_minute() {
    let config = ModuleConfig::default();
    assert_eq!(config.poll_interval, Duration::from_secs(60));
    assert_eq!(config.poll_interval.as_nanos(), 60_000_000_000);
    assert!(config.enabled);
    assert_eq!(config.max_retries, 3);
}

#[test]
fn config_clone_is_equal() {
    let config =
        ModuleConfig { poll_interval: Duration::from_millis(1500), enabled: false, max_retries: 9 };
    let copy = config.clone();
    assert_eq!(copy.poll_interval, Duration::from_millis(1500));
    assert!(!copy.enabled);
    assert_eq!(copy.max_retries, 9);
}

#[test]
fn build_takes_what_is_given_directly() {
    let module = SteamModuleBuilder::new()
        .with_api_key("direct".to_string())
        .with_steam_ids(ids(&["1", "2"]))
        .build(Some("from env".to_string()), Some("9,8".to_string()))
        .ok()
        .unwrap();
    assert_eq!(module.api_key(), "direct");
    assert_eq!(module.steam_ids(), &ids(&["1", "2"]));
    assert_eq!(module.poll_interval(), Duration::from_secs(60));
    assert_eq!(module.max_retries(), 3);
    assert!(module.is_enabled());
    assert_eq!(module.name(), "steam");
}

#[test]
fn build_falls_back_to_the_environment() {
    let module = SteamModuleBuilder::new()
        .build(Some("from env".to_string()), Some(" 1, 2 ,3".to_string()))
        .ok()
        .unwrap();
    assert_eq!(module.api_key(), "from env");
    assert_eq!(module.steam_ids(), &ids(&["1", "2", "3"]));
}

#[test]
fn build_without_a_key_fails() {
    let result = SteamModuleBuilder::new().with_steam_ids(ids(&["1"])).build(None, None);
    assert!(matches!(result, Err(ConfigurationError::MissingApiKey)));
}

#[test]
fn build_without_identities_fails() {
    let result = SteamModuleBuilder::new().with_api_key("k".to_string()).build(None, None);
    assert!(matches!(result, Err(ConfigurationError::MissingSteamIds)));
}

#[test]
fn a_missing_key_is_reported_first() {
    let result = SteamModuleBuilder::new().build(None, None);
    assert!(matches!(result, Err(ConfigurationError::MissingApiKey)));
}

#[test]
fn an_empty_list_in_the_environment_is_one_empty_identity() {
    let module =
        SteamModuleBuilder::new().build(Some("k".to_string()), Some("".to_string())).ok().unwrap();
    assert_eq!(module.steam_ids(), &ids(&[""]));
}

#[test]
fn with_poll_interval_keeps_the_rest() {
    let module = SteamModuleBuilder::new()
        .with_config(ModuleConfig {
            poll_interval: Duration::from_secs(5),
            enabled: false,
            max_retries: 1,
        })
        .with_poll_interval(Duration::from_millis(2500))
        .with_api_key("k".to_string())
        .with_steam_ids(ids(&["1"]))
        .build(None, None)
        .ok()
        .unwrap();
    assert_eq!(module.poll_interval(), Duration::from_millis(2500));
    assert_eq!(module.max_retries(), 1);
    assert!(!module.is_enabled());
}

#[test]
fn with_config_replaces_the_configuration() {
    let module = SteamModuleBuilder::new()
        .with_poll_interval(Duration::from_secs(1))
        .with_config(ModuleConfig {
            poll_interval: Duration::from_secs(30),
            enabled: true,
            max_retries: 0,
        })
        .with_api_key("k".to_string())
        .with_steam_ids(ids(&["1"]))
        .build(None, None)
        .ok()
        .unwrap();
    assert_eq!(module.poll_interval(), Duration::from_secs(30));
    assert_eq!(module.max_retries(), 0);
}

#[test]
fn an_enabled_module_registers_all_instruments() {
    let module = SteamModuleBuilder::new()
        .with_api_key("k".to_string())
        .with_steam_ids(ids(&["1"]))
        .build(None, None)
        .ok()
        .unwrap();
    assert_eq!(
        module.instruments(),
        vec![Instrument::SummaryLatency, Instrument::SummaryErrorsTotal, Instrument::GameTimeTotal]
    );
}

#[test]
fn a_disabled_module_registers_nothing() {
    let module = SteamModuleBuilder::new()
        .with_config(ModuleConfig {
            poll_interval: Duration::from_secs(60),
            enabled: false,
            max_retries: 3,
        })
        .with_api_key("k".to_string())
        .with_steam_ids(ids(&["1"]))
        .build(None, None)
        .ok()
        .unwrap();
    assert_eq!(module.instruments(), vec![]);
}
