use cloudflare_ddns::config::{
    CloudflareConfig, Config, ConfigError, GeneralConfig, Settings, DEFAULT_NOT_SET,
    DEFAULT_WAIT_TIME,
};

fn text(value: &str) -> Option<String> {
    Some(value.to_string())
}

fn filled() -> Config {
    Config {
        general: Some(GeneralConfig { wait_duration: Some(60) }),
        cloudflare: Some(CloudflareConfig {
            zone_id: text("zone"),
            api_token: text("token"),
            dns_record_id: text("record"),
        }),
    }
}

#[test]
fn default_wait_is_three_hundred_seconds() {
    assert_eq!(DEFAULT_WAIT_TIME, 300);
    assert_eq!(GeneralConfig::default(), GeneralConfig { wait_duration: Some(300) });
}

#[test]
fn default_provider_values_are_the_placeholder() {
    let table = CloudflareConfig::default();
    assert_eq!(table.zone_id.as_deref(), Some(DEFAULT_NOT_SET));
    assert_eq!(table.api_token.as_deref(), Some(DEFAULT_NOT_SET));
    assert_eq!(table.dns_record_id.as_deref(), Some(DEFAULT_NOT_SET));
}

#[test]
fn default_config_has_both_tables() {
    let config = Config::default();
    assert_eq!(config.general, Some(GeneralConfig::default()));
    assert_eq!(config.cloudflare, Some(CloudflareConfig::default()));
}

#[test]
fn merge_fills_absent_value() {
    let mut table = GeneralConfig { wait_duration: None };
    table.merge(GeneralConfig { wait_duration: Some(7) });
    assert_eq!(table.wait_duration, Some(7));
}

#[test]
fn merge_keeps_present_value() {
    let mut table = GeneralConfig { wait_duration: Some(3) };
    table.merge(GeneralConfig { wait_duration: Some(7) });
    assert_eq!(table.wait_duration, Some(3));
}

#[test]
fn merge_of_provider_table_goes_value_by_value() {
    let mut table =
        CloudflareConfig { zone_id: text("zone"), api_token: None, dns_record_id: None };
    table.merge(CloudflareConfig {
        zone_id: text("other"),
        api_token: text("fallback"),
        dns_record_id: None,
    });
    assert_eq!(
        table,
        CloudflareConfig { zone_id: text("zone"), api_token: text("fallback"), dns_record_id: None }
    );
}

#[test]
fn merge_custom_of_empty_config_gives_defaults() {
    let merged = Config { general: None, cloudflare: None }.merge_custom(Config::default());
    assert_eq!(merged, Config::default());
}

#[test]
fn merge_custom_keeps_complete_config() {
    assert_eq!(filled().merge_custom(Config::default()), filled());
}

#[test]
fn merge_custom_completes_partial_tables() {
    let loaded = Config {
        general: Some(GeneralConfig { wait_duration: None }),
        cloudflare: Some(CloudflareConfig {
            zone_id: text("zone"),
            api_token: None,
            dns_record_id: text("record"),
        }),
    };
    let merged = loaded.merge_custom(Config::default());
    assert_eq!(
        merged,
        Config {
            general: Some(GeneralConfig { wait_duration: Some(300) }),
            cloudflare: Some(CloudflareConfig {
                zone_id: text("zone"),
                api_token: text(DEFAULT_NOT_SET),
                dns_record_id: text("record"),
            }),
        }
    );
}

#[test]
fn merge_custom_with_empty_fallback_changes_nothing() {
    let loaded = Config { general: Some(GeneralConfig { wait_duration: None }), cloudflare: None };
    let merged = loaded.clone().merge_custom(Config { general: None, cloudflare: None });
    assert_eq!(merged, loaded);
}

#[test]
fn complete_config_gives_settings() {
    assert_eq!(
        filled().into_settings(),
        Ok(Settings {
            wait_duration: 60,
            zone_id: "zone".to_string(),
            api_token: "token".to_string(),
            dns_record_id: "record".to_string(),
        })
    );
}

#[test]
fn default_config_is_not_set() {
    assert_eq!(Config::default().into_settings(), Err(ConfigError::NotSet));
}

#[test]
fn one_placeholder_is_enough_for_not_set() {
    let mut config = filled();
    config.cloudflare.as_mut().unwrap().dns_record_id = text(DEFAULT_NOT_SET);
    assert_eq!(config.into_settings(), Err(ConfigError::NotSet));
}

#[test]
fn absent_provider_value_is_missing() {
    let mut config = filled();
    config.cloudflare.as_mut().unwrap().api_token = None;
    assert_eq!(config.into_settings(), Err(ConfigError::Missing));
    let mut config = filled();
    config.cloudflare = None;
    assert_eq!(config.into_settings(), Err(ConfigError::Missing));
}

#[test]
fn absent_wait_is_missing() {
    let mut config = filled();
    config.general = Some(GeneralConfig { wait_duration: None });
    assert_eq!(config.into_settings(), Err(ConfigError::Missing));
    let mut config = filled();
    config.general = None;
    assert_eq!(config.into_settings(), Err(ConfigError::Missing));
}

#[test]
fn placeholder_is_reported_before_absent_wait() {
    let mut config = filled();
    config.general = None;
    config.cloudflare.as_mut().unwrap().zone_id = text(DEFAULT_NOT_SET);
    assert_eq!(config.into_settings(), Err(ConfigError::NotSet));
}

#[test]
fn loaded_file_completed_from_defaults_never_misses_a_value() {
    let loaded = Config {
        general: Some(GeneralConfig { wait_duration: None }),
        cloudflare: Some(CloudflareConfig { zone_id: None, api_token: None, dns_record_id: None }),
    };
    assert_eq!(loaded.merge_custom(Config::default()).into_settings(), Err(ConfigError::NotSet));
}
