//! Configuration values, their defaults and how a loaded file is completed
//! from them.

use vstd::prelude::*;

verus! {

/// Seconds between two iterations when the file names none.
pub const DEFAULT_WAIT_TIME: u64 = 300;

/// The placeholder that the default file holds for every value of the
/// provider, until the operator fills it in.
pub const DEFAULT_NOT_SET: &'static str = "NOT_SET";

/// The values the reconciler runs with.
#[derive(Debug, Clone, PartialEq)]
pub struct Settings {
    /// Seconds between two iterations.
    pub wait_duration: u64,
    pub zone_id: String,
    pub api_token: String,
    pub dns_record_id: String,
}

/// Model of `Settings`.
pub ghost struct SettingsModel {
    pub wait_duration: u64,
    pub zone_id: Seq<char>,
    pub api_token: Seq<char>,
    pub dns_record_id: Seq<char>,
}

impl DeepView for Settings {
    type V = SettingsModel;

    open spec fn deep_view(&self) -> SettingsModel {
        SettingsModel {
            wait_duration: self.wait_duration,
            zone_id: self.zone_id@,
            api_token: self.api_token@,
            dns_record_id: self.dns_record_id@,
        }
    }
}

/// What `overlay` leaves in the slot: the slot's own value where it has one,
/// the fallback otherwise.
pub open spec fn overlaid<T>(own: Option<T>, fallback: Option<T>) -> Option<T> {
    if own.is_some() {
        own
    } else {
        fallback
    }
}

/// Calls `merge::Merge::merge` on an `Option`. That impl keeps a slot that is
/// `Some` as it is and moves `other` into a slot that is `None`; the value
/// moved is the value given, so the contract speaks of the values themselves.
#[verifier::external_body]
fn overlay<T>(slot: &mut Option<T>, other: Option<T>)
    ensures
        *final(slot) == overlaid(*old(slot), other),
{
    merge::Merge::merge(slot, other)
}

/// The `[general]` table of the configuration file.
#[derive(Debug, Clone, PartialEq)]
pub struct GeneralConfig {
    pub wait_duration: Option<u64>,
}

/// The `[cloudflare]` table of the configuration file.
#[derive(Debug, Clone, PartialEq)]
pub struct CloudflareConfig {
    pub zone_id: Option<String>,
    pub api_token: Option<String>,
    pub dns_record_id: Option<String>,
}

/// The configuration file: every table and every value may be absent.
#[derive(Debug, Clone, PartialEq)]
pub struct Config {
    pub general: Option<GeneralConfig>,
    pub cloudflare: Option<CloudflareConfig>,
}

/// Why a configuration gives no settings.
#[derive(Clone, Copy, Debug, PartialEq, Eq, Structural)]
pub enum ConfigError {
    /// A value is absent.
    Missing,
    /// A value of the provider still holds the placeholder.
    NotSet,
}

/// Model of `GeneralConfig`.
pub ghost struct GeneralConfigModel {
    pub wait_duration: Option<u64>,
}

/// Model of `CloudflareConfig`.
pub ghost struct CloudflareConfigModel {
    pub zone_id: Option<Seq<char>>,
    pub api_token: Option<Seq<char>>,
    pub dns_record_id: Option<Seq<char>>,
}

/// Model of `Config`.
pub ghost struct ConfigModel {
    pub general: Option<GeneralConfigModel>,
    pub cloudflare: Option<CloudflareConfigModel>,
}

impl DeepView for GeneralConfig {
    type V = GeneralConfigModel;

    open spec fn deep_view(&self) -> GeneralConfigModel {
        GeneralConfigModel { wait_duration: self.wait_duration }
    }
}

impl DeepView for CloudflareConfig {
    type V = CloudflareConfigModel;

    open spec fn deep_view(&self) -> CloudflareConfigModel {
        CloudflareConfigModel {
            zone_id: self.zone_id.deep_view(),
            api_token: self.api_token.deep_view(),
            dns_record_id: self.dns_record_id.deep_view(),
        }
    }
}

impl DeepView for Config {
    type V = ConfigModel;

    open spec fn deep_view(&self) -> ConfigModel {
        ConfigModel {
            general: self.general.deep_view(),
            cloudflare: self.cloudflare.deep_view(),
        }
    }
}

/// The text of the placeholder.
pub open spec fn placeholder() -> Seq<char> {
    DEFAULT_NOT_SET@
}

/// The defaults of the `[general]` table.
pub open spec fn default_general() -> GeneralConfigModel {
    GeneralConfigModel { wait_duration: Some(DEFAULT_WAIT_TIME) }
}

/// The defaults of the `[cloudflare]` table: the placeholder everywhere.
pub open spec fn default_cloudflare() -> CloudflareConfigModel {
    CloudflareConfigModel {
        zone_id: Some(placeholder()),
        api_token: Some(placeholder()),
        dns_record_id: Some(placeholder()),
    }
}

/// The default configuration.
pub open spec fn default_config() -> ConfigModel {
    ConfigModel { general: Some(default_general()), cloudflare: Some(default_cloudflare()) }
}

/// A `[general]` table completed from a fallback, value by value.
pub open spec fn merged_general(
    own: Option<GeneralConfigModel>,
    fallback: Option<GeneralConfigModel>,
) -> Option<GeneralConfigModel> {
    match (own, fallback) {
        (Some(table), Some(other)) => Some(
            GeneralConfigModel {
                wait_duration: overlaid(table.wait_duration, other.wait_duration),
            },
        ),
        _ => overlaid(own, fallback),
    }
}

/// A `[cloudflare]` table completed from a fallback, value by value.
pub open spec fn merged_cloudflare(
    own: Option<CloudflareConfigModel>,
    fallback: Option<CloudflareConfigModel>,
) -> Option<CloudflareConfigModel> {
    match (own, fallback) {
        (Some(table), Some(other)) => Some(
            CloudflareConfigModel {
                zone_id: overlaid(table.zone_id, other.zone_id),
                api_token: overlaid(table.api_token, other.api_token),
                dns_record_id: overlaid(table.dns_record_id, other.dns_record_id),
            },
        ),
        _ => overlaid(own, fallback),
    }
}

/// A configuration completed from a fallback: every value that the
/// configuration has stays, every other one is the fallback's.
pub open spec fn merged_config(own: ConfigModel, fallback: ConfigModel) -> ConfigModel {
    ConfigModel {
        general: merged_general(own.general, fallback.general),
        cloudflare: merged_cloudflare(own.cloudflare, fallback.cloudflare),
    }
}

/// Every value of the provider is present.
pub open spec fn provider_complete(config: ConfigModel) -> bool {
    config.cloudflare matches Some(table) && table.zone_id is Some && table.api_token is Some
        && table.dns_record_id is Some
}

/// The wait is present.
pub open spec fn wait_complete(config: ConfigModel) -> bool {
    config.general matches Some(table) && table.wait_duration is Some
}

/// No value is absent.
pub open spec fn complete(config: ConfigModel) -> bool {
    provider_complete(config) && wait_complete(config)
}

/// A value of the provider is the placeholder.
pub open spec fn holds_placeholder(table: CloudflareConfigModel) -> bool {
    table.zone_id == Some(placeholder()) || table.api_token == Some(placeholder())
        || table.dns_record_id == Some(placeholder())
}

/// The settings a configuration stands for, or why it stands for none. The
/// provider's values are looked at first: one that is absent is `Missing`,
/// one that is the placeholder is `NotSet`. An absent wait is `Missing`.
pub open spec fn resolved(config: ConfigModel) -> Result<SettingsModel, ConfigError> {
    if !provider_complete(config) {
        Err(ConfigError::Missing)
    } else if holds_placeholder(config.cloudflare->0) {
        Err(ConfigError::NotSet)
    } else if !wait_complete(config) {
        Err(ConfigError::Missing)
    } else {
        Ok(
            SettingsModel {
                wait_duration: config.general->0.wait_duration->0,
                zone_id: config.cloudflare->0.zone_id->0,
                api_token: config.cloudflare->0.api_token->0,
                dns_record_id: config.cloudflare->0.dns_record_id->0,
            },
        )
    }
}

/// Model of what `into_settings` returns.
pub open spec fn settings_model(out: Result<Settings, ConfigError>) -> Result<
    SettingsModel,
    ConfigError,
> {
    match out {
        Ok(settings) => Ok(settings.deep_view()),
        Err(error) => Err(error),
    }
}

impl Default for GeneralConfig {
    fn default() -> (config: GeneralConfig)
        ensures
            config.deep_view() == default_general(),
    {
        GeneralConfig { wait_duration: Some(DEFAULT_WAIT_TIME) }
    }
}

impl Default for CloudflareConfig {
    fn default() -> (config: CloudflareConfig)
        ensures
            config.deep_view() == default_cloudflare(),
    {
        CloudflareConfig {
            zone_id: Some(DEFAULT_NOT_SET.to_owned()),
            api_token: Some(DEFAULT_NOT_SET.to_owned()),
            dns_record_id: Some(DEFAULT_NOT_SET.to_owned()),
        }
    }
}

impl Default for Config {
    fn default() -> (config: Config)
        ensures
            config.deep_view() == default_config(),
    {
        Config {
            general: Some(GeneralConfig::default()),
            cloudflare: Some(CloudflareConfig::default()),
        }
    }
}

/// Whether a value is the placeholder.
fn is_placeholder(value: &String) -> (yes: bool)
    ensures
        yes == (value@ == placeholder()),
{
    let sentinel = DEFAULT_NOT_SET.to_owned();
    *value == sentinel
}

impl GeneralConfig {
    /// Completes this table from `other`, value by value.
    pub fn merge(&mut self, other: GeneralConfig)
        ensures
            Some(final(self).deep_view()) == merged_general(
                Some(old(self).deep_view()),
                Some(other.deep_view()),
            ),
    {
        overlay(&mut self.wait_duration, other.wait_duration);
    }
}

impl CloudflareConfig {
    /// Completes this table from `other`, value by value.
    pub fn merge(&mut self, other: CloudflareConfig)
        ensures
            Some(final(self).deep_view()) == merged_cloudflare(
                Some(old(self).deep_view()),
                Some(other.deep_view()),
            ),
    {
        overlay(&mut self.zone_id, other.zone_id);
        overlay(&mut self.api_token, other.api_token);
        overlay(&mut self.dns_record_id, other.dns_record_id);
    }
}

impl Config {
    /// Completes this configuration from `other`: a table that is absent is
    /// taken from `other` whole, a table that is present is completed from
    /// `other`'s value by value.
    pub fn merge_custom(self, other: Config) -> (merged: Config)
        ensures
            merged.deep_view() == merged_config(self.deep_view(), other.deep_view()),
    {
        let Config { general, cloudflare } = self;
        let general = match (general, other.general) {
            (Some(mut table), Some(fallback)) => {
                table.merge(fallback);
                Some(table)
            },
            (mut table, fallback) => {
                overlay(&mut table, fallback);
                table
            },
        };
        let cloudflare = match (cloudflare, other.cloudflare) {
            (Some(mut table), Some(fallback)) => {
                table.merge(fallback);
                Some(table)
            },
            (mut table, fallback) => {
                overlay(&mut table, fallback);
                table
            },
        };
        Config { general, cloudflare }
    }

    /// The settings this configuration stands for, or why it stands for
    /// none.
    pub fn into_settings(self) -> (out: Result<Settings, ConfigError>)
        ensures
            settings_model(out) == resolved(self.deep_view()),
    {
        let Config { general, cloudflare } = self;
        let (zone_id, api_token, dns_record_id) = match cloudflare {
            Some(
                CloudflareConfig {
                    zone_id: Some(zone_id),
                    api_token: Some(api_token),
                    dns_record_id: Some(dns_record_id),
                },
            ) => (zone_id, api_token, dns_record_id),
            _ => { return Err(ConfigError::Missing); },
        };
        if is_placeholder(&api_token) || is_placeholder(&zone_id) || is_placeholder(
            &dns_record_id,
        ) {
            return Err(ConfigError::NotSet);
        }
        match general {
            Some(GeneralConfig { wait_duration: Some(wait_duration) }) => Ok(
                Settings { wait_duration, zone_id, api_token, dns_record_id },
            ),
            _ => Err(ConfigError::Missing),
        }
    }
}

/// A configuration completed from the defaults lacks nothing, and every
/// value that it had before is still there.
pub proof fn lemma_defaults_complete_every_config(loaded: ConfigModel)
    ensures
        complete(merged_config(loaded, default_config())),
        resolved(merged_config(loaded, default_config())) != Err::<SettingsModel, ConfigError>(
            ConfigError::Missing,
        ),
        complete(loaded) ==> merged_config(loaded, default_config()) == loaded,
{
}

/// Completing keeps what is there: a value that the configuration has is
/// the value of the result, whatever the fallback holds.
pub proof fn lemma_own_values_win(own: ConfigModel, fallback: ConfigModel)
    ensures
        complete(own) ==> merged_config(own, fallback) == own,
        merged_config(own, own) == own,
{
}

} // verus!
