//! Application configuration: its schema, defaults, validation, migration and
//! the in-memory copy that the application reads.

use vstd::prelude::*;
use crate::error::{MindLinkError, MindLinkResult};
use crate::string_map::StringMap;
use crate::text::{cat3, joined, join_path, opt_text, owned, str_eq};

verus! {

/// Current configuration schema version.
pub const CONFIG_VERSION: u32 = 1;

/// Configuration schema with version.
pub struct ConfigSchema {
    pub version: u32,
    pub server: ServerConfig,
    pub bifrost: BifrostConfig,
    pub tunnel: TunnelConfig,
    pub features: FeatureConfig,
    pub monitoring: MonitoringConfig,
}

pub struct ServerConfig {
    pub port: u16,
    pub host: String,
}

pub struct BifrostConfig {
    pub port: u16,
    pub host: String,
    pub enabled: bool,
}

pub struct TunnelConfig {
    pub enabled: bool,
    pub tunnel_type: String,
}

pub struct FeatureConfig {
    pub reasoning_effort: String,
    pub reasoning_summaries: String,
    pub reasoning_compatibility: String,
}

pub struct MonitoringConfig {
    pub health_check_interval: u64,
    pub error_threshold: u32,
    pub notifications: bool,
}

impl ServerConfig {
    pub fn duplicate(&self) -> (res: Self)
        ensures
            res == *self,
    {
        ServerConfig { port: self.port, host: self.host.clone() }
    }
}

impl BifrostConfig {
    pub fn duplicate(&self) -> (res: Self)
        ensures
            res == *self,
    {
        BifrostConfig { port: self.port, host: self.host.clone(), enabled: self.enabled }
    }
}

impl TunnelConfig {
    pub fn duplicate(&self) -> (res: Self)
        ensures
            res == *self,
    {
        TunnelConfig { enabled: self.enabled, tunnel_type: self.tunnel_type.clone() }
    }
}

impl FeatureConfig {
    pub fn duplicate(&self) -> (res: Self)
        ensures
            res == *self,
    {
        FeatureConfig {
            reasoning_effort: self.reasoning_effort.clone(),
            reasoning_summaries: self.reasoning_summaries.clone(),
            reasoning_compatibility: self.reasoning_compatibility.clone(),
        }
    }
}

impl MonitoringConfig {
    pub fn duplicate(&self) -> (res: Self)
        ensures
            res == *self,
    {
        MonitoringConfig {
            health_check_interval: self.health_check_interval,
            error_threshold: self.error_threshold,
            notifications: self.notifications,
        }
    }
}

impl ConfigSchema {
    pub fn duplicate(&self) -> (res: Self)
        ensures
            res == *self,
    {
        ConfigSchema {
            version: self.version,
            server: self.server.duplicate(),
            bifrost: self.bifrost.duplicate(),
            tunnel: self.tunnel.duplicate(),
            features: self.features.duplicate(),
            monitoring: self.monitoring.duplicate(),
        }
    }

    /// The configuration written when none exists.
    pub open spec fn is_default(self) -> bool {
        &&& self.version == CONFIG_VERSION
        &&& self.server.port == 3001 && self.server.host@ == "127.0.0.1"@
        &&& self.bifrost.port == 3002 && self.bifrost.host@ == "127.0.0.1"@ && self.bifrost.enabled
        &&& self.tunnel.enabled && self.tunnel.tunnel_type@ == "quick"@
        &&& self.features.reasoning_effort@ == "medium"@
        &&& self.features.reasoning_summaries@ == "auto"@
        &&& self.features.reasoning_compatibility@ == "think-tags"@
        &&& self.monitoring.health_check_interval == 30
        &&& self.monitoring.error_threshold == 5
        &&& self.monitoring.notifications
    }

    /// The default configuration.
    pub fn default_config() -> (res: Self)
        ensures
            res.is_default(),
    {
        ConfigSchema {
            version: CONFIG_VERSION,
            server: ServerConfig { port: 3001, host: owned("127.0.0.1") },
            bifrost: BifrostConfig { port: 3002, host: owned("127.0.0.1"), enabled: true },
            tunnel: TunnelConfig { enabled: true, tunnel_type: owned("quick") },
            features: FeatureConfig {
                reasoning_effort: owned("medium"),
                reasoning_summaries: owned("auto"),
                reasoning_compatibility: owned("think-tags"),
            },
            monitoring: MonitoringConfig { health_check_interval: 30, error_threshold: 5, notifications: true },
        }
    }
}

/// Whether a reasoning effort is one of the accepted values.
pub open spec fn valid_effort(e: Seq<char>) -> bool {
    e == "low"@ || e == "medium"@ || e == "high"@
}

/// Whether a tunnel type is one of the accepted values.
pub open spec fn valid_tunnel_type(t: Seq<char>) -> bool {
    t == "quick"@ || t == "named"@
}

/// The first rule a configuration breaks, as the key it concerns and the
/// message; `None` when it breaks none.
pub open spec fn config_violation(c: ConfigSchema) -> Option<(Seq<char>, Seq<char>)> {
    if c.server.port == 0 {
        Some(("server.port"@, "Server port cannot be 0"@))
    } else if c.server.host@.len() == 0 {
        Some(("server.host"@, "Server host cannot be empty"@))
    } else if c.bifrost.port == 0 {
        Some(("bifrost.port"@, "Bifrost port cannot be 0"@))
    } else if c.bifrost.host@.len() == 0 {
        Some(("bifrost.host"@, "Bifrost host cannot be empty"@))
    } else if !valid_effort(c.features.reasoning_effort@) {
        Some(("features.reasoning_effort"@, "Invalid reasoning effort: "@ + c.features.reasoning_effort@
            + ". Must be one of: [\"low\", \"medium\", \"high\"]"@))
    } else if !valid_tunnel_type(c.tunnel.tunnel_type@) {
        Some(("tunnel.tunnel_type"@, "Invalid tunnel type: "@ + c.tunnel.tunnel_type@
            + ". Must be one of: [\"quick\", \"named\"]"@))
    } else if c.monitoring.health_check_interval == 0 {
        Some(("monitoring.health_check_interval"@, "Health check interval must be positive"@))
    } else {
        None
    }
}

/// `res` is the outcome of validating `c`.
pub open spec fn validation_outcome(c: ConfigSchema, res: MindLinkResult<()>) -> bool {
    match config_violation(c) {
        None => res is Ok,
        Some((key, msg)) => res matches Err(MindLinkError::Configuration { message, config_key, source })
            && message@ == msg && (config_key matches Some(k) && k@ == key) && source is None,
    }
}

fn config_error(key: &str, message: String) -> (res: MindLinkError)
    ensures
        res matches MindLinkError::Configuration { message: m, config_key, source }
            && m == message && (config_key matches Some(k) && k@ == key@) && source is None,
{
    MindLinkError::Configuration { message, config_key: Some(owned(key)), source: None }
}

/// Validate configuration values: both ports non-zero, both hosts
/// non-empty, a known reasoning effort and tunnel type, and a positive
/// health-check interval; the first rule broken is reported.
pub fn validate_config(config: &ConfigSchema) -> (res: MindLinkResult<()>)
    ensures
        validation_outcome(*config, res),
{
    if config.server.port == 0 {
        return Err(config_error("server.port", owned("Server port cannot be 0")));
    }
    if config.server.host.as_str().is_empty() {
        return Err(config_error("server.host", owned("Server host cannot be empty")));
    }
    if config.bifrost.port == 0 {
        return Err(config_error("bifrost.port", owned("Bifrost port cannot be 0")));
    }
    if config.bifrost.host.as_str().is_empty() {
        return Err(config_error("bifrost.host", owned("Bifrost host cannot be empty")));
    }
    let effort = config.features.reasoning_effort.as_str();
    if !(str_eq(effort, "low") || str_eq(effort, "medium") || str_eq(effort, "high")) {
        let m = cat3("Invalid reasoning effort: ", effort, ". Must be one of: [\"low\", \"medium\", \"high\"]");
        return Err(config_error("features.reasoning_effort", m));
    }
    let tt = config.tunnel.tunnel_type.as_str();
    if !(str_eq(tt, "quick") || str_eq(tt, "named")) {
        let m = cat3("Invalid tunnel type: ", tt, ". Must be one of: [\"quick\", \"named\"]");
        return Err(config_error("tunnel.tunnel_type", m));
    }
    if config.monitoring.health_check_interval == 0 {
        return Err(config_error("monitoring.health_check_interval", owned("Health check interval must be positive")));
    }
    Ok(())
}

/// Whether a stored configuration predates the current schema.
pub fn needs_migration(config: &ConfigSchema) -> (res: bool)
    ensures
        res == (config.version < CONFIG_VERSION),
{
    config.version < CONFIG_VERSION
}

/// Migrate a configuration to the current schema: no field changes between
/// the versions so far, only the version number.
pub fn migrate_config(config: ConfigSchema) -> (res: MindLinkResult<ConfigSchema>)
    ensures
        res matches Ok(c) && c == (ConfigSchema { version: CONFIG_VERSION, ..config }),
{
    Ok(ConfigSchema { version: CONFIG_VERSION, ..config })
}

/// Where the configuration lives: the `.mindlink` directory of the home
/// directory, its `config.json`, and the backup beside it.
pub struct ConfigLocation {
    pub directory: String,
    pub config_path: String,
    pub backup_path: String,
}

/// Where the configuration lives, or the error when the home directory is
/// unknown.
pub fn config_location(home: Option<String>) -> (res: MindLinkResult<ConfigLocation>)
    ensures
        match home {
            Some(h) => res matches Ok(l) && l.directory@ == joined(h@, ".mindlink"@)
                && l.config_path@ == joined(l.directory@, "config.json"@)
                && l.backup_path@ == joined(l.directory@, "config.json.backup"@),
            None => res matches Err(e) && e.is_resource("Cannot determine home directory"@, "home directory"@, None),
        },
{
    match home {
        Some(h) => {
            let directory = join_path(h.as_str(), ".mindlink");
            let config_path = join_path(directory.as_str(), "config.json");
            let backup_path = join_path(directory.as_str(), "config.json.backup");
            Ok(ConfigLocation { directory, config_path, backup_path })
        },
        None => Err(MindLinkError::SystemResource {
            message: owned("Cannot determine home directory"),
            resource_type: owned("home directory"),
            source: None,
        }),
    }
}

/// How the stored configuration could be read at start-up.
pub enum StoredConfig {
    /// There is none (or it could not be read).
    Missing,
    /// It is not a configuration.
    Unparsable(anyhow::Error),
    /// This configuration.
    Parsed(ConfigSchema),
}

/// What start-up does with the stored configuration.
pub enum LoadPlan {
    /// Create the default configuration and save it.
    CreateDefault,
    /// Log the parse error, keep a backup of the broken file, then create the
    /// default configuration and save it.
    ReplaceBroken(MindLinkError),
    /// Use the stored configuration as it is.
    Use(ConfigSchema),
    /// Back up the stored configuration, then save and use this migrated one.
    Migrate(ConfigSchema),
}

/// What start-up does with the stored configuration: a missing one is
/// replaced by the defaults, a broken one too (after a backup), an invalid
/// one stops the start-up, an old one is migrated.
pub fn load_plan(stored: StoredConfig) -> (res: MindLinkResult<LoadPlan>)
    ensures
        match stored {
            StoredConfig::Missing => res matches Ok(LoadPlan::CreateDefault),
            StoredConfig::Unparsable(e) => res matches Ok(LoadPlan::ReplaceBroken(err)) && err.is_config(
                "Failed to parse configuration, creating backup and using defaults"@, None, Some(e)),
            StoredConfig::Parsed(c) => match config_violation(c) {
                Some(_) => res matches Err(err) && validation_outcome(c, Err(err)),
                None => if c.version < CONFIG_VERSION {
                    res matches Ok(LoadPlan::Migrate(m)) && m == (ConfigSchema { version: CONFIG_VERSION, ..c })
                } else {
                    res matches Ok(LoadPlan::Use(u)) && u == c
                },
            },
        },
{
    match stored {
        StoredConfig::Missing => Ok(LoadPlan::CreateDefault),
        StoredConfig::Unparsable(e) => Ok(LoadPlan::ReplaceBroken(MindLinkError::Configuration {
            message: owned("Failed to parse configuration, creating backup and using defaults"),
            config_key: None,
            source: Some(e),
        })),
        StoredConfig::Parsed(c) => {
            match validate_config(&c) {
                Err(e) => Err(e),
                Ok(()) => {
                    if needs_migration(&c) {
                        match migrate_config(c) {
                            Ok(m) => Ok(LoadPlan::Migrate(m)),
                            Err(e) => Err(e),
                        }
                    } else {
                        Ok(LoadPlan::Use(c))
                    }
                },
            }
        },
    }
}

/// How the backup could be read for a restore.
pub enum BackupRead {
    /// There is no backup file.
    Missing,
    /// It could not be read.
    Unreadable(anyhow::Error),
    /// It is not a configuration.
    Unparsable(anyhow::Error),
    /// This configuration.
    Parsed(ConfigSchema),
}

/// A file-system error with its path, operation and cause.
pub fn file_failure(message: &str, path: &str, operation: &str, source: Option<anyhow::Error>) -> (res: MindLinkError)
    ensures
        res.is_file_system(message@, Some(path@), operation@, source),
{
    MindLinkError::FileSystem { message: owned(message), path: Some(owned(path)), operation: owned(operation), source }
}

/// A configuration error with no key and this cause.
pub fn config_failure(message: &str, source: anyhow::Error) -> (res: MindLinkError)
    ensures
        res.is_config(message@, None, Some(source)),
{
    MindLinkError::Configuration { message: owned(message), config_key: None, source: Some(source) }
}

/// The in-memory configuration and where it is kept on disk.
pub struct ConfigManager {
    config_path: String,
    backup_path: String,
    config: ConfigSchema,
    custom_fields: StringMap<String>,
}

impl ConfigManager {
    /// The configuration in force.
    pub closed spec fn current(&self) -> ConfigSchema {
        self.config
    }

    /// Extra named values kept beside the configuration.
    pub closed spec fn custom(&self) -> Map<Seq<char>, String> {
        self.custom_fields@
    }

    pub closed spec fn config_file(&self) -> Seq<char> {
        self.config_path@
    }

    pub closed spec fn backup_file(&self) -> Seq<char> {
        self.backup_path@
    }

    /// A manager holding `config`, loaded from (or written to) `config_path`,
    /// backed up at `backup_path`.
    pub fn with_config(config_path: String, backup_path: String, config: ConfigSchema) -> (res: Self)
        ensures
            res.current() == config,
            res.config_file() == config_path@,
            res.backup_file() == backup_path@,
            res.custom() == Map::<Seq<char>, String>::empty(),
    {
        ConfigManager { config_path, backup_path, config, custom_fields: StringMap::new() }
    }

    /// Where the configuration is stored.
    pub fn config_path(&self) -> (res: &str)
        ensures
            res@ == self.config_file(),
    {
        self.config_path.as_str()
    }

    /// Where the configuration is backed up before a change.
    pub fn backup_path(&self) -> (res: &str)
        ensures
            res@ == self.backup_file(),
    {
        self.backup_path.as_str()
    }

    /// A copy of the configuration.
    pub fn get_config(&self) -> (res: ConfigSchema)
        ensures
            res == self.current(),
    {
        self.config.duplicate()
    }

    /// Replace the configuration with `new_config` when it is valid; an invalid
    /// one is refused and the configuration is kept.
    pub fn update_config(&mut self, new_config: ConfigSchema) -> (res: MindLinkResult<()>)
        ensures
            validation_outcome(new_config, res),
            final(self).current() == (if res is Ok { new_config } else { old(self).current() }),
            final(self).custom() == old(self).custom(),
            final(self).config_file() == old(self).config_file(),
            final(self).backup_file() == old(self).backup_file(),
    {
        match validate_config(&new_config) {
            Ok(()) => {
                self.config = new_config;
                Ok(())
            },
            Err(e) => Err(e),
        }
    }

    pub fn get_server_config(&self) -> (res: ServerConfig)
        ensures
            res == self.current().server,
    {
        self.config.server.duplicate()
    }

    pub fn get_bifrost_config(&self) -> (res: BifrostConfig)
        ensures
            res == self.current().bifrost,
    {
        self.config.bifrost.duplicate()
    }

    pub fn get_tunnel_config(&self) -> (res: TunnelConfig)
        ensures
            res == self.current().tunnel,
    {
        self.config.tunnel.duplicate()
    }

    pub fn get_feature_config(&self) -> (res: FeatureConfig)
        ensures
            res == self.current().features,
    {
        self.config.features.duplicate()
    }

    pub fn get_monitoring_config(&self) -> (res: MonitoringConfig)
        ensures
            res == self.current().monitoring,
    {
        self.config.monitoring.duplicate()
    }

    /// A named value kept beside the configuration.
    pub fn get_custom_field(&self, key: &str) -> (res: Option<String>)
        ensures
            match res {
                Some(v) => self.custom().dom().contains(key@) && v == self.custom()[key@],
                None => !self.custom().dom().contains(key@),
            },
    {
        match self.custom_fields.get(key) {
            Some(v) => Some(v.clone()),
            None => None,
        }
    }

    /// Set a named value kept beside the configuration.
    pub fn set_custom_field(&mut self, key: &str, value: String) -> (res: MindLinkResult<()>)
        ensures
            res is Ok,
            final(self).custom() == old(self).custom().insert(key@, value),
            final(self).current() == old(self).current(),
            final(self).config_file() == old(self).config_file(),
            final(self).backup_file() == old(self).backup_file(),
    {
        self.custom_fields.insert(owned(key), value);
        Ok(())
    }

    /// The configuration a restore from the backup (at `backup_path`) brings,
    /// or why it cannot be restored: no backup, an unreadable or broken one,
    /// or an invalid configuration in it.
    pub fn restore_check(&self, read: BackupRead) -> (res: MindLinkResult<ConfigSchema>)
        ensures
            match read {
                BackupRead::Missing => res matches Err(e) && e.is_file_system(
                    "No backup configuration file found"@, Some(self.backup_file()), "check backup existence"@, None),
                BackupRead::Unreadable(src) => res matches Err(e) && e.is_file_system(
                    "Failed to read backup configuration"@, Some(self.backup_file()), "read backup"@, Some(src)),
                BackupRead::Unparsable(src) => res matches Err(e) && e.is_config(
                    "Failed to parse backup configuration"@, None, Some(src)),
                BackupRead::Parsed(c) => match config_violation(c) {
                    Some(_) => res matches Err(e) && validation_outcome(c, Err(e)),
                    None => res matches Ok(r) && r == c,
                },
            },
    {
        match read {
            BackupRead::Missing => Err(file_failure("No backup configuration file found", self.backup_path.as_str(),
                "check backup existence", None)),
            BackupRead::Unreadable(src) => Err(file_failure("Failed to read backup configuration",
                self.backup_path.as_str(), "read backup", Some(src))),
            BackupRead::Unparsable(src) => Err(config_failure("Failed to parse backup configuration", src)),
            BackupRead::Parsed(c) => match validate_config(&c) {
                Ok(()) => Ok(c),
                Err(e) => Err(e),
            },
        }
    }
}

} // verus!
