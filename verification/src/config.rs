//! Typed configuration sections. Each section owns its defaults, merges
//! leniently from an untyped value (unknown or type-mismatched keys are
//! ignored, prior values kept) and validates itself only after the merge
//! is complete.

pub mod cors;

use vstd::prelude::*;
use vstd::string::*;
use crate::raw::{RawSection, RawValueV, sec_bool, sec_int, sec_str};
use crate::strutil::{dec_str, str_eq, u64_to_string};

verus! {

/// A configuration sub-block: it can report its name, merge fields from
/// an untyped section value, and check its own semantic rules. The three
/// spec functions pin each operation down per implementing type.
pub trait ConfigSection: View + Sized {
    /// The diagnostic name of the section.
    spec fn spec_name() -> Seq<char>;

    /// The section after the fields of `s` are merged into `prior`:
    /// a field present with the right type replaces the prior value,
    /// everything else leaves it unchanged.
    spec fn spec_merged(prior: Self::V, s: Seq<(Seq<char>, RawValueV)>) -> Self::V;

    /// Semantic validity of a merged section, with the exact message on
    /// failure.
    spec fn spec_validate(v: Self::V) -> Result<(), Seq<char>>;

    /// Reports the section's name.
    fn section_name(&self) -> (r: &'static str)
        ensures
            r@ == Self::spec_name(),
    ;

    /// Merges the fields of `v` into this section. The merge is
    /// lenient — unknown and type-mismatched keys are ignored, prior
    /// values kept — so it always succeeds.
    fn load_from_value(&mut self, v: &RawSection) -> (r: Result<(), String>)
        ensures
            r is Ok,
            final(self)@ == Self::spec_merged(old(self)@, v@),
    ;

    /// Checks the section's semantic rules; runs only after the merge
    /// is complete, never on partial state.
    fn validate(&self) -> (r: Result<(), String>)
        ensures
            ({
                let sv = Self::spec_validate(self@);
                match r {
                    Ok(_) => sv is Ok,
                    Err(m) => sv == Err::<(), Seq<char>>(m@),
                }
            }),
    ;
}

/// A string field of `s`, or the prior value if absent or not a string.
pub open spec fn merged_str(
    s: Seq<(Seq<char>, RawValueV)>,
    key: Seq<char>,
    prior: Seq<char>,
) -> Seq<char> {
    match sec_str(s, key) {
        Some(t) => t,
        None => prior,
    }
}

/// An integer field of `s` coerced to `u16`, or the prior value if
/// absent, not an integer, or out of range.
pub open spec fn merged_u16(s: Seq<(Seq<char>, RawValueV)>, key: Seq<char>, prior: u16) -> u16 {
    match sec_int(s, key) {
        Some(n) => if 0 <= n <= u16::MAX { n as u16 } else { prior },
        None => prior,
    }
}

/// An integer field of `s` coerced to `u32`, or the prior value if
/// absent, not an integer, or out of range.
pub open spec fn merged_u32(s: Seq<(Seq<char>, RawValueV)>, key: Seq<char>, prior: u32) -> u32 {
    match sec_int(s, key) {
        Some(n) => if 0 <= n <= u32::MAX { n as u32 } else { prior },
        None => prior,
    }
}

/// An integer field of `s` coerced to `u64`, or the prior value if
/// absent, not an integer, or negative.
pub open spec fn merged_u64(s: Seq<(Seq<char>, RawValueV)>, key: Seq<char>, prior: u64) -> u64 {
    match sec_int(s, key) {
        Some(n) => if 0 <= n { n as u64 } else { prior },
        None => prior,
    }
}

/// A boolean field of `s`, or the prior value if absent or not a
/// boolean.
pub open spec fn merged_bool(s: Seq<(Seq<char>, RawValueV)>, key: Seq<char>, prior: bool) -> bool {
    match sec_bool(s, key) {
        Some(b) => b,
        None => prior,
    }
}

/// Server listen address and request timeout.
#[derive(Debug, Clone)]
pub struct ServerConfig {
    /// Bind address.
    pub host: String,
    /// Bind port.
    pub port: u16,
    /// Request timeout in seconds.
    pub timeout: u64,
}

/// Abstract value of a `ServerConfig`.
#[verifier::ext_equal]
pub ghost struct ServerConfigV {
    pub host: Seq<char>,
    pub port: u16,
    pub timeout: u64,
}

impl View for ServerConfig {
    type V = ServerConfigV;

    open spec fn view(&self) -> ServerConfigV {
        ServerConfigV { host: self.host@, port: self.port, timeout: self.timeout }
    }
}

/// The built-in server defaults.
pub open spec fn spec_server_default() -> ServerConfigV {
    ServerConfigV { host: "127.0.0.1"@, port: 3000, timeout: 30 }
}

impl Default for ServerConfig {
    fn default() -> (r: Self)
        ensures
            r@ == spec_server_default(),
    {
        ServerConfig { host: String::from_str("127.0.0.1"), port: 3000, timeout: 30 }
    }
}

impl ConfigSection for ServerConfig {
    open spec fn spec_name() -> Seq<char> {
        "server"@
    }

    open spec fn spec_merged(prior: ServerConfigV, s: Seq<(Seq<char>, RawValueV)>) -> ServerConfigV {
        ServerConfigV {
            host: merged_str(s, "host"@, prior.host),
            port: merged_u16(s, "port"@, prior.port),
            timeout: merged_u64(s, "timeout"@, prior.timeout),
        }
    }

    open spec fn spec_validate(v: ServerConfigV) -> Result<(), Seq<char>> {
        Ok(())
    }

    fn section_name(&self) -> (r: &'static str) {
        "server"
    }

    fn load_from_value(&mut self, v: &RawSection) -> (r: Result<(), String>) {
        if let Some(s) = v.get_str("host") {
            self.host = s;
        }
        if let Some(n) = v.get_int("port") {
            if 0 <= n && n <= u16::MAX as i64 {
                self.port = n as u16;
            }
        }
        if let Some(n) = v.get_int("timeout") {
            if 0 <= n {
                self.timeout = n as u64;
            }
        }
        Ok(())
    }

    fn validate(&self) -> (r: Result<(), String>) {
        Ok(())
    }
}

/// Database connection settings.
#[derive(Debug, Clone)]
pub struct DatabaseConfig {
    /// Connection URL; required to be non-empty after resolution.
    pub url: String,
    /// Upper bound of the connection pool.
    pub max_connections: u32,
    /// Pool connect timeout in seconds.
    pub pool_timeout: u64,
}

/// Abstract value of a `DatabaseConfig`.
#[verifier::ext_equal]
pub ghost struct DatabaseConfigV {
    pub url: Seq<char>,
    pub max_connections: u32,
    pub pool_timeout: u64,
}

impl View for DatabaseConfig {
    type V = DatabaseConfigV;

    open spec fn view(&self) -> DatabaseConfigV {
        DatabaseConfigV {
            url: self.url@,
            max_connections: self.max_connections,
            pool_timeout: self.pool_timeout,
        }
    }
}

/// The built-in database defaults; the URL has no default and must come
/// from an override.
pub open spec fn spec_database_default() -> DatabaseConfigV {
    DatabaseConfigV { url: Seq::empty(), max_connections: 10, pool_timeout: 30 }
}

impl Default for DatabaseConfig {
    fn default() -> (r: Self)
        ensures
            r@ == spec_database_default(),
    {
        DatabaseConfig { url: String::new(), max_connections: 10, pool_timeout: 30 }
    }
}

impl ConfigSection for DatabaseConfig {
    open spec fn spec_name() -> Seq<char> {
        "database"@
    }

    open spec fn spec_merged(
        prior: DatabaseConfigV,
        s: Seq<(Seq<char>, RawValueV)>,
    ) -> DatabaseConfigV {
        DatabaseConfigV {
            url: merged_str(s, "url"@, prior.url),
            max_connections: merged_u32(s, "max_connections"@, prior.max_connections),
            pool_timeout: merged_u64(s, "pool_timeout"@, prior.pool_timeout),
        }
    }

    open spec fn spec_validate(v: DatabaseConfigV) -> Result<(), Seq<char>> {
        Ok(())
    }

    fn section_name(&self) -> (r: &'static str) {
        "database"
    }

    fn load_from_value(&mut self, v: &RawSection) -> (r: Result<(), String>) {
        if let Some(s) = v.get_str("url") {
            self.url = s;
        }
        if let Some(n) = v.get_int("max_connections") {
            if 0 <= n && n <= u32::MAX as i64 {
                self.max_connections = n as u32;
            }
        }
        if let Some(n) = v.get_int("pool_timeout") {
            if 0 <= n {
                self.pool_timeout = n as u64;
            }
        }
        Ok(())
    }

    fn validate(&self) -> (r: Result<(), String>) {
        Ok(())
    }
}

/// Log level and output format.
#[derive(Debug, Clone)]
pub struct LoggingConfig {
    /// Log level: `trace`, `debug`, `info`, `warn`, `error` or `off`.
    pub level: String,
    /// Log format: `pretty`, `json`, or anything else for compact.
    pub format: String,
}

/// Abstract value of a `LoggingConfig`.
#[verifier::ext_equal]
pub ghost struct LoggingConfigV {
    pub level: Seq<char>,
    pub format: Seq<char>,
}

impl View for LoggingConfig {
    type V = LoggingConfigV;

    open spec fn view(&self) -> LoggingConfigV {
        LoggingConfigV { level: self.level@, format: self.format@ }
    }
}

/// The built-in logging defaults.
pub open spec fn spec_logging_default() -> LoggingConfigV {
    LoggingConfigV { level: "info"@, format: "pretty"@ }
}

impl Default for LoggingConfig {
    fn default() -> (r: Self)
        ensures
            r@ == spec_logging_default(),
    {
        LoggingConfig { level: String::from_str("info"), format: String::from_str("pretty") }
    }
}

impl ConfigSection for LoggingConfig {
    open spec fn spec_name() -> Seq<char> {
        "logging"@
    }

    open spec fn spec_merged(
        prior: LoggingConfigV,
        s: Seq<(Seq<char>, RawValueV)>,
    ) -> LoggingConfigV {
        LoggingConfigV {
            level: merged_str(s, "level"@, prior.level),
            format: merged_str(s, "format"@, prior.format),
        }
    }

    open spec fn spec_validate(v: LoggingConfigV) -> Result<(), Seq<char>> {
        Ok(())
    }

    fn section_name(&self) -> (r: &'static str) {
        "logging"
    }

    fn load_from_value(&mut self, v: &RawSection) -> (r: Result<(), String>) {
        if let Some(s) = v.get_str("level") {
            self.level = s;
        }
        if let Some(s) = v.get_str("format") {
            self.format = s;
        }
        Ok(())
    }

    fn validate(&self) -> (r: Result<(), String>) {
        Ok(())
    }
}

/// The log output format a logging configuration selects.
#[derive(Debug, Clone, Copy, PartialEq, Eq, Structural)]
pub enum LogFormat {
    Json,
    Pretty,
    Compact,
}

impl LoggingConfig {
    /// Which output format the `format` field selects: `json` and
    /// `pretty` by name, anything else the compact format.
    pub fn format_kind(&self) -> (r: LogFormat)
        ensures
            r == (if self@.format == "json"@ {
                LogFormat::Json
            } else if self@.format == "pretty"@ {
                LogFormat::Pretty
            } else {
                LogFormat::Compact
            }),
    {
        if str_eq(self.format.as_str(), "json") {
            LogFormat::Json
        } else if str_eq(self.format.as_str(), "pretty") {
            LogFormat::Pretty
        } else {
            LogFormat::Compact
        }
    }

    /// Whether `level` is one of the named levels a logging backend
    /// accepts.
    pub fn level_is_known(&self) -> (r: bool)
        ensures
            r == spec_level_is_known(self@.level),
    {
        str_eq(self.level.as_str(), "trace") || str_eq(self.level.as_str(), "debug") || str_eq(
            self.level.as_str(),
            "info",
        ) || str_eq(self.level.as_str(), "warn") || str_eq(self.level.as_str(), "error") || str_eq(
            self.level.as_str(),
            "off",
        )
    }
}

/// The named log levels.
pub open spec fn spec_level_is_known(level: Seq<char>) -> bool {
    level == "trace"@ || level == "debug"@ || level == "info"@ || level == "warn"@ || level
        == "error"@ || level == "off"@
}

/// Secret values read from the environment rather than the file.
#[derive(Debug, Clone)]
pub struct SecretsConfig {
    /// Token signing secret; required to be non-empty after resolution.
    pub jwt_secret: String,
    /// Cache connection URL, if one is configured.
    pub redis_url: Option<String>,
}

/// Abstract value of a `SecretsConfig`.
#[verifier::ext_equal]
pub ghost struct SecretsConfigV {
    pub jwt_secret: Seq<char>,
    pub redis_url: Option<Seq<char>>,
}

impl View for SecretsConfig {
    type V = SecretsConfigV;

    open spec fn view(&self) -> SecretsConfigV {
        SecretsConfigV {
            jwt_secret: self.jwt_secret@,
            redis_url: match &self.redis_url {
                Some(u) => Some(u@),
                None => None,
            },
        }
    }
}

/// The built-in secrets defaults: nothing, so that resolution fails
/// unless the required overrides are given.
pub open spec fn spec_secrets_default() -> SecretsConfigV {
    SecretsConfigV { jwt_secret: Seq::empty(), redis_url: None }
}

impl Default for SecretsConfig {
    fn default() -> (r: Self)
        ensures
            r@ == spec_secrets_default(),
    {
        SecretsConfig { jwt_secret: String::new(), redis_url: None }
    }
}

impl ConfigSection for SecretsConfig {
    open spec fn spec_name() -> Seq<char> {
        "secrets"@
    }

    open spec fn spec_merged(
        prior: SecretsConfigV,
        s: Seq<(Seq<char>, RawValueV)>,
    ) -> SecretsConfigV {
        SecretsConfigV {
            jwt_secret: merged_str(s, "jwt_secret"@, prior.jwt_secret),
            redis_url: match sec_str(s, "redis_url"@) {
                Some(t) => Some(t),
                None => prior.redis_url,
            },
        }
    }

    open spec fn spec_validate(v: SecretsConfigV) -> Result<(), Seq<char>> {
        Ok(())
    }

    fn section_name(&self) -> (r: &'static str) {
        "secrets"
    }

    fn load_from_value(&mut self, v: &RawSection) -> (r: Result<(), String>) {
        if let Some(s) = v.get_str("jwt_secret") {
            self.jwt_secret = s;
        }
        if let Some(s) = v.get_str("redis_url") {
            self.redis_url = Some(s);
        }
        Ok(())
    }

    fn validate(&self) -> (r: Result<(), String>) {
        Ok(())
    }
}

/// The resolved application configuration: every section complete and
/// defaulted even when absent from input. Constructed once at startup
/// and read-only thereafter.
#[derive(Debug, Clone)]
pub struct AppConfig {
    pub server: ServerConfig,
    pub database: DatabaseConfig,
    pub logging: LoggingConfig,
    pub secrets: SecretsConfig,
    pub cors: cors::CorsConfig,
}

/// Abstract value of an `AppConfig`.
#[verifier::ext_equal]
pub ghost struct AppConfigV {
    pub server: ServerConfigV,
    pub database: DatabaseConfigV,
    pub logging: LoggingConfigV,
    pub secrets: SecretsConfigV,
    pub cors: cors::CorsConfigV,
}

impl View for AppConfig {
    type V = AppConfigV;

    open spec fn view(&self) -> AppConfigV {
        AppConfigV {
            server: self.server@,
            database: self.database@,
            logging: self.logging@,
            secrets: self.secrets@,
            cors: self.cors@,
        }
    }
}

/// The built-in defaults of the whole configuration.
pub open spec fn spec_app_config_default() -> AppConfigV {
    AppConfigV {
        server: spec_server_default(),
        database: spec_database_default(),
        logging: spec_logging_default(),
        secrets: spec_secrets_default(),
        cors: cors::spec_cors_default(),
    }
}

impl Default for AppConfig {
    fn default() -> (r: Self)
        ensures
            r@ == spec_app_config_default(),
    {
        AppConfig {
            server: ServerConfig::default(),
            database: DatabaseConfig::default(),
            logging: LoggingConfig::default(),
            secrets: SecretsConfig::default(),
            cors: cors::CorsConfig::default(),
        }
    }
}

impl AppConfig {
    /// The listen address, `host:port` with the port in decimal.
    pub fn server_addr(&self) -> (r: String)
        ensures
            r@ == self@.server.host + ":"@ + dec_str(self@.server.port as nat),
    {
        let mut s = self.server.host.clone();
        s.append(":");
        let port = u64_to_string(self.server.port as u64);
        s.append(port.as_str());
        s
    }
}

/// The slice of the configuration that request handlers keep in shared
/// state.
#[derive(Debug, Clone)]
pub struct AppStateConfig {
    pub jwt_secret: String,
}

impl AppStateConfig {
    /// Extracts the shared-state slice from a resolved configuration.
    pub fn from_config(c: &AppConfig) -> (r: Self)
        ensures
            r.jwt_secret@ == c@.secrets.jwt_secret,
    {
        AppStateConfig { jwt_secret: c.secrets.jwt_secret.clone() }
    }
}

} // verus!
