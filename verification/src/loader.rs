//! The configuration loader: starting from built-in defaults it merges a
//! base file, then prefixed environment overrides, then the directly
//! named secret overrides — later layers override earlier ones — and
//! validates the result. Errors are terminal: no partial configuration
//! is ever returned.

use vstd::prelude::*;
use vstd::string::*;
use crate::config::cors::{spec_cors_validate, CorsConfigV};
use crate::config::{
    spec_app_config_default, AppConfig, AppConfigV, ConfigSection, DatabaseConfig, DatabaseConfigV,
    LoggingConfig, LoggingConfigV, SecretsConfig, SecretsConfigV, ServerConfig, ServerConfigV,
};
use crate::error::{EnvConfigError, EnvConfigErrorV};
use crate::raw::{
    lookup, raw_str_items, str_views, RawConfigValue, RawItem, RawItemV, RawSection, RawValue,
    RawValueV,
};
use crate::strutil::{dec_value, is_dec_seq, parse_bool, parse_u64, str_eq};

verus! {

/// The secret environment overrides, read directly under their own
/// names and written into specific fields with highest precedence.
pub struct SecretOverrides {
    /// The value of `DATABASE_URL`, if set.
    pub database_url: Option<String>,
    /// The value of `JWT_SECRET`, if set.
    pub jwt_secret: Option<String>,
    /// The value of `REDIS_URL`, if set.
    pub redis_url: Option<String>,
}

/// Abstract value of a `SecretOverrides`.
#[verifier::ext_equal]
pub ghost struct SecretOverridesV {
    pub database_url: Option<Seq<char>>,
    pub jwt_secret: Option<Seq<char>>,
    pub redis_url: Option<Seq<char>>,
}

impl View for SecretOverrides {
    type V = SecretOverridesV;

    open spec fn view(&self) -> SecretOverridesV {
        SecretOverridesV {
            database_url: match &self.database_url {
                Some(u) => Some(u@),
                None => None,
            },
            jwt_secret: match &self.jwt_secret {
                Some(s) => Some(s@),
                None => None,
            },
            redis_url: match &self.redis_url {
                Some(u) => Some(u@),
                None => None,
            },
        }
    }
}

impl SecretOverrides {
    /// No secret overrides at all.
    pub fn none() -> (r: Self)
        ensures
            r@ == (SecretOverridesV { database_url: None, jwt_secret: None, redis_url: None }),
    {
        SecretOverrides { database_url: None, jwt_secret: None, redis_url: None }
    }
}

/// The abstract value of an optional parsed configuration file.
pub open spec fn file_view(file: Option<&RawConfigValue>) -> Option<
    Seq<(Seq<char>, Seq<(Seq<char>, RawValueV)>)>,
> {
    match file {
        Some(f) => Some(f@),
        None => None,
    }
}

/// The abstract values of the environment pairs.
pub open spec fn env_views(env: Seq<(String, String)>) -> Seq<(Seq<char>, Seq<char>)> {
    Seq::new(env.len(), |i: int| (env[i].0@, env[i].1@))
}

/// The configuration after the base file is merged over `c`: each
/// section present in the file is merged leniently, absent sections are
/// left at their prior values.
pub open spec fn spec_apply_file(
    c: AppConfigV,
    file: Option<Seq<(Seq<char>, Seq<(Seq<char>, RawValueV)>)>>,
) -> AppConfigV {
    match file {
        None => c,
        Some(f) => AppConfigV {
            server: match lookup(f, "server"@) {
                Some(s) => ServerConfig::spec_merged(c.server, s),
                None => c.server,
            },
            database: match lookup(f, "database"@) {
                Some(s) => DatabaseConfig::spec_merged(c.database, s),
                None => c.database,
            },
            logging: match lookup(f, "logging"@) {
                Some(s) => LoggingConfig::spec_merged(c.logging, s),
                None => c.logging,
            },
            secrets: match lookup(f, "secrets"@) {
                Some(s) => SecretsConfig::spec_merged(c.secrets, s),
                None => c.secrets,
            },
            cors: match lookup(f, "cors"@) {
                Some(s) => crate::config::cors::CorsConfig::spec_merged(c.cors, s),
                None => c.cors,
            },
        },
    }
}

/// One environment override applied to `c`. `None` means the value does
/// not parse to the type of the field that `key` names. Keys outside
/// the convention are ignored.
pub open spec fn env_step(c: AppConfigV, key: Seq<char>, val: Seq<char>) -> Option<AppConfigV> {
    if key == "APP_SERVER_HOST"@ {
        Some(AppConfigV { server: ServerConfigV { host: val, ..c.server }, ..c })
    } else if key == "APP_SERVER_PORT"@ {
        if is_dec_seq(val) && dec_value(val) <= u16::MAX {
            Some(
                AppConfigV {
                    server: ServerConfigV { port: dec_value(val) as u16, ..c.server },
                    ..c
                },
            )
        } else {
            None
        }
    } else if key == "APP_SERVER_TIMEOUT"@ {
        if is_dec_seq(val) && dec_value(val) <= u64::MAX {
            Some(
                AppConfigV {
                    server: ServerConfigV { timeout: dec_value(val) as u64, ..c.server },
                    ..c
                },
            )
        } else {
            None
        }
    } else if key == "APP_DATABASE_URL"@ {
        Some(AppConfigV { database: DatabaseConfigV { url: val, ..c.database }, ..c })
    } else if key == "APP_DATABASE_MAX_CONNECTIONS"@ {
        if is_dec_seq(val) && dec_value(val) <= u32::MAX {
            Some(
                AppConfigV {
                    database: DatabaseConfigV {
                        max_connections: dec_value(val) as u32,
                        ..c.database
                    },
                    ..c
                },
            )
        } else {
            None
        }
    } else if key == "APP_DATABASE_POOL_TIMEOUT"@ {
        if is_dec_seq(val) && dec_value(val) <= u64::MAX {
            Some(
                AppConfigV {
                    database: DatabaseConfigV { pool_timeout: dec_value(val) as u64, ..c.database },
                    ..c
                },
            )
        } else {
            None
        }
    } else if key == "APP_LOGGING_LEVEL"@ {
        Some(AppConfigV { logging: LoggingConfigV { level: val, ..c.logging }, ..c })
    } else if key == "APP_LOGGING_FORMAT"@ {
        Some(AppConfigV { logging: LoggingConfigV { format: val, ..c.logging }, ..c })
    } else if key == "APP_SECRETS_JWT_SECRET"@ {
        Some(AppConfigV { secrets: SecretsConfigV { jwt_secret: val, ..c.secrets }, ..c })
    } else if key == "APP_SECRETS_REDIS_URL"@ {
        Some(AppConfigV { secrets: SecretsConfigV { redis_url: Some(val), ..c.secrets }, ..c })
    } else if key == "APP_CORS_ALLOW_CREDENTIALS"@ {
        if val == "true"@ {
            Some(AppConfigV { cors: CorsConfigV { allow_credentials: true, ..c.cors }, ..c })
        } else if val == "false"@ {
            Some(AppConfigV { cors: CorsConfigV { allow_credentials: false, ..c.cors }, ..c })
        } else {
            None
        }
    } else if key == "APP_CORS_MAX_AGE"@ {
        if is_dec_seq(val) && dec_value(val) <= u64::MAX {
            Some(AppConfigV { cors: CorsConfigV { max_age: dec_value(val) as u64, ..c.cors }, ..c })
        } else {
            None
        }
    } else {
        Some(c)
    }
}

/// The environment overrides applied to `c` in order, later pairs
/// overriding earlier ones; the error names the first pair whose value
/// does not parse.
pub open spec fn apply_env(c: AppConfigV, env: Seq<(Seq<char>, Seq<char>)>) -> Result<
    AppConfigV,
    (Seq<char>, Seq<char>),
>
    decreases env.len(),
{
    if env.len() == 0 {
        Ok(c)
    } else {
        match apply_env(c, env.drop_last()) {
            Ok(c2) => match env_step(c2, env.last().0, env.last().1) {
                Some(c3) => Ok(c3),
                None => Err((env.last().0, env.last().1)),
            },
            Err(e) => Err(e),
        }
    }
}

/// The secret overrides written over `c`, with highest precedence.
pub open spec fn spec_apply_secrets(c: AppConfigV, s: SecretOverridesV) -> AppConfigV {
    AppConfigV {
        database: DatabaseConfigV {
            url: match s.database_url {
                Some(u) => u,
                None => c.database.url,
            },
            ..c.database
        },
        secrets: SecretsConfigV {
            jwt_secret: match s.jwt_secret {
                Some(j) => j,
                None => c.secrets.jwt_secret,
            },
            redis_url: match s.redis_url {
                Some(u) => Some(u),
                None => c.secrets.redis_url,
            },
        },
        ..c
    }
}

/// The fully merged configuration — defaults, then file, then
/// environment overrides, then secrets — or the first invalid
/// environment pair.
pub open spec fn spec_resolved(
    file: Option<Seq<(Seq<char>, Seq<(Seq<char>, RawValueV)>)>>,
    env: Seq<(Seq<char>, Seq<char>)>,
    secrets: SecretOverridesV,
) -> Result<AppConfigV, (Seq<char>, Seq<char>)> {
    match apply_env(spec_apply_file(spec_app_config_default(), file), env) {
        Ok(c) => Ok(spec_apply_secrets(c, secrets)),
        Err(e) => Err(e),
    }
}

fn apply_env_pair(c: &mut AppConfig, key: &String, val: &String) -> (r: Result<
    (),
    EnvConfigError,
>)
    ensures
        match env_step(old(c)@, key@, val@) {
            Some(cv) => r is Ok && final(c)@ == cv,
            None => r is Err && r->Err_0@ == (EnvConfigErrorV::InvalidValue {
                var_name: key@,
                value: val@,
            }),
        },
{
    if str_eq(key.as_str(), "APP_SERVER_HOST") {
        c.server.host = val.clone();
    } else if str_eq(key.as_str(), "APP_SERVER_PORT") {
        match parse_u64(val.as_str()) {
            Some(n) if n <= u16::MAX as u64 => {
                c.server.port = n as u16;
            },
            _ => {
                return Err(
                    EnvConfigError::InvalidValue { var_name: key.clone(), value: val.clone() },
                );
            },
        }
    } else if str_eq(key.as_str(), "APP_SERVER_TIMEOUT") {
        match parse_u64(val.as_str()) {
            Some(n) => {
                c.server.timeout = n;
            },
            None => {
                return Err(
                    EnvConfigError::InvalidValue { var_name: key.clone(), value: val.clone() },
                );
            },
        }
    } else if str_eq(key.as_str(), "APP_DATABASE_URL") {
        c.database.url = val.clone();
    } else if str_eq(key.as_str(), "APP_DATABASE_MAX_CONNECTIONS") {
        match parse_u64(val.as_str()) {
            Some(n) if n <= u32::MAX as u64 => {
                c.database.max_connections = n as u32;
            },
            _ => {
                return Err(
                    EnvConfigError::InvalidValue { var_name: key.clone(), value: val.clone() },
                );
            },
        }
    } else if str_eq(key.as_str(), "APP_DATABASE_POOL_TIMEOUT") {
        match parse_u64(val.as_str()) {
            Some(n) => {
                c.database.pool_timeout = n;
            },
            None => {
                return Err(
                    EnvConfigError::InvalidValue { var_name: key.clone(), value: val.clone() },
                );
            },
        }
    } else if str_eq(key.as_str(), "APP_LOGGING_LEVEL") {
        c.logging.level = val.clone();
    } else if str_eq(key.as_str(), "APP_LOGGING_FORMAT") {
        c.logging.format = val.clone();
    } else if str_eq(key.as_str(), "APP_SECRETS_JWT_SECRET") {
        c.secrets.jwt_secret = val.clone();
    } else if str_eq(key.as_str(), "APP_SECRETS_REDIS_URL") {
        c.secrets.redis_url = Some(val.clone());
    } else if str_eq(key.as_str(), "APP_CORS_ALLOW_CREDENTIALS") {
        match parse_bool(val.as_str()) {
            Some(b) => {
                c.cors.allow_credentials = b;
            },
            None => {
                return Err(
                    EnvConfigError::InvalidValue { var_name: key.clone(), value: val.clone() },
                );
            },
        }
    } else if str_eq(key.as_str(), "APP_CORS_MAX_AGE") {
        match parse_u64(val.as_str()) {
            Some(n) => {
                c.cors.max_age = n;
            },
            None => {
                return Err(
                    EnvConfigError::InvalidValue { var_name: key.clone(), value: val.clone() },
                );
            },
        }
    }
    Ok(())
}

#[verifier::loop_isolation(false)]
fn apply_env_overlay(config: AppConfig, env: &Vec<(String, String)>) -> (r: Result<
    AppConfig,
    EnvConfigError,
>)
    ensures
        match apply_env(config@, env_views(env@)) {
            Ok(cv) => r is Ok && r->Ok_0@ == cv,
            Err((k, v)) => r is Err && r->Err_0@ == (EnvConfigErrorV::InvalidValue {
                var_name: k,
                value: v,
            }),
        },
{
    let ghost c0 = config@;
    let ghost ev = env_views(env@);
    let mut c = config;
    let n = env.len();
    let mut i: usize = 0;
    while i < n
        invariant
            n == env.len(),
            i <= n,
            ev == env_views(env@),
            apply_env(c0, ev.take(i as int)) == Ok::<AppConfigV, (Seq<char>, Seq<char>)>(c@),
        decreases n - i,
    {
        let result = apply_env_pair(&mut c, &env[i].0, &env[i].1);
        proof {
            assert(ev.take(i + 1).drop_last() =~= ev.take(i as int));
            assert(ev.take(i + 1).last() == ev[i as int]);
            assert(ev[i as int] == (env@[i as int].0@, env@[i as int].1@));
        }
        match result {
            Ok(()) => {
                proof {
                    assert(apply_env(c0, ev.take(i + 1)) == Ok::<AppConfigV, (Seq<char>, Seq<char>)>(
                        c@,
                    ));
                }
            },
            Err(e) => {
                proof {
                    assert(apply_env(c0, ev.take(i + 1)) == Err::<AppConfigV, (Seq<char>, Seq<char>)>(
                        (ev[i as int].0, ev[i as int].1),
                    ));
                    lemma_apply_env_err_stays(c0, ev, i + 1);
                }
                return Err(e);
            },
        }
        i += 1;
    }
    proof {
        assert(ev.take(n as int) =~= ev);
    }
    Ok(c)
}

/// Once a prefix of the environment pairs errs, the whole sequence errs
/// with the same pair.
pub proof fn lemma_apply_env_err_stays(c: AppConfigV, env: Seq<(Seq<char>, Seq<char>)>, i: int)
    requires
        0 <= i <= env.len(),
        apply_env(c, env.take(i)) is Err,
    ensures
        apply_env(c, env) == apply_env(c, env.take(i)),
    decreases env.len() - i,
{
    if i < env.len() {
        assert(env.take(i + 1).drop_last() =~= env.take(i));
        lemma_apply_env_err_stays(c, env, i + 1);
    } else {
        assert(env.take(i) =~= env);
    }
}

/// The value of the last environment pair named `key`, if any: the one
/// that ends up applied, since pairs are applied in order.
pub open spec fn env_last(env: Seq<(Seq<char>, Seq<char>)>, key: Seq<char>) -> Option<Seq<char>>
    decreases env.len(),
{
    if env.len() == 0 {
        None
    } else if env.last().0 == key {
        Some(env.last().1)
    } else {
        env_last(env.drop_last(), key)
    }
}

/// A string field of the file layer: the section's field when the file
/// holds it, else the given default.
pub open spec fn file_str_field(
    file: Option<Seq<(Seq<char>, Seq<(Seq<char>, RawValueV)>)>>,
    section: Seq<char>,
    key: Seq<char>,
    dflt: Seq<char>,
) -> Seq<char> {
    match file {
        Some(f) => match lookup(f, section) {
            Some(s) => crate::config::merged_str(s, key, dflt),
            None => dflt,
        },
        None => dflt,
    }
}

/// A `u16` field of the file layer: the section's field when the file
/// holds a fitting integer under it, else the given default.
pub open spec fn file_u16_field(
    file: Option<Seq<(Seq<char>, Seq<(Seq<char>, RawValueV)>)>>,
    section: Seq<char>,
    key: Seq<char>,
    dflt: u16,
) -> u16 {
    match file {
        Some(f) => match lookup(f, section) {
            Some(s) => crate::config::merged_u16(s, key, dflt),
            None => dflt,
        },
        None => dflt,
    }
}

proof fn lemma_env_server_host(c: AppConfigV, env: Seq<(Seq<char>, Seq<char>)>)
    requires
        apply_env(c, env) is Ok,
    ensures
        apply_env(c, env)->Ok_0.server.host == (match env_last(env, "APP_SERVER_HOST"@) {
            Some(v) => v,
            None => c.server.host,
        }),
    decreases env.len(),
{
    if env.len() > 0 {
        assert(apply_env(c, env.drop_last()) is Ok);
        lemma_env_server_host(c, env.drop_last());
    }
}

proof fn lemma_env_server_port(c: AppConfigV, env: Seq<(Seq<char>, Seq<char>)>)
    requires
        apply_env(c, env) is Ok,
    ensures
        match env_last(env, "APP_SERVER_PORT"@) {
            Some(v) => is_dec_seq(v) && dec_value(v) <= u16::MAX && apply_env(
                c,
                env,
            )->Ok_0.server.port == dec_value(v) as u16,
            None => apply_env(c, env)->Ok_0.server.port == c.server.port,
        },
    decreases env.len(),
{
    reveal_strlit("APP_SERVER_HOST");
    reveal_strlit("APP_SERVER_PORT");
    assert("APP_SERVER_HOST"@.len() == 15 && "APP_SERVER_PORT"@.len() == 15);
    assert("APP_SERVER_HOST"@[11] == 'H' && "APP_SERVER_PORT"@[11] == 'P');
    if env.len() > 0 {
        assert(apply_env(c, env.drop_last()) is Ok);
        lemma_env_server_port(c, env.drop_last());
    }
}

proof fn lemma_env_database_url(c: AppConfigV, env: Seq<(Seq<char>, Seq<char>)>)
    requires
        apply_env(c, env) is Ok,
    ensures
        apply_env(c, env)->Ok_0.database.url == (match env_last(env, "APP_DATABASE_URL"@) {
            Some(v) => v,
            None => c.database.url,
        }),
    decreases env.len(),
{
    reveal_strlit("APP_SERVER_HOST");
    reveal_strlit("APP_SERVER_PORT");
    reveal_strlit("APP_SERVER_TIMEOUT");
    reveal_strlit("APP_DATABASE_URL");
    assert("APP_SERVER_HOST"@.len() == 15 && "APP_SERVER_PORT"@.len() == 15
        && "APP_SERVER_TIMEOUT"@.len() == 18 && "APP_DATABASE_URL"@.len() == 16);
    if env.len() > 0 {
        assert(apply_env(c, env.drop_last()) is Ok);
        lemma_env_database_url(c, env.drop_last());
    }
}

proof fn lemma_env_jwt_secret(c: AppConfigV, env: Seq<(Seq<char>, Seq<char>)>)
    requires
        apply_env(c, env) is Ok,
    ensures
        apply_env(c, env)->Ok_0.secrets.jwt_secret == (match env_last(
            env,
            "APP_SECRETS_JWT_SECRET"@,
        ) {
            Some(v) => v,
            None => c.secrets.jwt_secret,
        }),
    decreases env.len(),
{
    reveal_strlit("APP_SERVER_HOST");
    reveal_strlit("APP_SERVER_PORT");
    reveal_strlit("APP_SERVER_TIMEOUT");
    reveal_strlit("APP_DATABASE_URL");
    reveal_strlit("APP_DATABASE_MAX_CONNECTIONS");
    reveal_strlit("APP_DATABASE_POOL_TIMEOUT");
    reveal_strlit("APP_LOGGING_LEVEL");
    reveal_strlit("APP_LOGGING_FORMAT");
    reveal_strlit("APP_SECRETS_JWT_SECRET");
    assert("APP_SERVER_HOST"@.len() == 15 && "APP_SERVER_PORT"@.len() == 15
        && "APP_SERVER_TIMEOUT"@.len() == 18 && "APP_DATABASE_URL"@.len() == 16
        && "APP_DATABASE_MAX_CONNECTIONS"@.len() == 28 && "APP_DATABASE_POOL_TIMEOUT"@.len() == 25
        && "APP_LOGGING_LEVEL"@.len() == 17 && "APP_LOGGING_FORMAT"@.len() == 18
        && "APP_SECRETS_JWT_SECRET"@.len() == 22);
    if env.len() > 0 {
        assert(apply_env(c, env.drop_last()) is Ok);
        lemma_env_jwt_secret(c, env.drop_last());
    }
}

/// Law: merge precedence. On every resolution that succeeds, a secret
/// override beats a prefixed environment override, which beats a file
/// value, which beats the built-in default. Stated for the two
/// secret-bearing fields over all four layers, and for the server host
/// and port, which have no secret layer, over the remaining three.
pub proof fn lemma_merge_precedence(
    file: Option<Seq<(Seq<char>, Seq<(Seq<char>, RawValueV)>)>>,
    env: Seq<(Seq<char>, Seq<char>)>,
    secrets: SecretOverridesV,
)
    requires
        spec_resolved(file, env, secrets) is Ok,
    ensures
        ({
            let c = spec_resolved(file, env, secrets)->Ok_0;
            &&& c.database.url == (if secrets.database_url is Some {
                secrets.database_url->0
            } else if env_last(env, "APP_DATABASE_URL"@) is Some {
                env_last(env, "APP_DATABASE_URL"@)->0
            } else {
                file_str_field(file, "database"@, "url"@, Seq::empty())
            })
            &&& c.secrets.jwt_secret == (if secrets.jwt_secret is Some {
                secrets.jwt_secret->0
            } else if env_last(env, "APP_SECRETS_JWT_SECRET"@) is Some {
                env_last(env, "APP_SECRETS_JWT_SECRET"@)->0
            } else {
                file_str_field(file, "secrets"@, "jwt_secret"@, Seq::empty())
            })
            &&& c.server.host == (if env_last(env, "APP_SERVER_HOST"@) is Some {
                env_last(env, "APP_SERVER_HOST"@)->0
            } else {
                file_str_field(file, "server"@, "host"@, "127.0.0.1"@)
            })
            &&& c.server.port == (if env_last(env, "APP_SERVER_PORT"@) is Some {
                dec_value(env_last(env, "APP_SERVER_PORT"@)->0) as u16
            } else {
                file_u16_field(file, "server"@, "port"@, 3000)
            })
        }),
{
    let base = spec_apply_file(spec_app_config_default(), file);
    lemma_env_server_host(base, env);
    lemma_env_server_port(base, env);
    lemma_env_database_url(base, env);
    lemma_env_jwt_secret(base, env);
}

/// Whether every numeric field of `c` fits the signed integers of the
/// file format; nothing else in a configuration can be lost by writing
/// it out.
pub open spec fn spec_file_representable(c: AppConfigV) -> bool {
    &&& c.server.timeout <= i64::MAX
    &&& c.database.pool_timeout <= i64::MAX
    &&& c.cors.max_age <= i64::MAX
}

/// The file value a configuration serializes to: every section written
/// out field by field; an absent cache URL is omitted rather than
/// written.
pub open spec fn spec_to_raw(c: AppConfigV) -> Seq<(Seq<char>, Seq<(Seq<char>, RawValueV)>)> {
    seq![
        (
            "server"@,
            seq![
                ("host"@, RawValueV::Str(c.server.host)),
                ("port"@, RawValueV::Int(c.server.port as i64)),
                ("timeout"@, RawValueV::Int(c.server.timeout as i64)),
            ],
        ),
        (
            "database"@,
            seq![
                ("url"@, RawValueV::Str(c.database.url)),
                ("max_connections"@, RawValueV::Int(c.database.max_connections as i64)),
                ("pool_timeout"@, RawValueV::Int(c.database.pool_timeout as i64)),
            ],
        ),
        (
            "logging"@,
            seq![
                ("level"@, RawValueV::Str(c.logging.level)),
                ("format"@, RawValueV::Str(c.logging.format)),
            ],
        ),
        (
            "secrets"@,
            match c.secrets.redis_url {
                Some(u) => seq![
                    ("jwt_secret"@, RawValueV::Str(c.secrets.jwt_secret)),
                    ("redis_url"@, RawValueV::Str(u)),
                ],
                None => seq![("jwt_secret"@, RawValueV::Str(c.secrets.jwt_secret))],
            },
        ),
        (
            "cors"@,
            seq![
                ("allow_origins"@, RawValueV::Arr(raw_str_items(c.cors.allow_origins))),
                ("allow_methods"@, RawValueV::Arr(raw_str_items(c.cors.allow_methods))),
                ("allow_headers"@, RawValueV::Arr(raw_str_items(c.cors.allow_headers))),
                ("allow_credentials"@, RawValueV::Bool(c.cors.allow_credentials)),
                ("expose_headers"@, RawValueV::Arr(raw_str_items(c.cors.expose_headers))),
                ("max_age"@, RawValueV::Int(c.cors.max_age as i64)),
            ],
        ),
    ]
}

fn str_items(v: &Vec<String>) -> (r: Vec<RawItem>)
    ensures
        Seq::new(r@.len(), |i: int| r@[i]@) == raw_str_items(str_views(v@)),
{
    let mut r: Vec<RawItem> = Vec::new();
    let n = v.len();
    let mut i: usize = 0;
    while i < n
        invariant
            n == v.len(),
            i <= n,
            r@.len() == i,
            forall|j: int| 0 <= j < i ==> r@[j]@ == RawItemV::Str(v@[j]@),
        decreases n - i,
    {
        r.push(RawItem::Str(v[i].clone()));
        i += 1;
    }
    proof {
        assert(Seq::new(r@.len(), |i: int| r@[i]@) =~= raw_str_items(str_views(v@)));
    }
    r
}

impl AppConfig {
    /// Serializes the configuration to the file value shape, matching
    /// `spec_to_raw`; loading it back over the defaults reproduces the
    /// configuration (see `lemma_file_round_trip`).
    pub fn to_file_value(&self) -> (r: RawConfigValue)
        requires
            spec_file_representable(self@),
        ensures
            r@ == spec_to_raw(self@),
    {
        let mut server = RawSection::new();
        server.push(String::from_str("host"), RawValue::Str(self.server.host.clone()));
        server.push(String::from_str("port"), RawValue::Int(self.server.port as i64));
        server.push(String::from_str("timeout"), RawValue::Int(self.server.timeout as i64));

        let mut database = RawSection::new();
        database.push(String::from_str("url"), RawValue::Str(self.database.url.clone()));
        database.push(
            String::from_str("max_connections"),
            RawValue::Int(self.database.max_connections as i64),
        );
        database.push(
            String::from_str("pool_timeout"),
            RawValue::Int(self.database.pool_timeout as i64),
        );

        let mut logging = RawSection::new();
        logging.push(String::from_str("level"), RawValue::Str(self.logging.level.clone()));
        logging.push(String::from_str("format"), RawValue::Str(self.logging.format.clone()));

        let mut secrets = RawSection::new();
        secrets.push(
            String::from_str("jwt_secret"),
            RawValue::Str(self.secrets.jwt_secret.clone()),
        );
        if let Some(u) = &self.secrets.redis_url {
            secrets.push(String::from_str("redis_url"), RawValue::Str(u.clone()));
        }

        let mut cors = RawSection::new();
        cors.push(
            String::from_str("allow_origins"),
            RawValue::Arr(str_items(&self.cors.allow_origins)),
        );
        cors.push(
            String::from_str("allow_methods"),
            RawValue::Arr(str_items(&self.cors.allow_methods)),
        );
        cors.push(
            String::from_str("allow_headers"),
            RawValue::Arr(str_items(&self.cors.allow_headers)),
        );
        cors.push(
            String::from_str("allow_credentials"),
            RawValue::Bool(self.cors.allow_credentials),
        );
        cors.push(
            String::from_str("expose_headers"),
            RawValue::Arr(str_items(&self.cors.expose_headers)),
        );
        cors.push(String::from_str("max_age"), RawValue::Int(self.cors.max_age as i64));

        proof {
            assert(server@ =~= spec_to_raw(self@)[0].1);
            assert(database@ =~= spec_to_raw(self@)[1].1);
            assert(logging@ =~= spec_to_raw(self@)[2].1);
            assert(secrets@ =~= spec_to_raw(self@)[3].1);
            assert(cors@ =~= spec_to_raw(self@)[4].1);
        }

        let mut r = RawConfigValue::new();
        r.push(String::from_str("server"), server);
        r.push(String::from_str("database"), database);
        r.push(String::from_str("logging"), logging);
        r.push(String::from_str("secrets"), secrets);
        r.push(String::from_str("cors"), cors);
        proof {
            assert(r@ =~= spec_to_raw(self@));
        }
        r
    }
}

proof fn lemma_rt_server(c: AppConfigV, prior: ServerConfigV)
    requires
        spec_file_representable(c),
    ensures
        ServerConfig::spec_merged(prior, spec_to_raw(c)[0].1) == c.server,
{
    reveal_strlit("host");
    reveal_strlit("port");
    reveal_strlit("timeout");
    let s = spec_to_raw(c)[0].1;
    assert(s.len() == 3);
    assert(s[0].0 == "host"@ && s[1].0 == "port"@ && s[2].0 == "timeout"@);
    assert("host"@.len() == 4 && "port"@.len() == 4 && "timeout"@.len() == 7);
    assert("host"@[0] == 'h' && "port"@[0] == 'p');
    crate::raw::lemma_lookup_index(s, "host"@, 0);
    crate::raw::lemma_lookup_index(s, "port"@, 1);
    crate::raw::lemma_lookup_index(s, "timeout"@, 2);
    assert(ServerConfig::spec_merged(prior, s) =~= c.server);
}

proof fn lemma_rt_database(c: AppConfigV, prior: DatabaseConfigV)
    requires
        spec_file_representable(c),
    ensures
        DatabaseConfig::spec_merged(prior, spec_to_raw(c)[1].1) == c.database,
{
    reveal_strlit("url");
    reveal_strlit("max_connections");
    reveal_strlit("pool_timeout");
    let s = spec_to_raw(c)[1].1;
    assert(s.len() == 3);
    assert(s[0].0 == "url"@ && s[1].0 == "max_connections"@ && s[2].0 == "pool_timeout"@);
    assert("url"@.len() == 3 && "max_connections"@.len() == 15 && "pool_timeout"@.len() == 12);
    crate::raw::lemma_lookup_index(s, "url"@, 0);
    crate::raw::lemma_lookup_index(s, "max_connections"@, 1);
    crate::raw::lemma_lookup_index(s, "pool_timeout"@, 2);
    assert(DatabaseConfig::spec_merged(prior, s) =~= c.database);
}

proof fn lemma_rt_logging(c: AppConfigV, prior: LoggingConfigV)
    ensures
        LoggingConfig::spec_merged(prior, spec_to_raw(c)[2].1) == c.logging,
{
    reveal_strlit("level");
    reveal_strlit("format");
    let s = spec_to_raw(c)[2].1;
    assert(s.len() == 2);
    assert(s[0].0 == "level"@ && s[1].0 == "format"@);
    assert("level"@.len() == 5 && "format"@.len() == 6);
    crate::raw::lemma_lookup_index(s, "level"@, 0);
    crate::raw::lemma_lookup_index(s, "format"@, 1);
    assert(LoggingConfig::spec_merged(prior, s) =~= c.logging);
}

proof fn lemma_rt_secrets(c: AppConfigV, prior: SecretsConfigV)
    requires
        prior.redis_url is None || prior.redis_url == c.secrets.redis_url,
    ensures
        SecretsConfig::spec_merged(prior, spec_to_raw(c)[3].1) == c.secrets,
{
    reveal_strlit("jwt_secret");
    reveal_strlit("redis_url");
    let s = spec_to_raw(c)[3].1;
    assert(s[0].0 == "jwt_secret"@);
    assert("jwt_secret"@.len() == 10 && "redis_url"@.len() == 9);
    crate::raw::lemma_lookup_index(s, "jwt_secret"@, 0);
    if c.secrets.redis_url is Some {
        assert(s.len() == 2 && s[1].0 == "redis_url"@);
        crate::raw::lemma_lookup_index(s, "redis_url"@, 1);
    } else {
        assert(s.len() == 1);
        crate::raw::lemma_lookup_skip(s, "redis_url"@, 1);
        assert(s.skip(1) =~= Seq::<(Seq<char>, RawValueV)>::empty());
    }
    assert(SecretsConfig::spec_merged(prior, s) =~= c.secrets);
}

proof fn lemma_rt_cors(c: AppConfigV, prior: CorsConfigV)
    requires
        spec_file_representable(c),
    ensures
        crate::config::cors::CorsConfig::spec_merged(prior, spec_to_raw(c)[4].1) == c.cors,
{
    reveal_strlit("allow_origins");
    reveal_strlit("allow_methods");
    reveal_strlit("allow_headers");
    reveal_strlit("allow_credentials");
    reveal_strlit("expose_headers");
    reveal_strlit("max_age");
    let s = spec_to_raw(c)[4].1;
    assert(s.len() == 6);
    assert(s[0].0 == "allow_origins"@ && s[1].0 == "allow_methods"@ && s[2].0 == "allow_headers"@
        && s[3].0 == "allow_credentials"@ && s[4].0 == "expose_headers"@ && s[5].0 == "max_age"@);
    assert("allow_origins"@.len() == 13 && "allow_methods"@.len() == 13 && "allow_headers"@.len()
        == 13 && "allow_credentials"@.len() == 17 && "expose_headers"@.len() == 14
        && "max_age"@.len() == 7);
    assert("allow_origins"@[6] == 'o' && "allow_methods"@[6] == 'm' && "allow_headers"@[6] == 'h');
    crate::raw::lemma_lookup_index(s, "allow_origins"@, 0);
    crate::raw::lemma_lookup_index(s, "allow_methods"@, 1);
    crate::raw::lemma_lookup_index(s, "allow_headers"@, 2);
    crate::raw::lemma_lookup_index(s, "allow_credentials"@, 3);
    crate::raw::lemma_lookup_index(s, "expose_headers"@, 4);
    crate::raw::lemma_lookup_index(s, "max_age"@, 5);
    crate::raw::lemma_strings_of_str_items(c.cors.allow_origins);
    crate::raw::lemma_strings_of_str_items(c.cors.allow_methods);
    crate::raw::lemma_strings_of_str_items(c.cors.allow_headers);
    crate::raw::lemma_strings_of_str_items(c.cors.expose_headers);
    assert(crate::config::cors::CorsConfig::spec_merged(prior, s) =~= c.cors);
}

/// Law: writing a configuration out in the file shape and loading the
/// file back over the built-in defaults reproduces every field.
pub proof fn lemma_file_round_trip(c: AppConfigV)
    requires
        spec_file_representable(c),
    ensures
        spec_apply_file(spec_app_config_default(), Some(spec_to_raw(c))) == c,
{
    reveal_strlit("server");
    reveal_strlit("database");
    reveal_strlit("logging");
    reveal_strlit("secrets");
    reveal_strlit("cors");

    let f = spec_to_raw(c);
    assert(f.len() == 5);
    assert(f[0].0 == "server"@ && f[1].0 == "database"@ && f[2].0 == "logging"@ && f[3].0
        == "secrets"@ && f[4].0 == "cors"@);
    assert("server"@.len() == 6 && "database"@.len() == 8 && "logging"@.len() == 7
        && "secrets"@.len() == 7 && "cors"@.len() == 4);
    assert("logging"@[0] == 'l' && "secrets"@[0] == 's');
    crate::raw::lemma_lookup_index(f, "server"@, 0);
    crate::raw::lemma_lookup_index(f, "database"@, 1);
    crate::raw::lemma_lookup_index(f, "logging"@, 2);
    crate::raw::lemma_lookup_index(f, "secrets"@, 3);
    crate::raw::lemma_lookup_index(f, "cors"@, 4);

    let d = spec_app_config_default();
    lemma_rt_server(c, d.server);
    lemma_rt_database(c, d.database);
    lemma_rt_logging(c, d.logging);
    lemma_rt_secrets(c, d.secrets);
    lemma_rt_cors(c, d.cors);
    assert(spec_apply_file(d, Some(f)) =~= c);
}

impl AppConfig {
    /// Loads the configuration from its three layers over the built-in
    /// defaults: the parsed base file (absent files are tolerated), the
    /// `APP_`-prefixed environment pairs in order, and the named secret
    /// overrides, which take highest precedence. After the merge, the
    /// first unparsable environment value is reported as invalid; then
    /// the resolved database URL and signing secret must be non-empty,
    /// each failing with a missing-variable error naming the exact
    /// variable; then every section's own validation must pass.
    pub fn load(
        file: Option<&RawConfigValue>,
        env: &Vec<(String, String)>,
        secrets: SecretOverrides,
    ) -> (r: Result<AppConfig, EnvConfigError>)
        ensures
            match r {
                Ok(c) => {
                    &&& spec_resolved(file_view(file), env_views(env@), secrets@) == Ok::<
                        AppConfigV,
                        (Seq<char>, Seq<char>),
                    >(c@)
                    &&& c@.database.url.len() > 0
                    &&& c@.secrets.jwt_secret.len() > 0
                    &&& spec_cors_validate(c@.cors) is Ok
                },
                Err(e) => match spec_resolved(file_view(file), env_views(env@), secrets@) {
                    Err((k, v)) => e@ == (EnvConfigErrorV::InvalidValue { var_name: k, value: v }),
                    Ok(cv) => {
                        ||| (cv.database.url.len() == 0 && e@ == (EnvConfigErrorV::MissingVar {
                            var_name: "DATABASE_URL"@,
                        }))
                        ||| (cv.database.url.len() > 0 && cv.secrets.jwt_secret.len() == 0 && e@
                            == (EnvConfigErrorV::MissingVar { var_name: "JWT_SECRET"@ }))
                        ||| (cv.database.url.len() > 0 && cv.secrets.jwt_secret.len() > 0
                            && spec_cors_validate(cv.cors) is Err && e@
                            == EnvConfigErrorV::InvalidConfig(spec_cors_validate(cv.cors)->Err_0))
                    },
                },
            },
    {
        let mut config = AppConfig::default();

        // Base file, merged section by section; missing sections and a
        // missing file keep the defaults.
        if let Some(f) = file {
            if let Some(sec) = f.get_section("server") {
                let _ = config.server.load_from_value(sec);
            }
            if let Some(sec) = f.get_section("database") {
                let _ = config.database.load_from_value(sec);
            }
            if let Some(sec) = f.get_section("logging") {
                let _ = config.logging.load_from_value(sec);
            }
            if let Some(sec) = f.get_section("secrets") {
                let _ = config.secrets.load_from_value(sec);
            }
            if let Some(sec) = f.get_section("cors") {
                let _ = config.cors.load_from_value(sec);
            }
        }
        proof {
            assert(config@ =~= spec_apply_file(spec_app_config_default(), file_view(file)));
        }

        // Environment overlay, in pair order.
        let mut config = match apply_env_overlay(config, env) {
            Ok(c) => c,
            Err(e) => {
                return Err(e);
            },
        };

        // Secret overrides, highest precedence.
        if let Some(u) = secrets.database_url {
            config.database.url = u;
        }
        if let Some(s) = secrets.jwt_secret {
            config.secrets.jwt_secret = s;
        }
        if let Some(u) = secrets.redis_url {
            config.secrets.redis_url = Some(u);
        }
        proof {
            assert(spec_resolved(file_view(file), env_views(env@), secrets@) == Ok::<
                AppConfigV,
                (Seq<char>, Seq<char>),
            >(config@));
        }

        // Required fields, each failing with the variable it names.
        if config.database.url.as_str().is_empty() {
            return Err(EnvConfigError::MissingVar { var_name: String::from_str("DATABASE_URL") });
        }
        if config.secrets.jwt_secret.as_str().is_empty() {
            return Err(EnvConfigError::MissingVar { var_name: String::from_str("JWT_SECRET") });
        }

        // Per-section validation, only after the merge is complete.
        if let Err(msg) = config.server.validate() {
            return Err(EnvConfigError::InvalidConfig(msg));
        }
        if let Err(msg) = config.database.validate() {
            return Err(EnvConfigError::InvalidConfig(msg));
        }
        if let Err(msg) = config.logging.validate() {
            return Err(EnvConfigError::InvalidConfig(msg));
        }
        if let Err(msg) = config.secrets.validate() {
            return Err(EnvConfigError::InvalidConfig(msg));
        }
        if let Err(msg) = config.cors.validate() {
            return Err(EnvConfigError::InvalidConfig(msg));
        }

        Ok(config)
    }
}

} // verus!
