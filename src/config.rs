//! Service settings, their defaults per profile, and the checks they must pass.

use crate::text::{has_prefix, same_text, split, split_seq, starts_with, trim, trim_seq};
use vstd::prelude::*;

pub mod secrets;

verus! {

/// The default Content-Security-Policy.
pub const DEFAULT_CSP: &'static str = "default-src 'self'; script-src 'self' 'unsafe-inline'; style-src 'self' 'unsafe-inline'";

#[derive(Clone, Debug)]
pub struct ServerConfig {
    pub port: u16,
    pub host: String,
}

#[derive(Clone, Debug)]
pub struct DatabaseConfig {
    pub db_type: String,
    pub convex_deployment_url: Option<String>,
}

#[derive(Clone, Debug)]
pub struct LoggingConfig {
    pub rust_log: String,
}

#[derive(Clone, Copy, Debug)]
pub struct RateLimitConfig {
    pub enabled: bool,
    pub max_requests: u64,
    pub window_seconds: u64,
}

#[derive(Clone, Debug)]
pub struct SecurityConfig {
    pub strict_mode: bool,
    pub csp: String,
}

#[derive(Clone, Debug)]
pub struct AuthConfig {
    pub enabled: bool,
    pub jwks_urls: Vec<String>,
    pub audience: Option<String>,
    pub issuer: Option<String>,
    pub jwks_cache_seconds: u64,
}

#[derive(Clone, Debug)]
pub struct CorsConfig {
    pub allowed_origins: Vec<String>,
}

#[derive(Clone, Copy, Debug)]
pub struct MetricsConfig {
    pub enabled: bool,
}

#[derive(Clone, Copy, Debug)]
pub struct ShutdownConfig {
    pub timeout_seconds: u64,
}

/// All settings of the service.
#[derive(Clone, Debug)]
pub struct Config {
    pub server: ServerConfig,
    pub database: DatabaseConfig,
    pub logging: LoggingConfig,
    pub rate_limit: RateLimitConfig,
    pub security: SecurityConfig,
    pub auth: AuthConfig,
    pub cors: CorsConfig,
    pub metrics: MetricsConfig,
    pub shutdown: ShutdownConfig,
}

/// A setting that is missing or out of range.
#[derive(Clone, Debug)]
pub struct ConfigError {
    message: String,
}

impl ConfigError {
    pub fn new(message: String) -> (r: Self)
        ensures
            r.spec_message() == message@,
    {
        ConfigError { message }
    }

    pub closed spec fn spec_message(&self) -> Seq<char> {
        self.message@
    }

    /// What is wrong.
    pub fn message(&self) -> (r: &str)
        ensures
            r@ == self.spec_message(),
    {
        self.message.as_str()
    }

    /// The text shown for the error.
    pub fn to_text(&self) -> (r: String)
        ensures
            r@ == "Configuration error: "@ + self.spec_message(),
    {
        let mut s = "Configuration error: ".to_owned();
        s.append(self.message.as_str());
        s
    }
}

fn err_text(s: &str) -> (r: ConfigError)
    ensures
        r.spec_message() == s@,
{
    ConfigError { message: s.to_owned() }
}

pub fn default_host() -> (r: String)
    ensures
        r@ == "0.0.0.0"@,
{
    "0.0.0.0".to_owned()
}

pub fn default_database_type() -> (r: String)
    ensures
        r@ == "memory"@,
{
    "memory".to_owned()
}

pub fn default_rust_log() -> (r: String)
    ensures
        r@ == "estuary=debug,tower_http=debug"@,
{
    "estuary=debug,tower_http=debug".to_owned()
}

pub fn default_csp() -> (r: String)
    ensures
        r@ == DEFAULT_CSP@,
{
    DEFAULT_CSP.to_owned()
}

impl Default for ServerConfig {
    fn default() -> (r: Self)
        ensures
            r.port == 3000,
            r.host@ == "0.0.0.0"@,
    {
        ServerConfig { port: 3000, host: default_host() }
    }
}

impl Default for DatabaseConfig {
    fn default() -> (r: Self)
        ensures
            r.db_type@ == "memory"@,
            r.convex_deployment_url is None,
    {
        DatabaseConfig { db_type: default_database_type(), convex_deployment_url: None }
    }
}

impl Default for LoggingConfig {
    fn default() -> (r: Self)
        ensures
            r.rust_log@ == "estuary=debug,tower_http=debug"@,
    {
        LoggingConfig { rust_log: default_rust_log() }
    }
}

impl RateLimitConfig {
    /// Production admits 100 requests a minute, other profiles 1000.
    pub fn default_for_profile(is_production: bool) -> (r: Self)
        ensures
            r.enabled,
            r.max_requests == (if is_production { 100u64 } else { 1000u64 }),
            r.window_seconds == 60,
    {
        if is_production {
            RateLimitConfig { enabled: true, max_requests: 100, window_seconds: 60 }
        } else {
            RateLimitConfig { enabled: true, max_requests: 1000, window_seconds: 60 }
        }
    }
}

impl Default for RateLimitConfig {
    fn default() -> (r: Self)
        ensures
            r.enabled,
            r.max_requests == 1000,
            r.window_seconds == 60,
    {
        RateLimitConfig::default_for_profile(false)
    }
}

impl SecurityConfig {
    /// Strict mode in production, permissive otherwise; the default policy.
    pub fn default_for_profile(is_production: bool) -> (r: Self)
        ensures
            r.strict_mode == is_production,
            r.csp@ == DEFAULT_CSP@,
    {
        SecurityConfig { strict_mode: is_production, csp: default_csp() }
    }
}

impl Default for SecurityConfig {
    fn default() -> (r: Self)
        ensures
            !r.strict_mode,
            r.csp@ == DEFAULT_CSP@,
    {
        SecurityConfig::default_for_profile(false)
    }
}

impl Default for AuthConfig {
    fn default() -> (r: Self)
        ensures
            !r.enabled,
            r.jwks_urls@.len() == 0,
            r.audience is None,
            r.issuer is None,
            r.jwks_cache_seconds == 3600,
    {
        AuthConfig {
            enabled: false,
            jwks_urls: Vec::new(),
            audience: None,
            issuer: None,
            jwks_cache_seconds: 3600,
        }
    }
}

impl Default for CorsConfig {
    fn default() -> (r: Self)
        ensures
            r.allowed_origins@.len() == 0,
    {
        CorsConfig { allowed_origins: Vec::new() }
    }
}

impl Default for MetricsConfig {
    fn default() -> (r: Self)
        ensures
            r.enabled,
    {
        MetricsConfig { enabled: true }
    }
}

impl Default for ShutdownConfig {
    fn default() -> (r: Self)
        ensures
            r.timeout_seconds == 30,
    {
        ShutdownConfig { timeout_seconds: 30 }
    }
}

/// What `core::time::Duration::from_secs` makes of a number of seconds.
pub uninterp spec fn duration_of_secs(secs: u64) -> core::time::Duration;

/// Relies on `core::time::Duration::from_secs`: a duration of `secs` seconds.
#[verifier::external_body]
fn duration_from_secs(secs: u64) -> (r: core::time::Duration)
    ensures
        r == duration_of_secs(secs),
{
    core::time::Duration::from_secs(secs)
}

/// A URL that starts with `http://` or `https://`.
pub open spec fn is_http_url(u: Seq<char>) -> bool {
    has_prefix(u, "https://"@) || has_prefix(u, "http://"@)
}

/// The checks a loaded configuration must pass: a port other than 0, a
/// positive request limit and window, a key-set cache time of 60 to 86400
/// seconds, a shutdown timeout of 1 to 300 seconds, and, with
/// authentication on, key-set URLs that are http or https.
pub open spec fn settings_valid(c: Config) -> bool {
    &&& c.server.port != 0
    &&& c.rate_limit.max_requests != 0
    &&& c.rate_limit.window_seconds != 0
    &&& 60 <= c.auth.jwks_cache_seconds <= 86400
    &&& 1 <= c.shutdown.timeout_seconds <= 300
    &&& c.auth.enabled ==> forall|i: int|
        0 <= i < c.auth.jwks_urls@.len() ==> is_http_url(#[trigger] c.auth.jwks_urls@[i]@)
}

/// The database settings are usable: "memory", or "convex" with a deployment URL.
pub open spec fn database_ready(d: DatabaseConfig) -> bool {
    ||| d.db_type@ == "memory"@
    ||| d.db_type@ == "convex"@ && d.convex_deployment_url is Some
}

impl Config {
    /// The defaults of a profile: production or not.
    pub fn for_profile(is_production: bool) -> (r: Self)
        ensures
            r.server.port == 3000,
            r.database.db_type@ == "memory"@,
            r.database.convex_deployment_url is None,
            r.rate_limit.enabled,
            r.rate_limit.max_requests == (if is_production { 100u64 } else { 1000u64 }),
            r.rate_limit.window_seconds == 60,
            r.security.strict_mode == is_production,
            !r.auth.enabled,
            r.auth.jwks_urls@.len() == 0,
            r.auth.jwks_cache_seconds == 3600,
            r.cors.allowed_origins@.len() == 0,
            r.metrics.enabled,
            r.shutdown.timeout_seconds == 30,
    {
        Config {
            server: ServerConfig::default(),
            database: DatabaseConfig::default(),
            logging: LoggingConfig::default(),
            rate_limit: RateLimitConfig::default_for_profile(is_production),
            security: SecurityConfig::default_for_profile(is_production),
            auth: AuthConfig::default(),
            cors: CorsConfig::default(),
            metrics: MetricsConfig::default(),
            shutdown: ShutdownConfig::default(),
        }
    }

    /// Checks a loaded configuration, as `settings_valid` states.
    pub fn validate_settings(&self) -> (r: Result<(), ConfigError>)
        ensures
            r is Ok <==> settings_valid(*self),
    {
        if self.server.port == 0 {
            return Err(err_text("Invalid port: 0. Must be between 1-65535"));
        }
        if self.rate_limit.max_requests == 0 {
            return Err(err_text("Rate limit max_requests must be greater than 0"));
        }
        if self.rate_limit.window_seconds == 0 {
            return Err(err_text("Rate limit window_seconds must be greater than 0"));
        }
        if self.auth.jwks_cache_seconds < 60 || self.auth.jwks_cache_seconds > 86400 {
            return Err(err_text("Invalid JWKS cache seconds. Must be between 60-86400"));
        }
        if self.shutdown.timeout_seconds < 1 || self.shutdown.timeout_seconds > 300 {
            return Err(err_text("Shutdown timeout must be between 1-300 seconds"));
        }
        if self.auth.enabled {
            let mut i: usize = 0;
            while i < self.auth.jwks_urls.len()
                invariant
                    self.auth.enabled,
                    i <= self.auth.jwks_urls@.len(),
                    forall|j: int| 0 <= j < i ==> is_http_url(#[trigger] self.auth.jwks_urls@[j]@),
                decreases self.auth.jwks_urls@.len() - i,
            {
                let u = self.auth.jwks_urls[i].as_str();
                if !starts_with(u, "https://") && !starts_with(u, "http://") {
                    let mut m = "Invalid JWKS URL: ".to_owned();
                    m.append(u);
                    m.append(". URLs must start with http:// or https://");
                    assert(!is_http_url(self.auth.jwks_urls@[i as int]@));
                    return Err(ConfigError { message: m });
                }
                i = i + 1;
            }
        }
        Ok(())
    }

    /// Checks what the service needs at run time: a usable database
    /// setting, and key-set URLs when authentication is on.
    pub fn validate_runtime_dependencies(&self) -> (r: Result<(), ConfigError>)
        ensures
            r is Ok <==> database_ready(self.database) && !(self.auth.enabled
                && self.auth.jwks_urls@.len() == 0),
    {
        let t = self.database.db_type.as_str();
        if same_text(t, "convex") {
            if self.database.convex_deployment_url.is_none() {
                proof {
                    reveal_strlit("convex");
                    reveal_strlit("memory");
                    assert(t@[0] != "memory"@[0]);
                }
                return Err(err_text("CONVEX_DEPLOYMENT_URL is required when DATABASE_TYPE=convex"));
            }
        } else if !same_text(t, "memory") {
            let mut m = "Unknown database type: ".to_owned();
            m.append(t);
            return Err(ConfigError { message: m });
        }
        if self.auth.enabled && self.auth.jwks_urls.len() == 0 {
            return Err(err_text("AUTH_JWKS_URLS is required when AUTH_ENABLED=true"));
        }
        Ok(())
    }

    /// How long shutdown may take.
    pub fn shutdown_duration(&self) -> (r: core::time::Duration)
        ensures
            r == duration_of_secs(self.shutdown.timeout_seconds),
    {
        duration_from_secs(self.shutdown.timeout_seconds)
    }
}

impl Default for Config {
    /// The defaults of the development profile.
    fn default() -> (r: Self)
        ensures
            r.server.port == 3000,
            r.database.db_type@ == "memory"@,
            r.database.convex_deployment_url is None,
            r.rate_limit.enabled,
            r.rate_limit.max_requests == 1000,
            r.rate_limit.window_seconds == 60,
            !r.security.strict_mode,
            !r.auth.enabled,
            r.auth.jwks_urls@.len() == 0,
            r.auth.jwks_cache_seconds == 3600,
            r.cors.allowed_origins@.len() == 0,
            r.metrics.enabled,
            r.shutdown.timeout_seconds == 30,
    {
        Config::for_profile(false)
    }
}

/// The items of a comma-separated list: each piece trimmed, empty ones dropped.
pub open spec fn list_items(parts: Seq<Seq<char>>) -> Seq<Seq<char>>
    decreases parts.len(),
{
    if parts.len() == 0 {
        Seq::empty()
    } else {
        let prev = list_items(parts.drop_last());
        let t = trim_seq(parts.last());
        if t.len() > 0 {
            prev.push(t)
        } else {
            prev
        }
    }
}

/// The items of a comma-separated list, as `list_items` states.
pub fn parse_list(s: &str) -> (r: Vec<String>)
    ensures
        r@.map_values(|x: String| x@) == list_items(split_seq(s@, ',')),
{
    let parts = split(s, ',');
    let ghost pv = parts@.map_values(|p: String| p@);
    let mut out: Vec<String> = Vec::new();
    let mut k: usize = 0;
    assert(pv.take(0) =~= Seq::<Seq<char>>::empty());
    while k < parts.len()
        invariant
            pv == parts@.map_values(|p: String| p@),
            k <= parts@.len(),
            out@.map_values(|x: String| x@) == list_items(pv.take(k as int)),
        decreases parts@.len() - k,
    {
        let t = trim(parts[k].as_str());
        proof {
            assert(pv.take(k + 1).drop_last() =~= pv.take(k as int));
            assert(pv.take(k + 1).last() == parts@[k as int]@);
        }
        if t.unicode_len() > 0 {
            let ghost before = out@.map_values(|x: String| x@);
            out.push(t.to_owned());
            proof {
                assert(out@.map_values(|x: String| x@) =~= before.push(t@));
            }
        }
        k = k + 1;
    }
    proof {
        assert(pv.take(parts@.len() as int) =~= pv);
    }
    out
}

} // verus!
