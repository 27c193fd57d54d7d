//! The server's settings, read from environment variables with defaults.
use vstd::prelude::*;

use std::time::Duration;

use crate::text::{all_ws, is_blank, parse_u64, parse_unsigned, parse_usize};

verus! {

broadcast use vstd::string::group_string_axioms;

/// The `Duration` of `ms` milliseconds.
pub uninterp spec fn millis_duration(ms: u64) -> Duration;

/// `Duration::from_millis`. Claimed: the result is the named
/// `millis_duration` of the count.
#[verifier::external_body]
fn duration_from_millis(ms: u64) -> (d: Duration)
    ensures
        d == millis_duration(ms),
{
    Duration::from_millis(ms)
}

/// Settings of the tracing exporter.
#[derive(Debug)]
pub struct ObservabilityConfig {
    pub service_name: String,
    pub service_version: String,
    pub deployment_environment: String,
    pub otlp_endpoint: Option<String>,
    pub slow_query_threshold: Duration,
}

/// The server's settings. The two secrets are held as they were read; the
/// server wraps them in `secrecy::SecretString` when it takes them over.
pub struct Config {
    pub port: u16,
    pub database_url: String,
    pub jwt_secret: String,
    pub ping_interval_secs: u64,
    pub num_ping_workers: usize,
    pub observability: ObservabilityConfig,
}

/// The optional environment variables, as read (`None` where unset or not
/// Unicode).
pub struct OptionalVars {
    pub ping_interval_secs: Option<String>,
    pub num_ping_workers: Option<String>,
    pub slow_query_threshold_ms: Option<String>,
    pub otlp_endpoint: Option<String>,
    pub service_name: Option<String>,
    pub service_version: Option<String>,
    pub deployment_environment: Option<String>,
}

/// The number a variable holds, or `default` where it is unset or not a
/// number that fits.
pub open spec fn number_or(v: Option<String>, max: nat, default: nat) -> nat {
    match v {
        Some(s) => match parse_unsigned(s@, max) {
            Some(n) => n,
            None => default,
        },
        None => default,
    }
}

/// The text a variable holds, or `default` where it is unset.
pub open spec fn text_or(v: Option<String>, default: Seq<char>) -> Seq<char> {
    match v {
        Some(s) => s@,
        None => default,
    }
}

/// A `u64` setting.
fn u64_or(v: Option<String>, default: u64) -> (n: u64)
    ensures
        n as nat == number_or(v, u64::MAX as nat, default as nat),
{
    match v {
        Some(s) => match parse_u64(s.as_str()) {
            Some(n) => n,
            None => default,
        },
        None => default,
    }
}

/// A `usize` setting.
fn usize_or(v: Option<String>, default: usize) -> (n: usize)
    ensures
        n as nat == number_or(v, usize::MAX as nat, default as nat),
{
    match v {
        Some(s) => match parse_usize(s.as_str()) {
            Some(n) => n,
            None => default,
        },
        None => default,
    }
}

/// A text setting.
fn text_setting(v: Option<String>, default: &str) -> (s: String)
    ensures
        s@ == text_or(v, default@),
{
    match v {
        Some(s) => s,
        None => String::from_str(default),
    }
}

impl Config {
    /// The settings from the required values (`PORT`, already read as a
    /// `u16`, `DATABASE_URL`, `JWT_SECRET`) and the optional variables:
    /// `PING_INTERVAL_SECS` (default 60), `NUM_PING_WORKERS` (5),
    /// `SLOW_QUERY_THRESHOLD_MS` (250), `OTEL_EXPORTER_OTLP_ENDPOINT` (dropped
    /// where blank), `OTEL_SERVICE_NAME` and `OTEL_SERVICE_VERSION` (the
    /// package's), `DEPLOYMENT_ENVIRONMENT` (`local`).
    pub fn from_env(
        port: u16,
        database_url: String,
        jwt_secret: String,
        vars: OptionalVars,
        package_name: &str,
        package_version: &str,
    ) -> (c: Config)
        ensures
            c.port == port,
            c.database_url@ == database_url@,
            c.jwt_secret@ == jwt_secret@,
            c.ping_interval_secs as nat == number_or(vars.ping_interval_secs, u64::MAX as nat, 60),
            c.num_ping_workers as nat == number_or(vars.num_ping_workers, usize::MAX as nat, 5),
            c.observability.slow_query_threshold == millis_duration(
                number_or(vars.slow_query_threshold_ms, u64::MAX as nat, 250) as u64,
            ),
            c.observability.otlp_endpoint == match vars.otlp_endpoint {
                Some(e) => if all_ws(e@) {
                    None
                } else {
                    Some(e)
                },
                None => None,
            },
            c.observability.service_name@ == text_or(vars.service_name, package_name@),
            c.observability.service_version@ == text_or(vars.service_version, package_version@),
            c.observability.deployment_environment@ == text_or(
                vars.deployment_environment,
                "local"@,
            ),
    {
        let ping_interval_secs = u64_or(vars.ping_interval_secs, 60);
        let num_ping_workers = usize_or(vars.num_ping_workers, 5);
        let slow_query_threshold_ms = u64_or(vars.slow_query_threshold_ms, 250);
        let otlp_endpoint = match vars.otlp_endpoint {
            Some(e) => if is_blank(e.as_str()) {
                None
            } else {
                Some(e)
            },
            None => None,
        };
        Config {
            port,
            database_url,
            jwt_secret,
            ping_interval_secs,
            num_ping_workers,
            observability: ObservabilityConfig {
                service_name: text_setting(vars.service_name, package_name),
                service_version: text_setting(vars.service_version, package_version),
                deployment_environment: text_setting(vars.deployment_environment, "local"),
                otlp_endpoint,
                slow_query_threshold: duration_from_millis(slow_query_threshold_ms),
            },
        }
    }
}

} // verus!
