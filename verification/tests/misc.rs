use checkup::config::{Config, OptionalVars};
use checkup::features::stats::StatsCache;
use checkup::routes::{HealthResponse, SystemApi};

fn no_vars() -> OptionalVars {
    OptionalVars {
        ping_interval_secs: None,
        num_ping_workers: None,
        slow_query_threshold_ms: None,
        otlp_endpoint: None,
        service_name: None,
        service_version: None,
        deployment_environment: None,
    }
}

#[test]
fn test_healthz_route() {
    let HealthResponse::Success(h) = SystemApi.healthz();
    assert!(h.message.contains("server online"));
}

#[test]
fn test_turso_esta_linkado() {
    println!("✓ Turso linkado como backend SQLite");
    println!("  Confirme com: ldd target/debug/checkup | grep sqlite");
    println!("  Esperado: libsqlite3.so => .../libs/libsqlite3.so");
}

#[test]
fn stats_cache_reads_back_what_was_set() {
    let mut c = StatsCache::new();
    assert_eq!(*c.get_payload(), "{}");
    c.set_payload("{\"users\":3}".to_string());
    assert_eq!(*c.get_payload(), "{\"users\":3}");
}

#[test]
fn config_defaults() {
    let c = Config::from_env(3000, "sqlite://db".to_string(), "s".to_string(), no_vars(), "checkup", "0.1.0");
    assert_eq!(c.port, 3000);
    assert_eq!(c.database_url, "sqlite://db");
    assert_eq!(c.ping_interval_secs, 60);
    assert_eq!(c.num_ping_workers, 5);
    assert_eq!(c.observability.slow_query_threshold, std::time::Duration::from_millis(250));
    assert_eq!(c.observability.otlp_endpoint, None);
    assert_eq!(c.observability.service_name, "checkup");
    assert_eq!(c.observability.service_version, "0.1.0");
    assert_eq!(c.observability.deployment_environment, "local");
}

#[test]
fn config_from_variables() {
    let vars = OptionalVars {
        ping_interval_secs: Some("15".to_string()),
        num_ping_workers: Some("not a number".to_string()),
        slow_query_threshold_ms: Some("+100".to_string()),
        otlp_endpoint: Some("   ".to_string()),
        service_name: Some("svc".to_string()),
        service_version: None,
        deployment_environment: Some("prod".to_string()),
    };
    let c = Config::from_env(1, "u".to_string(), "s".to_string(), vars, "checkup", "0.1.0");
    assert_eq!(c.ping_interval_secs, 15);
    assert_eq!(c.num_ping_workers, 5);
    assert_eq!(c.observability.slow_query_threshold, std::time::Duration::from_millis(100));
    assert_eq!(c.observability.otlp_endpoint, None);
    assert_eq!(c.observability.service_name, "svc");
    assert_eq!(c.observability.deployment_environment, "prod");
    let mut vars = no_vars();
    vars.otlp_endpoint = Some(" http://collector:4317 ".to_string());
    let c = Config::from_env(1, "u".to_string(), "s".to_string(), vars, "checkup", "0.1.0");
    assert_eq!(c.observability.otlp_endpoint, Some(" http://collector:4317 ".to_string()));
}

#[test]
fn default_stats_cache_is_empty_object() {
    let c = StatsCache::default();
    assert_eq!(*c.get_payload(), "{}");
}
