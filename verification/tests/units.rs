use web_service::config::ServerConfig;
use web_service::logging::{init, Level, LogError, LoggerRegistry, SimpleLogger};
use web_service::routing::RouterPlan;

#[test]
fn bind_address_renders_host_and_port() {
    let config = ServerConfig { host: "127.0.0.1".to_owned(), port: 8080, timeout: 0 };
    assert_eq!(config.bind_address(), "127.0.0.1:8080");
}

#[test]
fn bind_address_edge_ports() {
    let zero = ServerConfig { host: "0.0.0.0".to_owned(), port: 0, timeout: 0 };
    assert_eq!(zero.bind_address(), "0.0.0.0:0");
    let max = ServerConfig { host: "localhost".to_owned(), port: 65535, timeout: 7 };
    assert_eq!(max.bind_address(), "localhost:65535");
    let empty = ServerConfig { host: "".to_owned(), port: 10, timeout: 0 };
    assert_eq!(empty.bind_address(), ":10");
}

#[test]
fn config_equality_compares_fields() {
    let a = ServerConfig { host: "h".to_owned(), port: 1, timeout: 2 };
    let b = ServerConfig { host: "h".to_owned(), port: 1, timeout: 2 };
    let c = ServerConfig { host: "h".to_owned(), port: 3, timeout: 2 };
    assert!(a == b);
    assert!(a != c);
}

#[test]
fn logger_filters_by_severity() {
    let logger = SimpleLogger;
    assert!(logger.enabled(Level::Error));
    assert!(logger.enabled(Level::Warn));
    assert!(logger.enabled(Level::Info));
    assert!(!logger.enabled(Level::Debug));
    assert!(!logger.enabled(Level::Trace));
}

#[test]
fn logger_renders_one_line_per_kept_record() {
    let logger = SimpleLogger;
    assert_eq!(logger.log(Level::Info, "service started"), Some("INFO - service started".to_owned()));
    assert_eq!(logger.log(Level::Error, "bind failed"), Some("ERROR - bind failed".to_owned()));
    assert_eq!(logger.log(Level::Warn, ""), Some("WARN - ".to_owned()));
    assert_eq!(logger.log(Level::Debug, "noise"), None);
    assert_eq!(logger.log(Level::Trace, "noise"), None);
    logger.flush();
}

#[test]
fn init_succeeds_exactly_once() {
    let mut registry = LoggerRegistry::new();
    assert!(init(&mut registry).is_ok());
    assert_eq!(init(&mut registry), Err(LogError::AlreadyInitialized));
    assert_eq!(init(&mut registry), Err(LogError::AlreadyInitialized));
}

#[test]
fn router_plan_fixes_every_choice() {
    let plan = RouterPlan::new();
    assert_eq!(plan.assets_dir, "assets");
    assert_eq!(plan.fallback_file, "assets/index.html");
    assert_eq!(plan.min_compress_size, 256);
    assert!(plan.gzip && plan.deflate && plan.br && plan.zstd);
    assert_eq!(plan.cors_max_age_secs, 3600);
}
