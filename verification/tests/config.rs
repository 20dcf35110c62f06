use erp::config::{default_config, override_with_env, AppConfig, EnvOverrides, LogLevel};
use erp::error::Error;

fn no_env() -> EnvOverrides {
    EnvOverrides {
        database_url: None,
        database_max_connections: None,
        log_level: None,
        data_dir: None,
        jwt_secret: None,
    }
}

fn config_error(r: Result<AppConfig, Error>) -> String {
    match r {
        Err(Error::Config(m)) => m,
        Err(_) => panic!("expected a configuration error"),
        Ok(_) => panic!("expected an error"),
    }
}

#[test]
fn default_values() {
    let c = default_config("0.1.0");
    assert_eq!(c.database.url, "sqlite:data/erp.db");
    assert_eq!(c.database.max_connections, 5);
    assert_eq!(c.database.timeout_seconds, 30);
    assert_eq!(c.app.name, "Rust ERP");
    assert_eq!(c.app.version, "0.1.0");
    assert_eq!(c.app.log_level, LogLevel::Info);
    assert_eq!(c.app.data_dir, "data");
    assert_eq!(c.security.jwt_secret, "change_me_in_production");
    assert_eq!(c.security.token_expiry_hours, 24);
    assert_eq!(c.security.hash_cost, 12);
}

#[test]
fn log_levels_parse_ignoring_case() {
    let cases = [
        ("error", LogLevel::Error),
        ("WARN", LogLevel::Warn),
        ("Info", LogLevel::Info),
        ("debug", LogLevel::Debug),
        ("tRaCe", LogLevel::Trace),
    ];
    for (text, level) in cases {
        assert_eq!(LogLevel::from_str(text).ok(), Some(level));
    }
}

#[test]
fn log_level_unknown_is_config_error() {
    match LogLevel::from_str("verbose") {
        Err(Error::Config(m)) => assert_eq!(m, "Invalid log level: verbose"),
        _ => panic!("expected a configuration error"),
    }
    match LogLevel::from_str("") {
        Err(Error::Config(m)) => assert_eq!(m, "Invalid log level: "),
        _ => panic!("expected a configuration error"),
    }
}

#[test]
fn no_overrides_keep_config() {
    let c = override_with_env(default_config("1.2.3"), no_env()).ok().unwrap();
    assert_eq!(c.database.url, "sqlite:data/erp.db");
    assert_eq!(c.database.max_connections, 5);
    assert_eq!(c.app.log_level, LogLevel::Info);
    assert_eq!(c.app.data_dir, "data");
    assert_eq!(c.security.jwt_secret, "change_me_in_production");
    assert_eq!(c.app.version, "1.2.3");
}

#[test]
fn all_overrides_apply() {
    let env = EnvOverrides {
        database_url: Some("postgres://localhost/erp".to_string()),
        database_max_connections: Some("+20".to_string()),
        log_level: Some("DEBUG".to_string()),
        data_dir: Some("/var/erp".to_string()),
        jwt_secret: Some("s3cret".to_string()),
    };
    let c = override_with_env(default_config("1"), env).ok().unwrap();
    assert_eq!(c.database.url, "postgres://localhost/erp");
    assert_eq!(c.database.max_connections, 20);
    assert_eq!(c.app.log_level, LogLevel::Debug);
    assert_eq!(c.app.data_dir, "/var/erp");
    assert_eq!(c.security.jwt_secret, "s3cret");
    assert_eq!(c.database.timeout_seconds, 30);
    assert_eq!(c.app.name, "Rust ERP");
}

#[test]
fn max_connections_must_be_a_u32() {
    for bad in ["abc", "", "-1", "4294967296", " 5", "5 ", "+", "++1", "99999999999", "1٣"] {
        let mut env = no_env();
        env.database_max_connections = Some(bad.to_string());
        assert_eq!(
            config_error(override_with_env(default_config("1"), env)),
            "Invalid DATABASE_MAX_CONNECTIONS value"
        );
    }
    let mut env = no_env();
    env.database_max_connections = Some("007".to_string());
    let c = override_with_env(default_config("1"), env).ok().unwrap();
    assert_eq!(c.database.max_connections, 7);
    let mut env = no_env();
    env.database_max_connections = Some("4294967295".to_string());
    let c = override_with_env(default_config("1"), env).ok().unwrap();
    assert_eq!(c.database.max_connections, 4294967295);
}

#[test]
fn bad_log_level_override_is_an_error() {
    let mut env = no_env();
    env.log_level = Some("loud".to_string());
    assert_eq!(config_error(override_with_env(default_config("1"), env)), "Invalid log level: loud");
}

#[test]
fn max_connections_checked_before_log_level() {
    let mut env = no_env();
    env.database_max_connections = Some("many".to_string());
    env.log_level = Some("loud".to_string());
    assert_eq!(
        config_error(override_with_env(default_config("1"), env)),
        "Invalid DATABASE_MAX_CONNECTIONS value"
    );
}
