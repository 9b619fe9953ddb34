use rusty_chat::config::{
    database_url_key, AppConfig, ConfigError, DatabaseConfig, Overrides, ServerConfig, DEFAULT_CONNECTION_TIMEOUT,
    DEFAULT_IDLE_TIMEOUT, DEFAULT_MAX_CONNECTIONS, DEFAULT_MIN_CONNECTIONS, DEFAULT_PORT,
};

fn no_overrides() -> Overrides {
    Overrides {
        host: None,
        port: None,
        max_connections: None,
        min_connections: None,
        connection_timeout: None,
        idle_timeout: None,
    }
}

#[test]
fn url_key_of_each_environment() {
    assert_eq!(database_url_key("development"), Ok("LOCAL_DATABASE_URL"));
    assert_eq!(database_url_key("production"), Ok("PROD_DATABASE_URL"));
}

#[test]
fn other_environments_are_unsupported() {
    assert_eq!(database_url_key("staging"), Err(ConfigError::UnsupportedEnvironment("staging".to_string())));
    assert_eq!(database_url_key(""), Err(ConfigError::UnsupportedEnvironment(String::new())));
    assert_eq!(
        database_url_key("Development"),
        Err(ConfigError::UnsupportedEnvironment("Development".to_string()))
    );
}

#[test]
fn defaults_are_as_documented() {
    assert_eq!(DEFAULT_PORT, 8080);
    assert_eq!(DEFAULT_MAX_CONNECTIONS, 20);
    assert_eq!(DEFAULT_MIN_CONNECTIONS, 5);
    assert_eq!(DEFAULT_CONNECTION_TIMEOUT, 30);
    assert_eq!(DEFAULT_IDLE_TIMEOUT, 600);
}

#[test]
fn settings_without_overrides_take_the_defaults() {
    let config = AppConfig::assemble("development".to_string(), "postgres://db".to_string(), no_overrides());
    assert_eq!(
        config,
        Ok(AppConfig {
            database: DatabaseConfig {
                url: "postgres://db".to_string(),
                max_connections: 20,
                min_connections: 5,
                connection_timeout: 30,
                idle_timeout: 600,
            },
            server: ServerConfig { host: "127.0.0.1".to_string(), port: 8080 },
            environment: "development".to_string(),
        })
    );
}

#[test]
fn overrides_replace_the_defaults() {
    let overrides = Overrides {
        host: Some("0.0.0.0".to_string()),
        port: Some(9000),
        max_connections: Some(50),
        min_connections: Some(10),
        connection_timeout: Some(5),
        idle_timeout: Some(60),
    };
    let config = AppConfig::assemble("production".to_string(), "postgres://prod".to_string(), overrides).unwrap();
    assert_eq!(config.server, ServerConfig { host: "0.0.0.0".to_string(), port: 9000 });
    assert_eq!(config.database.max_connections, 50);
    assert_eq!(config.database.min_connections, 10);
    assert_eq!(config.database.connection_timeout, 5);
    assert_eq!(config.database.idle_timeout, 60);
    assert_eq!(config.environment, "production");
}

#[test]
fn more_connections_at_least_than_at_most_is_refused() {
    let mut overrides = no_overrides();
    overrides.min_connections = Some(21);
    assert_eq!(
        AppConfig::assemble("development".to_string(), "u".to_string(), overrides),
        Err(ConfigError::MinAboveMaxConnections)
    );
    let mut overrides = no_overrides();
    overrides.max_connections = Some(4);
    assert_eq!(
        AppConfig::assemble("development".to_string(), "u".to_string(), overrides),
        Err(ConfigError::MinAboveMaxConnections)
    );
}

#[test]
fn equal_bounds_are_accepted() {
    let mut overrides = no_overrides();
    overrides.min_connections = Some(20);
    assert!(AppConfig::assemble("development".to_string(), "u".to_string(), overrides).is_ok());
}
