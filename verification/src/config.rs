//! The settings of the application, put together from what the environment
//! holds and checked before use.

use vstd::prelude::*;

verus! {

#[derive(Debug, PartialEq, Eq)]
pub struct DatabaseConfig {
    pub url: String,
    pub max_connections: u32,
    pub min_connections: u32,
    /// Seconds to wait for a connection.
    pub connection_timeout: u64,
    /// Seconds after which an idle connection is closed.
    pub idle_timeout: u64,
}

#[derive(Debug, PartialEq, Eq)]
pub struct ServerConfig {
    pub host: String,
    pub port: u16,
}

#[derive(Debug, PartialEq, Eq)]
pub struct AppConfig {
    pub database: DatabaseConfig,
    pub server: ServerConfig,
    pub environment: String,
}

/// Why the settings could not be put together.
#[derive(Debug, PartialEq, Eq)]
pub enum ConfigError {
    /// The environment is neither `development` nor `production`.
    UnsupportedEnvironment(String),
    /// `min_connections` is greater than `max_connections`.
    MinAboveMaxConnections,
}

/// The settings that the environment may override, each `None` where it
/// does not.
#[derive(Debug, PartialEq, Eq)]
pub struct Overrides {
    pub host: Option<String>,
    pub port: Option<u16>,
    pub max_connections: Option<u32>,
    pub min_connections: Option<u32>,
    pub connection_timeout: Option<u64>,
    pub idle_timeout: Option<u64>,
}

pub const DEFAULT_PORT: u16 = 8080;

pub const DEFAULT_MAX_CONNECTIONS: u32 = 20;

pub const DEFAULT_MIN_CONNECTIONS: u32 = 5;

pub const DEFAULT_CONNECTION_TIMEOUT: u64 = 30;

pub const DEFAULT_IDLE_TIMEOUT: u64 = 600;

/// The name of the variable that holds the database URL of an environment.
pub open spec fn url_key_of(environment: Seq<char>) -> Option<Seq<char>> {
    if environment == "development"@ {
        Some("LOCAL_DATABASE_URL"@)
    } else if environment == "production"@ {
        Some("PROD_DATABASE_URL"@)
    } else {
        None
    }
}

/// `value` where there is one, `default` otherwise.
pub open spec fn or_default<T>(value: Option<T>, default: T) -> T {
    match value {
        Some(v) => v,
        None => default,
    }
}

/// The name of the variable that holds the database URL of
/// `app_environment`, or the error that names the environment where it is
/// neither `development` nor `production`.
pub fn database_url_key(app_environment: &str) -> (key: Result<&'static str, ConfigError>)
    ensures
        match key {
            Ok(k) => url_key_of(app_environment@) == Some(k@),
            Err(e) => {
                &&& url_key_of(app_environment@) is None
                &&& e matches ConfigError::UnsupportedEnvironment(name)
                &&& name@ == app_environment@
            },
        },
{
    let environment = app_environment.to_string();
    if environment == "development".to_string() {
        Ok("LOCAL_DATABASE_URL")
    } else if environment == "production".to_string() {
        Ok("PROD_DATABASE_URL")
    } else {
        Err(ConfigError::UnsupportedEnvironment(environment))
    }
}

impl AppConfig {
    /// The settings are fit for use: the pool's lower bound is not above its
    /// upper bound.
    pub open spec fn valid(&self) -> bool {
        self.database.min_connections <= self.database.max_connections
    }

    /// Puts the settings together: what `overrides` names, and for the rest
    /// the defaults (host `127.0.0.1`, port 8080, between 5 and 20
    /// connections, 30 seconds to connect, 600 seconds idle). Fails exactly
    /// where the result would ask for more connections at least than at most.
    pub fn assemble(environment: String, database_url: String, overrides: Overrides) -> (config: Result<
        AppConfig,
        ConfigError,
    >)
        ensures
            match config {
                Ok(c) => {
                    &&& c.valid()
                    &&& c.environment == environment
                    &&& c.database.url == database_url
                    &&& c.database.max_connections == or_default(overrides.max_connections, DEFAULT_MAX_CONNECTIONS)
                    &&& c.database.min_connections == or_default(overrides.min_connections, DEFAULT_MIN_CONNECTIONS)
                    &&& c.database.connection_timeout == or_default(
                        overrides.connection_timeout,
                        DEFAULT_CONNECTION_TIMEOUT,
                    )
                    &&& c.database.idle_timeout == or_default(overrides.idle_timeout, DEFAULT_IDLE_TIMEOUT)
                    &&& c.server.port == or_default(overrides.port, DEFAULT_PORT)
                    &&& match overrides.host {
                        Some(host) => c.server.host == host,
                        None => c.server.host@ == "127.0.0.1"@,
                    }
                },
                Err(e) => {
                    &&& e == ConfigError::MinAboveMaxConnections
                    &&& or_default(overrides.min_connections, DEFAULT_MIN_CONNECTIONS) > or_default(
                        overrides.max_connections,
                        DEFAULT_MAX_CONNECTIONS,
                    )
                },
            },
    {
        let Overrides { host, port, max_connections, min_connections, connection_timeout, idle_timeout } =
            overrides;
        let max_connections = match max_connections {
            Some(n) => n,
            None => DEFAULT_MAX_CONNECTIONS,
        };
        let min_connections = match min_connections {
            Some(n) => n,
            None => DEFAULT_MIN_CONNECTIONS,
        };
        if min_connections > max_connections {
            return Err(ConfigError::MinAboveMaxConnections);
        }
        Ok(
            AppConfig {
                database: DatabaseConfig {
                    url: database_url,
                    max_connections,
                    min_connections,
                    connection_timeout: match connection_timeout {
                        Some(n) => n,
                        None => DEFAULT_CONNECTION_TIMEOUT,
                    },
                    idle_timeout: match idle_timeout {
                        Some(n) => n,
                        None => DEFAULT_IDLE_TIMEOUT,
                    },
                },
                server: ServerConfig {
                    host: match host {
                        Some(h) => h,
                        None => "127.0.0.1".to_string(),
                    },
                    port: match port {
                        Some(p) => p,
                        None => DEFAULT_PORT,
                    },
                },
                environment,
            },
        )
    }
}

} // verus!
