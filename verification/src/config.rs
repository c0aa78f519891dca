//! The server's configuration (read from `cfg.toml`).
use vstd::prelude::*;

verus! {

/// `log::LevelFilter`, a field-less public enum; its variants are visible.
#[verifier::external_type_specification]
pub struct ExLevelFilter(log::LevelFilter);

/// How much the server logs.
#[derive(Debug, PartialEq, Eq, Structural, Clone, Copy)]
pub enum LogLevelFilter {
    /// A level lower than all log levels.
    Off,
    /// Corresponds to the `Error` log level.
    Error,
    /// Corresponds to the `Warn` log level.
    Warn,
    /// Corresponds to the `Info` log level.
    Info,
    /// Corresponds to the `Debug` log level.
    Debug,
    /// Corresponds to the `Trace` log level.
    Trace,
}

impl LogLevelFilter {
    /// The `log` crate's filter of the same name.
    pub fn to_log_level_filter(self) -> (r: log::LevelFilter)
        ensures
            self == LogLevelFilter::Off ==> r == log::LevelFilter::Off,
            self == LogLevelFilter::Error ==> r == log::LevelFilter::Error,
            self == LogLevelFilter::Warn ==> r == log::LevelFilter::Warn,
            self == LogLevelFilter::Info ==> r == log::LevelFilter::Info,
            self == LogLevelFilter::Debug ==> r == log::LevelFilter::Debug,
            self == LogLevelFilter::Trace ==> r == log::LevelFilter::Trace,
    {
        match self {
            LogLevelFilter::Off => log::LevelFilter::Off,
            LogLevelFilter::Error => log::LevelFilter::Error,
            LogLevelFilter::Warn => log::LevelFilter::Warn,
            LogLevelFilter::Info => log::LevelFilter::Info,
            LogLevelFilter::Debug => log::LevelFilter::Debug,
            LogLevelFilter::Trace => log::LevelFilter::Trace,
        }
    }
}

/// Logging: the level and an optional file to log to besides stdout.
pub struct LoggingConfig {
    pub log_level: Option<LogLevelFilter>,
    pub file: Option<String>,
}

/// Where the HTTP service listens, and which hosts CORS admits.
pub struct HttpServiceConfig {
    pub host: String,
    pub port: u16,
    pub cors_hosts: Vec<String>,
}

/// The database to connect to.
pub struct DBConfig {
    pub connection_string: String,
}

/// The MQTT broker to subscribe at.
pub struct MQTTConfig {
    pub broker_id: String,
    pub host: String,
    pub port: u16,
    pub username: String,
    pub passw: String,
}

/// The SMTP account that sends warnings, and who receives them.
pub struct EmailConfig {
    pub smtp_server: String,
    pub smtp_user: String,
    pub smtp_passw: String,
    pub author_name: String,
    pub from_address: String,
    pub to_addresses: Vec<String>,
}

/// The whole configuration.
pub struct Config {
    pub http_service: HttpServiceConfig,
    pub database: DBConfig,
    pub mqtt: MQTTConfig,
    pub email: EmailConfig,
    pub logging: LoggingConfig,
}

impl Config {
    /// The configured database connection string.
    pub fn get_db_connect_string(&self) -> (r: &str)
        ensures
            r@ == self.database.connection_string@,
    {
        self.database.connection_string.as_str()
    }
}

/// The connection string to use: the `DATABASE_URL` environment variable
/// when it is set and not empty, the configured one otherwise.
pub fn get_database_connection_string(config: &Config, database_url_var: Option<String>) -> (r:
    String)
    ensures
        database_url_var matches Some(v) ==> (v@.len() > 0 ==> r@ == v@) && (v@.len() == 0 ==> r@
            == config.database.connection_string@),
        database_url_var is None ==> r@ == config.database.connection_string@,
{
    match database_url_var {
        Some(v) => {
            if !v.as_str().is_empty() {
                v
            } else {
                config.get_db_connect_string().to_owned()
            }
        },
        None => config.get_db_connect_string().to_owned(),
    }
}

} // verus!
