//! Application configuration: the recognized sections with their
//! defaults, and the errors of the loading stage. Reading the
//! configuration file and the environment happens outside the library.

use vstd::prelude::*;
use crate::organizer::OrganizeMethod;

verus! {

/// HTTP bind address configuration.
#[derive(Debug, Clone)]
pub struct ServerConfig {
    pub host: String,
    pub port: u16,
}

impl Default for ServerConfig {
    /// The local loopback address on the default port.
    fn default() -> (r: Self)
        ensures
            r.host@ == "127.0.0.1"@,
            r.port == 7590u16,
    {
        ServerConfig { host: String::from_str("127.0.0.1"), port: 7590 }
    }
}

/// Database connection configuration.
#[derive(Debug, Clone)]
pub struct DatabaseConfig {
    pub url: String,
    pub pool_size: u32,
    pub timeout_seconds: u64,
}

impl Default for DatabaseConfig {
    /// A local file-backed database with a small pool.
    fn default() -> (r: Self)
        ensures
            r.url@ == "sqlite:ayiah.db?mode=rwc"@,
            r.pool_size == 5u32,
            r.timeout_seconds == 30u64,
    {
        DatabaseConfig {
            url: String::from_str("sqlite:ayiah.db?mode=rwc"),
            pool_size: 5,
            timeout_seconds: 30,
        }
    }
}

/// Authentication configuration.
#[derive(Debug, Clone)]
pub struct AuthConfig {
    pub jwt_secret: String,
    pub jwt_expiry_hours: u64,
    pub pbkdf2_iterations: u32,
    pub refresh_token_expiry_days: u64,
}

impl Default for AuthConfig {
    /// A day-long token with a placeholder secret.
    fn default() -> (r: Self)
        ensures
            r.jwt_secret@ == "ayiah"@,
            r.jwt_expiry_hours == 24u64,
            r.pbkdf2_iterations == 100000u32,
            r.refresh_token_expiry_days == 7u64,
    {
        AuthConfig {
            jwt_secret: String::from_str("ayiah"),
            jwt_expiry_hours: 24,
            pbkdf2_iterations: 100000,
            refresh_token_expiry_days: 7,
        }
    }
}

/// Logging configuration.
#[derive(Debug, Clone)]
pub struct LoggingConfig {
    pub level: String,
    pub file_path: Option<String>,
}

impl Default for LoggingConfig {
    /// Informational console logging.
    fn default() -> (r: Self)
        ensures
            r.level@ == "info"@,
            r.file_path is None,
    {
        LoggingConfig { level: String::from_str("info"), file_path: None }
    }
}

/// Scraper configuration: which provider answers first, which follow,
/// and how organized files are placed.
#[derive(Debug, Clone)]
pub struct ScrapeConfig {
    /// Default provider.
    pub default_provider: String,
    /// Fallback provider list.
    pub fallback_providers: Vec<String>,
    /// Default organize method.
    pub default_organize_method: OrganizeMethod,
}

impl Default for ScrapeConfig {
    /// TMDB first, no fallbacks, hard links.
    fn default() -> (r: Self)
        ensures
            r.default_provider@ == "tmdb"@,
            r.fallback_providers@.len() == 0,
            r.default_organize_method == OrganizeMethod::HardLink,
    {
        ScrapeConfig {
            default_provider: String::from_str("tmdb"),
            fallback_providers: Vec::new(),
            default_organize_method: OrganizeMethod::HardLink,
        }
    }
}

/// The whole application configuration.
#[derive(Debug, Clone)]
pub struct AppConfig {
    pub server: ServerConfig,
    pub database: DatabaseConfig,
    pub auth: AuthConfig,
    pub logging: LoggingConfig,
    pub scrape: ScrapeConfig,
}

impl Default for AppConfig {
    /// Every section at its default.
    fn default() -> (r: Self)
        ensures
            r.server.port == 7590u16,
            r.database.pool_size == 5u32,
            r.auth.jwt_expiry_hours == 24u64,
            r.logging.level@ == "info"@,
            r.scrape.default_provider@ == "tmdb"@,
    {
        AppConfig {
            server: Default::default(),
            database: Default::default(),
            auth: Default::default(),
            logging: Default::default(),
            scrape: Default::default(),
        }
    }
}

/// Errors of the configuration stage.
#[derive(Debug, Clone)]
pub enum ConfigError {
    /// Loading the configuration source failed.
    LoadError(String),
    /// The configuration could not be parsed.
    ParseError(String),
    /// Writing the configuration back failed.
    WriteError(String),
    /// The configuration was used before it was initialized.
    NotInitialized,
}

impl ConfigError {
    /// The HTTP status and message the error maps to.
    pub fn code(&self) -> (r: (u16, String))
        ensures
            r.0 == 500u16,
            match self {
                ConfigError::LoadError(m) => r.1@ == "Failed to load configuration: "@ + m@,
                ConfigError::ParseError(m) => r.1@ == "Failed to parse configuration: "@ + m@,
                ConfigError::WriteError(m) => r.1@ == "Failed to write configuration: "@ + m@,
                ConfigError::NotInitialized => r.1@ == "Configuration not initialized"@,
            },
    {
        match self {
            ConfigError::LoadError(m) => (
                500,
                String::from_str("Failed to load configuration: ").concat(m.as_str()),
            ),
            ConfigError::ParseError(m) => (
                500,
                String::from_str("Failed to parse configuration: ").concat(m.as_str()),
            ),
            ConfigError::WriteError(m) => (
                500,
                String::from_str("Failed to write configuration: ").concat(m.as_str()),
            ),
            ConfigError::NotInitialized => (
                500,
                String::from_str("Configuration not initialized"),
            ),
        }
    }
}

} // verus!
