//! The errors that the library reports.

use vstd::prelude::*;
use vstd::string::*;
use crate::text::concat;

verus! {

/// Why a configuration was not accepted.
#[derive(Debug)]
pub enum ConfigError {
    /// No configuration file at `path`.
    NotFound { path: String },
    /// The file is not a configuration; the text says what the parser found.
    Parse(String),
    /// The value of `field` is not allowed, for `reason`.
    Validation { field: String, reason: String },
}

/// Why an operation failed.
#[derive(Debug)]
pub enum AppError {
    Config(ConfigError),
    Database(String),
    HttpServer(String),
    /// The payload could not be turned into a canonical event.
    Normalize(String),
    StateTransition(String),
    LockPoisoned(String),
    Io(String),
}

/// The message of a configuration error.
pub open spec fn config_error_text(e: ConfigError) -> Seq<char> {
    match e {
        ConfigError::NotFound { path } => "config file not found: "@ + path@,
        ConfigError::Parse(detail) => "config parse error: "@ + detail@,
        ConfigError::Validation { field, reason } => "config validation error: "@ + field@ + " - "@
            + reason@,
    }
}

/// The message of an error.
pub open spec fn app_error_text(e: AppError) -> Seq<char> {
    match e {
        AppError::Config(inner) => "config load failed: "@ + config_error_text(inner),
        AppError::Database(detail) => "database error: "@ + detail@,
        AppError::HttpServer(detail) => "http server error: "@ + detail@,
        AppError::Normalize(detail) => "normalization failed: "@ + detail@,
        AppError::StateTransition(detail) => "state transition error: "@ + detail@,
        AppError::LockPoisoned(detail) => "lock poisoned: "@ + detail@,
        AppError::Io(detail) => "io error: "@ + detail@,
    }
}

impl ConfigError {
    /// The message of this error, for people to read.
    pub fn message(&self) -> (r: String)
        ensures
            r@ == config_error_text(*self),
    {
        match self {
            ConfigError::NotFound { path } => concat("config file not found: ", path.as_str()),
            ConfigError::Parse(detail) => concat("config parse error: ", detail.as_str()),
            ConfigError::Validation { field, reason } => {
                let mut r = concat("config validation error: ", field.as_str());
                r.append(" - ");
                r.append(reason.as_str());
                r
            },
        }
    }
}

impl AppError {
    /// The message of this error, for people to read.
    pub fn message(&self) -> (r: String)
        ensures
            r@ == app_error_text(*self),
    {
        match self {
            AppError::Config(inner) => {
                let detail = inner.message();
                concat("config load failed: ", detail.as_str())
            },
            AppError::Database(detail) => concat("database error: ", detail.as_str()),
            AppError::HttpServer(detail) => concat("http server error: ", detail.as_str()),
            AppError::Normalize(detail) => concat("normalization failed: ", detail.as_str()),
            AppError::StateTransition(detail) => concat(
                "state transition error: ",
                detail.as_str(),
            ),
            AppError::LockPoisoned(detail) => concat("lock poisoned: ", detail.as_str()),
            AppError::Io(detail) => concat("io error: ", detail.as_str()),
        }
    }
}

} // verus!
