//! Process configuration as plain values. Reading it from the environment
//! is the embedding program's business; the shapes live here.

use vstd::prelude::*;

verus! {

/// Everything the process needs at startup.
#[derive(Debug, Clone)]
pub struct Config {
    pub server: ServerConfig,
    pub database: DatabaseConfig,
}

/// Where the server listens.
#[derive(Debug, Clone)]
pub struct ServerConfig {
    pub host: String,
    pub port: u16,
}

/// How the user store is reached.
#[derive(Debug, Clone)]
pub struct DatabaseConfig {
    pub url: String,
}

/// Top-level failure kinds of the embedding program.
#[derive(Debug)]
pub enum AppError {
    Database(String),
    NotFound(String),
    Validation(String),
    Internal(String),
}

}
