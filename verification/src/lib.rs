//! Layered configuration for the character twister: built-in defaults, an
//! optional TOML file and command-line values are resolved into one record.

pub mod config;
pub mod range;
pub mod file;
pub mod logger;
