//! Verified core of the keygen.sh command-line client.

pub mod api;
pub mod auth;
pub mod capability;
pub mod error;
pub mod exit;
pub mod cli;
pub mod config;
pub mod explain;
pub mod json;
pub mod output;
pub mod render;
pub mod resources;
pub mod schema;
pub mod text;
pub mod urls;

pub use error::Error;
