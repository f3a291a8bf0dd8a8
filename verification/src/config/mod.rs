//! Persistent configuration: profiles, their resolution and `keygen config`.

pub mod commands;
pub mod file;
pub mod profile;
pub mod profile_commands;

pub use profile::{AccountMode, Deployment, Profile};
