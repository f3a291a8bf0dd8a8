//! The command-line surface: global options, commands and the runtime
//! context.

pub mod completion;
pub mod context;
pub mod globals;
pub mod resources;

pub use context::Context;
pub use globals::GlobalArgs;

use vstd::prelude::*;
use crate::auth::commands::{LoginArgs, LogoutArgs};
use crate::capability::env_commands::EnvCmd;
use crate::config::commands::ConfigCmd;
use crate::config::profile_commands::ProfileCmd;
use crate::explain::commands::ExplainCmd;
use crate::schema::commands::SchemaArgs;
use completion::CompletionArgs;
use resources::ResourceCommand;

verus! {

/// `keygen`: an AI-friendly command-line tool for keygen.sh.
#[derive(Debug)]
pub struct Cli {
    pub globals: GlobalArgs,
    pub command: Command,
}

/// The top-level commands.
#[derive(Debug)]
pub enum Command {
    /// Interactive login: pick deployment, host, account, then mint a token.
    Login(LoginArgs),
    /// Remove stored credentials for a profile.
    Logout(LogoutArgs),
    /// Show the current identity and detected capabilities.
    Whoami,
    /// Inspect / mutate persisted configuration.
    Config(ConfigCmd),
    /// Manage profiles (named host + account + output combos).
    Profile(ProfileCmd),
    /// EE-only: switch the active environment.
    Env(EnvCmd),
    /// Probe the configured host: connectivity, token validity, capabilities.
    Doctor,
    /// Explain an API error code (cause + fix).
    Explain(ExplainCmd),
    /// Emit the JSON schema describing every command and flag.
    Schema(SchemaArgs),
    /// Generate shell completion scripts.
    Completion(CompletionArgs),
    /// Launch the full-screen dashboard.
    Tui,
    /// Resource + action commands (license, machine, product, ...).
    Resource(ResourceCommand),
}

} // verus!
