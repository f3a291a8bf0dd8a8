//! Global command-line options shared by every command.

use vstd::prelude::*;

verus! {

/// Options accepted by every command. Environment variables (`KEYGEN_HOST`,
/// `KEYGEN_ACCOUNT`, ...) are already folded into the matching fields.
#[derive(Debug)]
pub struct GlobalArgs {
    /// Profile name from the config file.
    pub profile: Option<String>,
    /// Override the API host (e.g. https://api.keygen.sh).
    pub host: Option<String>,
    /// Override the account id or slug (Official / multiplayer self-hosted).
    pub account: Option<String>,
    /// Inject a token (skips keyring lookup).
    pub token: Option<String>,
    /// EE: override the active environment id.
    pub env: Option<String>,
    /// Output format. Defaults: human=table, ai=json.
    pub output: Option<OutputFormat>,
    /// Disable ANSI colors.
    pub no_color: bool,
    /// Quiet mode: only print key results (id/key/etc.).
    pub quiet: bool,
    /// Verbose logging (-v info, -vv debug, -vvv trace).
    pub verbose: u8,
    /// Force AI mode (json + hint + no spinner).
    pub ai: bool,
    /// Force human mode (table + colors + spinner).
    pub human: bool,
    /// Print the request that would be sent without executing it.
    pub dry_run: bool,
    /// Idempotency key for write operations.
    pub idempotency_key: Option<String>,
    /// Request timeout in seconds.
    pub timeout: u64,
    /// Number of retries for idempotent requests.
    pub retry: u8,
}

/// The `--output` choices.
#[derive(Debug, Clone, Copy, PartialEq, Eq, Structural)]
pub enum OutputFormat {
    Table,
    Json,
    Yaml,
    Tsv,
    Ndjson,
}

} // verus!
