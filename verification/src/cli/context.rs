//! The runtime context every command receives.

use vstd::prelude::*;
use std::sync::Arc;
use crate::cli::globals::{GlobalArgs, OutputFormat};
use crate::config::file::ConfigFile;
use crate::config::profile::{resolve_spec, Profile};
use crate::error::Error;
use crate::output::OutputFormat as OutMode;
use crate::text::{copy_opt, opt_view};

verus! {

/// Layout of the interactive dashboard's lists.
#[derive(Debug, Clone, Copy, PartialEq, Eq, Structural)]
pub enum LayoutMode {
    Table,
    Cards,
}


/// Whether the tool talks to an agent (JSON, hints, no spinner) or to a
/// person (tables, colors).
#[derive(Debug, Clone, Copy, PartialEq, Eq, Structural)]
pub enum Mode {
    Ai,
    Human,
}

/// The mode chosen by `--ai`.
pub open spec fn mode_spec(ai: bool) -> Mode {
    if ai {
        Mode::Ai
    } else {
        Mode::Human
    }
}

/// The output format of a mode when `--output` is not given: JSON for
/// agents, a table for people.
pub open spec fn default_format_spec(m: Mode) -> OutMode {
    match m {
        Mode::Ai => OutMode::Json,
        Mode::Human => OutMode::Table,
    }
}

/// The output format selected by `--output`.
pub open spec fn out_mode_of(f: OutputFormat) -> OutMode {
    match f {
        OutputFormat::Table => OutMode::Table,
        OutputFormat::Json => OutMode::Json,
        OutputFormat::Yaml => OutMode::Yaml,
        OutputFormat::Tsv => OutMode::Tsv,
        OutputFormat::Ndjson => OutMode::Ndjson,
    }
}

impl Mode {
    /// `--ai` selects AI mode; everything else is human mode.
    pub fn resolve(ai: bool) -> (m: Mode)
        ensures
            m == mode_spec(ai),
    {
        if ai {
            Mode::Ai
        } else {
            Mode::Human
        }
    }

    /// The format used when `--output` is not given.
    pub fn default_format(self) -> (f: OutMode)
        ensures
            f == default_format_spec(self),
    {
        match self {
            Mode::Ai => OutMode::Json,
            Mode::Human => OutMode::Table,
        }
    }
}

/// What a command runs with.
#[derive(Debug)]
pub struct ContextInner {
    pub profile: Profile,
    pub mode: Mode,
    pub format: OutMode,
    pub dry_run: bool,
    pub timeout_secs: u64,
    pub retry: u8,
    pub idempotency_key: Option<String>,
}

/// Runtime context built from the flags and the configuration file; cheap
/// to clone.
#[derive(Debug)]
pub struct Context {
    pub inner: Arc<ContextInner>,
}

impl Context {
    /// Build the context: resolve the profile, pick the mode from `--ai`, and
    /// the format from `--output` or else from the mode.
    pub fn from_globals(globals: &GlobalArgs, cfg: &ConfigFile) -> (r: Result<Context, Error>)
        requires
            cfg.wf(),
        ensures
            match r {
                Ok(c) => resolve_spec(*globals, *cfg, Ok(c.inner.profile)) && c.inner.mode == mode_spec(globals.ai)
                    && c.inner.format == match globals.output {
                    Some(f) => out_mode_of(f),
                    None => default_format_spec(mode_spec(globals.ai)),
                } && c.inner.dry_run == globals.dry_run && c.inner.timeout_secs == globals.timeout
                    && c.inner.retry == globals.retry && opt_view(c.inner.idempotency_key) == opt_view(
                    globals.idempotency_key,
                ),
                Err(e) => resolve_spec(*globals, *cfg, Err(e)),
            },
    {
        let profile = match Profile::resolve(globals, cfg) {
            Ok(p) => p,
            Err(e) => return Err(e),
        };
        let mode = Mode::resolve(globals.ai);
        let format = match globals.output {
            Some(OutputFormat::Table) => OutMode::Table,
            Some(OutputFormat::Json) => OutMode::Json,
            Some(OutputFormat::Yaml) => OutMode::Yaml,
            Some(OutputFormat::Tsv) => OutMode::Tsv,
            Some(OutputFormat::Ndjson) => OutMode::Ndjson,
            None => mode.default_format(),
        };
        let inner = ContextInner {
            profile,
            mode,
            format,
            dry_run: globals.dry_run,
            timeout_secs: globals.timeout,
            retry: globals.retry,
            idempotency_key: copy_opt(&globals.idempotency_key),
        };
        Ok(Context { inner: Arc::new(inner) })
    }

    /// The resolved profile.
    pub fn profile(&self) -> (p: &Profile)
        ensures
            *p == self.inner.profile,
    {
        &self.inner.profile
    }

    /// The mode.
    pub fn mode(&self) -> (m: Mode)
        ensures
            m == self.inner.mode,
    {
        self.inner.mode
    }

    /// The output format.
    pub fn format(&self) -> (f: OutMode)
        ensures
            f == self.inner.format,
    {
        self.inner.format
    }
}

/// Whether failures are reported as JSON: `--output json`, or `--ai`
/// without an explicit format (the format AI mode defaults to).
pub fn errors_as_json(globals: &GlobalArgs) -> (r: bool)
    ensures
        r == match globals.output {
            Some(f) => f == OutputFormat::Json,
            None => globals.ai,
        },
{
    match globals.output {
        Some(OutputFormat::Json) => true,
        Some(_) => false,
        None => globals.ai,
    }
}

/// An explicit `--output` is used as given: each of the five formats
/// renders as the format of the same name (`tsv` as TSV, `ndjson` as NDJSON,
/// and so on), and no two of them render alike.
pub proof fn explicit_output_is_kept(f: OutputFormat, g: OutputFormat)
    ensures
        (f == OutputFormat::Table) <==> (out_mode_of(f) == OutMode::Table),
        (f == OutputFormat::Json) <==> (out_mode_of(f) == OutMode::Json),
        (f == OutputFormat::Yaml) <==> (out_mode_of(f) == OutMode::Yaml),
        (f == OutputFormat::Tsv) <==> (out_mode_of(f) == OutMode::Tsv),
        (f == OutputFormat::Ndjson) <==> (out_mode_of(f) == OutMode::Ndjson),
        out_mode_of(f) == out_mode_of(g) <==> f == g,
{
}

/// Without `--output`, `--ai` renders JSON and every other run a table.
pub proof fn default_output_follows_ai(ai: bool)
    ensures
        default_format_spec(mode_spec(ai)) == OutMode::Json <==> ai,
        default_format_spec(mode_spec(ai)) == OutMode::Table <==> !ai,
{
}

} // verus!
