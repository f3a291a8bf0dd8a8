//! The on-disk configuration (`config.toml`) and the XDG directory layout.

use vstd::prelude::*;
use crate::cli::context::LayoutMode;
use crate::config::profile::{AccountMode, Deployment};
use crate::error::Error;
use crate::text::{concat, concat3, opt_view};

verus! {

/// The whole configuration file: an optional default profile and the named
/// profiles. Profile names are distinct (see [`ConfigFile::wf`]).
#[derive(Debug)]
pub struct ConfigFile {
    pub default_profile: Option<String>,
    pub profiles: Vec<(String, ProfileEntry)>,
}

/// One named profile as stored on disk.
#[derive(Debug)]
pub struct ProfileEntry {
    pub deployment: Deployment,
    pub host: String,
    pub account: Option<String>,
    pub env: Option<String>,
    pub mode: Option<AccountMode>,
    pub output: Option<String>,
    pub default_layout: Option<DefaultLayout>,
}

/// Preferred layout of the interactive dashboard.
#[derive(Debug, Clone, Copy, PartialEq, Eq, Structural)]
pub enum DefaultLayout {
    Table,
    Cards,
}

/// The dashboard layout a stored layout selects.
pub open spec fn layout_mode_of(l: DefaultLayout) -> LayoutMode {
    match l {
        DefaultLayout::Table => LayoutMode::Table,
        DefaultLayout::Cards => LayoutMode::Cards,
    }
}

impl From<DefaultLayout> for LayoutMode {
    fn from(v: DefaultLayout) -> (m: LayoutMode) {
        match v {
            DefaultLayout::Table => LayoutMode::Table,
            DefaultLayout::Cards => LayoutMode::Cards,
        }
    }
}

impl vstd::std_specs::convert::FromSpecImpl<DefaultLayout> for LayoutMode {
    open spec fn obeys_from_spec() -> bool {
        true
    }

    open spec fn from_spec(v: DefaultLayout) -> LayoutMode {
        layout_mode_of(v)
    }
}

/// The mathematical content of a profile entry.
pub struct ProfileEntryV {
    pub deployment: Deployment,
    pub host: Seq<char>,
    pub account: Option<Seq<char>>,
    pub env: Option<Seq<char>>,
    pub mode: Option<AccountMode>,
    pub output: Option<Seq<char>>,
    pub default_layout: Option<DefaultLayout>,
}

impl View for ProfileEntry {
    type V = ProfileEntryV;

    open spec fn view(&self) -> ProfileEntryV {
        ProfileEntryV {
            deployment: self.deployment,
            host: self.host@,
            account: opt_view(self.account),
            env: opt_view(self.env),
            mode: self.mode,
            output: opt_view(self.output),
            default_layout: self.default_layout,
        }
    }
}

/// The view of a list of named profiles.
pub open spec fn profiles_view(p: Seq<(String, ProfileEntry)>) -> Seq<(Seq<char>, ProfileEntryV)> {
    p.map_values(|e: (String, ProfileEntry)| (e.0@, e.1@))
}

/// The mathematical content of the configuration file.
pub struct ConfigV {
    pub default_profile: Option<Seq<char>>,
    pub profiles: Seq<(Seq<char>, ProfileEntryV)>,
}

impl View for ConfigFile {
    type V = ConfigV;

    open spec fn view(&self) -> ConfigV {
        ConfigV {
            default_profile: opt_view(self.default_profile),
            profiles: profiles_view(self.profiles@),
        }
    }
}

/// Profile names occur at most once.
pub open spec fn names_distinct(p: Seq<(Seq<char>, ProfileEntryV)>) -> bool {
    forall|i: int, j: int| 0 <= i < p.len() && 0 <= j < p.len() && i != j ==> p[i].0 != p[j].0
}

/// Position of the profile called `name`.
pub open spec fn profile_index(p: Seq<(Seq<char>, ProfileEntryV)>, name: Seq<char>) -> Option<int> {
    if exists|i: int| 0 <= i < p.len() && p[i].0 == name {
        Some(choose|i: int| 0 <= i < p.len() && p[i].0 == name)
    } else {
        None
    }
}

impl ConfigFile {
    /// Well-formedness: profile names are distinct.
    pub open spec fn wf(&self) -> bool {
        names_distinct(self@.profiles)
    }

    /// The empty configuration, used when no file exists yet.
    pub fn empty() -> (c: ConfigFile)
        ensures
            c.wf(),
            c@.default_profile is None,
            c@.profiles.len() == 0,
    {
        let c = ConfigFile { default_profile: None, profiles: Vec::new() };
        assert(c@.profiles =~= Seq::<(Seq<char>, ProfileEntryV)>::empty());
        c
    }
}

/// `base` with the relative path `seg` appended, as `Path::join` does on Unix.
pub open spec fn path_join(base: Seq<char>, seg: Seq<char>) -> Seq<char> {
    if base.len() == 0 || base[base.len() - 1] == '/' {
        base + seg
    } else {
        base + seq!['/'] + seg
    }
}

/// An absolute Unix path starts with `/`.
pub open spec fn is_absolute(p: Seq<char>) -> bool {
    p.len() > 0 && p[0] == '/'
}

/// The application directory under an XDG base directory: the XDG variable
/// when it holds an absolute path, otherwise `$HOME/<default_segment>`.
pub open spec fn xdg_spec(
    xdg: Option<Seq<char>>,
    home: Option<Seq<char>>,
    default_segment: Seq<char>,
) -> Option<Seq<char>> {
    if xdg matches Some(x) && is_absolute(x) {
        Some(path_join(xdg->0, "keygen"@))
    } else {
        match home {
            Some(h) => Some(path_join(path_join(h, default_segment), "keygen"@)),
            None => None,
        }
    }
}

/// Join a relative path segment onto a base path.
pub fn join_path(base: &str, seg: &str) -> (r: String)
    ensures
        r@ == path_join(base@, seg@),
{
    let n = base.unicode_len();
    if n == 0 || base.get_char(n - 1) == '/' {
        concat(base, seg)
    } else {
        let r = concat3(base, "/", seg);
        proof {
            reveal_strlit("/");
        }
        r
    }
}

/// The `keygen` directory under an XDG base directory. `xdg` is the value of
/// the XDG variable, `home` that of `HOME`.
pub fn xdg_dir_or_fallback(xdg: Option<String>, home: Option<String>, default_segment: &str) -> (r:
    Result<String, Error>)
    ensures
        match r {
            Ok(p) => xdg_spec(opt_view(xdg), opt_view(home), default_segment@) == Some(p@),
            Err(e) => xdg_spec(opt_view(xdg), opt_view(home), default_segment@) is None && (e
                matches Error::Config(m) && m@ == "HOME env var not set"@),
        },
{
    if let Some(raw) = &xdg {
        if raw.as_str().unicode_len() > 0 && raw.as_str().get_char(0) == '/' {
            return Ok(join_path(raw.as_str(), "keygen"));
        }
    }
    match home {
        Some(h) => {
            let base = join_path(h.as_str(), default_segment);
            Ok(join_path(base.as_str(), "keygen"))
        },
        None => Err(Error::config("HOME env var not set")),
    }
}

/// `~/.config/keygen` (or `$XDG_CONFIG_HOME/keygen`).
pub fn config_dir(xdg_config_home: Option<String>, home: Option<String>) -> (r: Result<String, Error>)
    ensures
        match r {
            Ok(p) => xdg_spec(opt_view(xdg_config_home), opt_view(home), ".config"@) == Some(p@),
            Err(e) => xdg_spec(opt_view(xdg_config_home), opt_view(home), ".config"@) is None
                && (e matches Error::Config(m) && m@ == "HOME env var not set"@),
        },
{
    xdg_dir_or_fallback(xdg_config_home, home, ".config")
}

/// `~/.cache/keygen` (or `$XDG_CACHE_HOME/keygen`).
pub fn cache_dir(xdg_cache_home: Option<String>, home: Option<String>) -> (r: Result<String, Error>)
    ensures
        match r {
            Ok(p) => xdg_spec(opt_view(xdg_cache_home), opt_view(home), ".cache"@) == Some(p@),
            Err(e) => xdg_spec(opt_view(xdg_cache_home), opt_view(home), ".cache"@) is None
                && (e matches Error::Config(m) && m@ == "HOME env var not set"@),
        },
{
    xdg_dir_or_fallback(xdg_cache_home, home, ".cache")
}

/// `~/.local/share/keygen` (or `$XDG_DATA_HOME/keygen`).
pub fn data_dir(xdg_data_home: Option<String>, home: Option<String>) -> (r: Result<String, Error>)
    ensures
        match r {
            Ok(p) => xdg_spec(opt_view(xdg_data_home), opt_view(home), ".local/share"@) == Some(
                p@,
            ),
            Err(e) => xdg_spec(opt_view(xdg_data_home), opt_view(home), ".local/share"@) is None
                && (e matches Error::Config(m) && m@ == "HOME env var not set"@),
        },
{
    xdg_dir_or_fallback(xdg_data_home, home, ".local/share")
}

/// `<config_dir>/config.toml`.
pub fn config_path(xdg_config_home: Option<String>, home: Option<String>) -> (r: Result<
    String,
    Error,
>)
    ensures
        match r {
            Ok(p) => xdg_spec(opt_view(xdg_config_home), opt_view(home), ".config"@) matches Some(
                d,
            ) && p@ == path_join(d, "config.toml"@),
            Err(e) => xdg_spec(opt_view(xdg_config_home), opt_view(home), ".config"@) is None
                && (e matches Error::Config(m) && m@ == "HOME env var not set"@),
        },
{
    let dir = config_dir(xdg_config_home, home)?;
    Ok(join_path(dir.as_str(), "config.toml"))
}

} // verus!
