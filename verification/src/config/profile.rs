//! Deployment kinds, account modes and the resolved runtime profile.

use vstd::prelude::*;
use crate::cli::context::LayoutMode;
use crate::cli::globals::GlobalArgs;
use crate::config::commands::assign_spec;
use crate::config::file::{
    layout_mode_of, names_distinct, profile_index, profiles_view, ConfigFile, ConfigV, DefaultLayout,
    ProfileEntry, ProfileEntryV,
};
use crate::error::Error;
use crate::text::{concat, concat3, copy_opt, copy_str, opt_view, str_eq};
use crate::urls::{parse_url, parsed_from, url_parse_result, HostUrl};

verus! {

/// Which keygen.sh deployment a profile talks to.
#[derive(Debug, Clone, Copy, PartialEq, Eq, Structural)]
pub enum Deployment {
    Official,
    Ce,
    Ee,
}

/// Whether API paths are account-scoped (`/v1/accounts/<id>/...`).
#[derive(Debug, Clone, Copy, PartialEq, Eq, Structural)]
pub enum AccountMode {
    Singleplayer,
    Multiplayer,
}


/// The runtime profile: CLI flags and environment layered over the on-disk
/// configuration.
#[derive(Debug)]
pub struct Profile {
    pub name: String,
    pub deployment: Deployment,
    pub host: HostUrl,
    pub account: Option<String>,
    pub env: Option<String>,
    pub mode: AccountMode,
    pub token_override: Option<String>,
    pub default_layout: Option<LayoutMode>,
}

/// The first present value: the flag (or its environment variable) wins over
/// the profile's entry.
pub open spec fn first_of(flag: Option<Seq<char>>, entry: Option<Seq<char>>) -> Option<Seq<char>> {
    match flag {
        Some(v) => Some(v),
        None => entry,
    }
}

/// The host used when neither a flag nor the profile names one.
pub open spec fn default_host() -> Seq<char> {
    "https://api.keygen.sh"@
}

/// The profile name: `--profile`, else the configured default, else
/// `default`.
pub open spec fn profile_name_spec(g: GlobalArgs, cfg: ConfigFile) -> Seq<char> {
    match opt_view(g.profile) {
        Some(n) => n,
        None => match cfg@.default_profile {
            Some(d) => d,
            None => "default"@,
        },
    }
}

/// The entry stored under a profile name, if any.
pub open spec fn entry_of(cfg: ConfigFile, name: Seq<char>) -> Option<ProfileEntryV> {
    match profile_index(cfg@.profiles, name) {
        Some(i) => Some(cfg@.profiles[i].1),
        None => None,
    }
}

/// The entry of the configured `default_profile`, if any.
pub open spec fn default_entry_of(cfg: ConfigFile) -> Option<ProfileEntryV> {
    match cfg@.default_profile {
        Some(d) => entry_of(cfg, d),
        None => None,
    }
}

/// The first present of two optional entries.
pub open spec fn first_entry(a: Option<ProfileEntryV>, b: Option<ProfileEntryV>) -> Option<ProfileEntryV> {
    match a {
        Some(e) => Some(e),
        None => b,
    }
}

/// The host an optional entry supplies.
pub open spec fn host_of(e: Option<ProfileEntryV>) -> Option<Seq<char>> {
    match e {
        Some(x) => Some(x.host),
        None => None,
    }
}

/// The account an optional entry supplies.
pub open spec fn account_of(e: Option<ProfileEntryV>) -> Option<Seq<char>> {
    match e {
        Some(x) => x.account,
        None => None,
    }
}

/// The environment an optional entry supplies.
pub open spec fn env_of(e: Option<ProfileEntryV>) -> Option<Seq<char>> {
    match e {
        Some(x) => x.env,
        None => None,
    }
}

/// The account mode an optional entry supplies.
pub open spec fn mode_of(e: Option<ProfileEntryV>) -> Option<AccountMode> {
    match e {
        Some(x) => x.mode,
        None => None,
    }
}

/// The dashboard layout an optional entry supplies.
pub open spec fn layout_of(e: Option<ProfileEntryV>) -> Option<DefaultLayout> {
    match e {
        Some(x) => x.default_layout,
        None => None,
    }
}

/// The resolution rules: each setting comes from the flag (or environment
/// variable) first, then from the named profile in the configuration file,
/// then from the `default_profile` entry, then from the built-in default
/// (Official, `https://api.keygen.sh`). A named profile that exists
/// supplies its host and deployment; its missing optional fields come from
/// the `default_profile` entry.
pub open spec fn resolve_spec(g: GlobalArgs, cfg: ConfigFile, r: Result<Profile, Error>) -> bool {
    let name = profile_name_spec(g, cfg);
    let entry = entry_of(cfg, name);
    let dflt = default_entry_of(cfg);
    let settled = first_entry(entry, dflt);
    let host_str = match first_of(opt_view(g.host), host_of(settled)) {
        Some(h) => h,
        None => default_host(),
    };
    match url_parse_result(host_str) {
        Err(msg) => r matches Err(Error::Config(m)) && m@ == "invalid host "@ + host_str + ": "@ + msg,
        Ok((_, host, _)) => r matches Ok(p) && {
            let deployment = match settled {
                Some(e) => e.deployment,
                None => if host == Some("api.keygen.sh"@) { Deployment::Official } else { Deployment::Ce },
            };
            &&& p.name@ == name
            &&& parsed_from(p.host, host_str)
            &&& p.deployment == deployment
            &&& opt_view(p.account) == first_of(opt_view(g.account), first_of(account_of(entry), account_of(dflt)))
            &&& opt_view(p.env) == first_of(opt_view(g.env), first_of(env_of(entry), env_of(dflt)))
            &&& p.mode == match mode_of(entry) {
                Some(m) => m,
                None => match mode_of(dflt) {
                    Some(m) => m,
                    None => if deployment == Deployment::Official { AccountMode::Multiplayer } else { AccountMode::Singleplayer },
                },
            }
            &&& opt_view(p.token_override) == opt_view(g.token)
            &&& p.default_layout == match layout_of(entry) {
                Some(l) => Some(layout_mode_of(l)),
                None => match layout_of(dflt) {
                    Some(l) => Some(layout_mode_of(l)),
                    None => None,
                },
            }
        },
    }
}

fn find_entry<'a>(cfg: &'a ConfigFile, name: &str) -> (r: Option<&'a ProfileEntry>)
    requires
        cfg.wf(),
    ensures
        match r {
            Some(e) => profile_index(cfg@.profiles, name@) matches Some(i) && cfg@.profiles[i].1 == e@,
            None => profile_index(cfg@.profiles, name@) is None,
        },
{
    let n = cfg.profiles.len();
    let mut i: usize = 0;
    while i < n
        invariant
            n == cfg.profiles@.len(),
            i <= n,
            names_distinct(cfg@.profiles),
            forall|k: int| 0 <= k < i ==> cfg@.profiles[k].0 != name@,
        decreases n - i,
    {
        assert(cfg@.profiles[i as int] == (cfg.profiles@[i as int].0@, cfg.profiles@[i as int].1@));
        if str_eq(cfg.profiles[i].0.as_str(), name) {
            return Some(&cfg.profiles[i].1);
        }
        i = i + 1;
    }
    None
}

fn opt_field(e: Option<&ProfileEntry>, account: bool) -> (r: Option<&Option<String>>)
    ensures
        match r {
            Some(f) => e is Some && opt_view(*f) == if account {
                e->0@.account
            } else {
                e->0@.env
            },
            None => e is None,
        },
{
    match e {
        Some(x) => if account {
            Some(&x.account)
        } else {
            Some(&x.env)
        },
        None => None,
    }
}

fn pick(flag: &Option<String>, entry: Option<&Option<String>>, dflt: Option<&Option<String>>) -> (r: Option<String>)
    ensures
        opt_view(r) == first_of(
            opt_view(*flag),
            first_of(
                match entry {
                    Some(e) => opt_view(*e),
                    None => None,
                },
                match dflt {
                    Some(e) => opt_view(*e),
                    None => None,
                },
            ),
        ),
{
    match flag {
        Some(v) => Some(copy_str(v)),
        None => {
            let from_entry = match entry {
                Some(e) => copy_opt(e),
                None => None,
            };
            match from_entry {
                Some(v) => Some(v),
                None => match dflt {
                    Some(e) => copy_opt(e),
                    None => None,
                },
            }
        },
    }
}

impl Profile {
    /// Build the runtime profile from the global options layered on top of
    /// the configuration file (flag, then environment variable, then the
    /// named profile, then the `default_profile`, then the built-in
    /// defaults).
    pub fn resolve(globals: &GlobalArgs, cfg: &ConfigFile) -> (r: Result<Profile, Error>)
        requires
            cfg.wf(),
        ensures
            resolve_spec(*globals, *cfg, r),
    {
        let name = match &globals.profile {
            Some(p) => copy_str(p),
            None => match &cfg.default_profile {
                Some(d) => copy_str(d),
                None => String::from_str("default"),
            },
        };
        let entry = find_entry(cfg, name.as_str());
        let dflt = match &cfg.default_profile {
            Some(d) => find_entry(cfg, d.as_str()),
            None => None,
        };
        let settled = match entry {
            Some(e) => Some(e),
            None => dflt,
        };
        let host_str = match &globals.host {
            Some(h) => copy_str(h),
            None => match settled {
                Some(e) => copy_str(&e.host),
                None => String::from_str("https://api.keygen.sh"),
            },
        };
        let host = match parse_url(host_str.as_str()) {
            Ok(u) => u,
            Err(msg) => {
                let head = concat3("invalid host ", host_str.as_str(), ": ");
                return Err(Error::Config(concat(head.as_str(), msg.as_str())));
            },
        };
        let deployment = match settled {
            Some(e) => e.deployment,
            None => {
                let is_official = match &host.host {
                    Some(h) => str_eq(h.as_str(), "api.keygen.sh"),
                    None => false,
                };
                if is_official {
                    Deployment::Official
                } else {
                    Deployment::Ce
                }
            },
        };
        let account = pick(&globals.account, opt_field(entry, true), opt_field(dflt, true));
        let env = pick(&globals.env, opt_field(entry, false), opt_field(dflt, false));
        let fallback_mode = if deployment == Deployment::Official {
            AccountMode::Multiplayer
        } else {
            AccountMode::Singleplayer
        };
        let entry_mode = match entry {
            Some(e) => e.mode,
            None => None,
        };
        let dflt_mode = match dflt {
            Some(e) => e.mode,
            None => None,
        };
        let mode = match entry_mode {
            Some(m) => m,
            None => match dflt_mode {
                Some(m) => m,
                None => fallback_mode,
            },
        };
        let entry_layout = match entry {
            Some(e) => e.default_layout,
            None => None,
        };
        let dflt_layout = match dflt {
            Some(e) => e.default_layout,
            None => None,
        };
        let layout = match entry_layout {
            Some(l) => Some(l),
            None => dflt_layout,
        };
        let default_layout = match layout {
            Some(DefaultLayout::Table) => Some(LayoutMode::Table),
            Some(DefaultLayout::Cards) => Some(LayoutMode::Cards),
            None => None,
        };
        Ok(Profile {
            name,
            deployment,
            host,
            account,
            env,
            mode,
            token_override: copy_opt(&globals.token),
            default_layout,
        })
    }
}

/// `config set default_profile <name>` makes `<name>` the active profile of
/// every later run that does not pass `--profile`.
pub proof fn default_profile_selects(
    old: ConfigV,
    name: Seq<char>,
    r: Result<(), Error>,
    cfg: ConfigFile,
    g: GlobalArgs,
)
    requires
        assign_spec(old, "default_profile"@, name, cfg@, r),
        g.profile is None,
    ensures
        r is Ok,
        profile_name_spec(g, cfg) == name,
{
}

} // verus!
