//! `keygen config get|set|list|path`: reading and writing configuration keys.
//!
//! Keys are `default_profile` or `profiles.<name>.<field>`.

use vstd::prelude::*;
use crate::config::file::{
    names_distinct, path_join, profile_index, profiles_view, xdg_spec, ConfigFile, ConfigV,
    DefaultLayout, ProfileEntry, ProfileEntryV,
};
use crate::output::dispatch::Payload;
use crate::config::profile::{AccountMode, Deployment};
use crate::error::Error;
use crate::json::{Json, JsonV};
use crate::text::{
    concat, concat3, copy_opt, copy_str, opt_view, split_once, split_once_spec, str_eq, strip_prefix,
    strip_prefix_spec,
};

verus! {

/// The `keygen config` subcommands.
#[derive(Debug)]
pub enum ConfigCmd {
    /// Set a config key (e.g. `default_profile`, `profiles.<name>.host`).
    SetValue { key: String, value: String },
    /// Get a config key.
    Get { key: String },
    /// List all config keys.
    List,
    /// Print the path of the config / credentials / cache files.
    Path,
}

/// How a configuration key is read.
pub enum KeyKind {
    DefaultProfile,
    Profile(Seq<char>, Seq<char>),
    Malformed,
    Unknown,
}

/// Classify a configuration key.
pub open spec fn key_kind(key: Seq<char>) -> KeyKind {
    if key == "default_profile"@ {
        KeyKind::DefaultProfile
    } else {
        match strip_prefix_spec(key, "profiles."@) {
            Some(rest) => match split_once_spec(rest, '.') {
                Some((name, field)) => KeyKind::Profile(name, field),
                None => KeyKind::Malformed,
            },
            None => KeyKind::Unknown,
        }
    }
}

/// Message for a `profiles.` key without a field.
pub open spec fn malformed_msg(key: Seq<char>) -> Seq<char> {
    "expected profiles.<name>.<field>, got `"@ + key + "`"@
}

/// Message for a key that is neither `default_profile` nor `profiles.`.
pub open spec fn unknown_key_msg(key: Seq<char>) -> Seq<char> {
    "unknown config key `"@ + key + "`"@
}

/// The on-disk spelling of a deployment.
pub open spec fn deployment_text(d: Deployment) -> Seq<char> {
    match d {
        Deployment::Official => "official"@,
        Deployment::Ce => "ce"@,
        Deployment::Ee => "ee"@,
    }
}

/// The on-disk spelling of an account mode.
pub open spec fn mode_text(m: AccountMode) -> Seq<char> {
    match m {
        AccountMode::Singleplayer => "singleplayer"@,
        AccountMode::Multiplayer => "multiplayer"@,
    }
}

/// The on-disk spelling of a layout.
pub open spec fn layout_text(l: DefaultLayout) -> Seq<char> {
    match l {
        DefaultLayout::Table => "table"@,
        DefaultLayout::Cards => "cards"@,
    }
}

/// A new profile created by `config set profiles.<name>.<field>`.
pub open spec fn default_entry_v() -> ProfileEntryV {
    ProfileEntryV {
        deployment: Deployment::Official,
        host: "https://api.keygen.sh"@,
        account: None,
        env: None,
        mode: None,
        output: None,
        default_layout: None,
    }
}

/// The entry after setting `field` to `value`, or the message of the user
/// error the update is refused with.
pub open spec fn apply_field(e: ProfileEntryV, field: Seq<char>, value: Seq<char>) -> Result<
    ProfileEntryV,
    Seq<char>,
> {
    if field == "deployment"@ {
        if value == "official"@ {
            Ok(ProfileEntryV { deployment: Deployment::Official, ..e })
        } else if value == "ce"@ {
            Ok(ProfileEntryV { deployment: Deployment::Ce, ..e })
        } else if value == "ee"@ {
            Ok(ProfileEntryV { deployment: Deployment::Ee, ..e })
        } else {
            Err("deployment must be one of official|ce|ee, got `"@ + value + "`"@)
        }
    } else if field == "host"@ {
        Ok(ProfileEntryV { host: value, ..e })
    } else if field == "account"@ {
        Ok(ProfileEntryV { account: Some(value), ..e })
    } else if field == "env"@ {
        Ok(ProfileEntryV { env: Some(value), ..e })
    } else if field == "mode"@ {
        if value == "singleplayer"@ {
            Ok(ProfileEntryV { mode: Some(AccountMode::Singleplayer), ..e })
        } else if value == "multiplayer"@ {
            Ok(ProfileEntryV { mode: Some(AccountMode::Multiplayer), ..e })
        } else {
            Err("mode must be singleplayer|multiplayer, got `"@ + value + "`"@)
        }
    } else if field == "output"@ {
        Ok(ProfileEntryV { output: Some(value), ..e })
    } else {
        Err("unknown profile field `"@ + field + "`"@)
    }
}

/// The profiles with `name` present, a default entry appended when missing.
pub open spec fn ensure_profile(p: Seq<(Seq<char>, ProfileEntryV)>, name: Seq<char>) -> Seq<
    (Seq<char>, ProfileEntryV),
> {
    if profile_index(p, name) is Some {
        p
    } else {
        p.push((name, default_entry_v()))
    }
}

/// What `assign` does: the configuration afterwards and the result.
pub open spec fn assign_spec(
    old: ConfigV,
    key: Seq<char>,
    value: Seq<char>,
    new: ConfigV,
    r: Result<(), Error>,
) -> bool {
    match key_kind(key) {
        KeyKind::DefaultProfile => r is Ok && new.default_profile == Some(value) && new.profiles
            == old.profiles,
        KeyKind::Malformed => new == old && (r matches Err(Error::User(m)) && m@ == malformed_msg(
            key,
        )),
        KeyKind::Unknown => new == old && (r matches Err(Error::User(m)) && m@ == unknown_key_msg(
            key,
        )),
        KeyKind::Profile(name, field) => {
            let p1 = ensure_profile(old.profiles, name);
            let i = profile_index(p1, name)->0;
            &&& new.default_profile == old.default_profile
            &&& match apply_field(p1[i].1, field, value) {
                Ok(e2) => r is Ok && new.profiles == p1.update(i, (name, e2)),
                Err(msg) => new.profiles == p1 && (r matches Err(Error::User(m)) && m@ == msg),
            }
        },
    }
}

/// The JSON rendering of one field of a profile entry (`null` when absent
/// or unknown).
pub open spec fn field_value(e: ProfileEntryV, field: Seq<char>) -> JsonV {
    if field == "deployment"@ {
        JsonV::Str(deployment_text(e.deployment))
    } else if field == "host"@ {
        JsonV::Str(e.host)
    } else if field == "account"@ {
        opt_str_json(e.account)
    } else if field == "env"@ {
        opt_str_json(e.env)
    } else if field == "mode"@ {
        match e.mode {
            Some(m) => JsonV::Str(mode_text(m)),
            None => JsonV::Null,
        }
    } else if field == "output"@ {
        opt_str_json(e.output)
    } else if field == "default_layout"@ {
        match e.default_layout {
            Some(l) => JsonV::Str(layout_text(l)),
            None => JsonV::Null,
        }
    } else {
        JsonV::Null
    }
}

/// An optional string as JSON.
pub open spec fn opt_str_json(s: Option<Seq<char>>) -> JsonV {
    match s {
        Some(v) => JsonV::Str(v),
        None => JsonV::Null,
    }
}

/// What `lookup` answers for a key. `location` names the configuration file
/// in the not-found message.
pub open spec fn lookup_spec(cfg: ConfigV, key: Seq<char>, location: Seq<char>) -> Result<
    JsonV,
    Seq<char>,
> {
    match key_kind(key) {
        KeyKind::DefaultProfile => Ok(opt_str_json(cfg.default_profile)),
        KeyKind::Profile(name, field) => match profile_index(cfg.profiles, name) {
            Some(i) => Ok(field_value(cfg.profiles[i].1, field)),
            None => Err("profile `"@ + name + "` not found in "@ + location),
        },
        KeyKind::Malformed => Err(malformed_msg(key)),
        KeyKind::Unknown => Err(unknown_key_msg(key)),
    }
}

/// Parsed form of a configuration key.
enum ParsedKey {
    DefaultProfile,
    Profile(String, String),
    Malformed,
    Unknown,
}

fn parse_key(key: &str) -> (r: ParsedKey)
    ensures
        match (r, key_kind(key@)) {
            (ParsedKey::DefaultProfile, KeyKind::DefaultProfile) => true,
            (ParsedKey::Profile(n, f), KeyKind::Profile(n2, f2)) => n@ == n2 && f@ == f2,
            (ParsedKey::Malformed, KeyKind::Malformed) => true,
            (ParsedKey::Unknown, KeyKind::Unknown) => true,
            _ => false,
        },
{
    if str_eq(key, "default_profile") {
        return ParsedKey::DefaultProfile;
    }
    match strip_prefix(key, "profiles.") {
        Some(rest) => match split_once(rest.as_str(), '.') {
            Some((name, field)) => ParsedKey::Profile(name, field),
            None => ParsedKey::Malformed,
        },
        None => ParsedKey::Unknown,
    }
}

proof fn lemma_index_of_distinct(p: Seq<(Seq<char>, ProfileEntryV)>, name: Seq<char>, k: int)
    requires
        names_distinct(p),
        0 <= k < p.len(),
        p[k].0 == name,
    ensures
        profile_index(p, name) == Some(k),
{
}

fn find_profile(profiles: &Vec<(String, ProfileEntry)>, name: &str) -> (r: Option<usize>)
    requires
        names_distinct(profiles_view(profiles@)),
    ensures
        match r {
            Some(i) => i < profiles@.len() && profile_index(profiles_view(profiles@), name@) == Some(
                i as int,
            ),
            None => profile_index(profiles_view(profiles@), name@) is None,
        },
{
    let n = profiles.len();
    let mut i: usize = 0;
    while i < n
        invariant
            n == profiles@.len(),
            i <= n,
            names_distinct(profiles_view(profiles@)),
            forall|k: int| 0 <= k < i ==> profiles_view(profiles@)[k].0 != name@,
        decreases n - i,
    {
        if str_eq(profiles[i].0.as_str(), name) {
            proof {
                lemma_index_of_distinct(profiles_view(profiles@), name@, i as int);
            }
            return Some(i);
        }
        i = i + 1;
    }
    None
}

fn copy_entry(e: &ProfileEntry) -> (r: ProfileEntry)
    ensures
        r@ == e@,
{
    ProfileEntry {
        deployment: e.deployment,
        host: copy_str(&e.host),
        account: copy_opt(&e.account),
        env: copy_opt(&e.env),
        mode: e.mode,
        output: copy_opt(&e.output),
        default_layout: e.default_layout,
    }
}

fn default_entry() -> (r: ProfileEntry)
    ensures
        r@ == default_entry_v(),
{
    ProfileEntry {
        deployment: Deployment::Official,
        host: String::from_str("https://api.keygen.sh"),
        account: None,
        env: None,
        mode: None,
        output: None,
        default_layout: None,
    }
}

fn quoted_msg(head: &str, middle: &str) -> (r: String)
    ensures
        r@ == head@ + middle@ + "`"@,
{
    concat3(head, middle, "`")
}

fn apply_field_exec(e: &ProfileEntry, field: &str, value: &str) -> (r: Result<ProfileEntry, String>)
    ensures
        match (r, apply_field(e@, field@, value@)) {
            (Ok(x), Ok(y)) => x@ == y,
            (Err(m), Err(msg)) => m@ == msg,
            _ => false,
        },
{
    let mut out = copy_entry(e);
    if str_eq(field, "deployment") {
        if str_eq(value, "official") {
            out.deployment = Deployment::Official;
        } else if str_eq(value, "ce") {
            out.deployment = Deployment::Ce;
        } else if str_eq(value, "ee") {
            out.deployment = Deployment::Ee;
        } else {
            return Err(quoted_msg("deployment must be one of official|ce|ee, got `", value));
        }
    } else if str_eq(field, "host") {
        out.host = String::from_str(value);
    } else if str_eq(field, "account") {
        out.account = Some(String::from_str(value));
    } else if str_eq(field, "env") {
        out.env = Some(String::from_str(value));
    } else if str_eq(field, "mode") {
        if str_eq(value, "singleplayer") {
            out.mode = Some(AccountMode::Singleplayer);
        } else if str_eq(value, "multiplayer") {
            out.mode = Some(AccountMode::Multiplayer);
        } else {
            return Err(quoted_msg("mode must be singleplayer|multiplayer, got `", value));
        }
    } else if str_eq(field, "output") {
        out.output = Some(String::from_str(value));
    } else {
        return Err(quoted_msg("unknown profile field `", field));
    }
    Ok(out)
}

/// Set a configuration key. Creates the named profile (with defaults) when
/// it does not exist yet; keeps profile names distinct.
#[verifier::rlimit(40)]
pub fn assign(cfg: &mut ConfigFile, key: &str, value: &str) -> (r: Result<(), Error>)
    requires
        old(cfg).wf(),
    ensures
        final(cfg).wf(),
        assign_spec(old(cfg)@, key@, value@, final(cfg)@, r),
        r is Ok ==> forall|location: Seq<char>|
            #[trigger] lookup_spec(final(cfg)@, key@, location) == Ok::<JsonV, Seq<char>>(
                JsonV::Str(value@),
            ),
{
    let ghost before = cfg@;
    let r = match parse_key(key) {
        ParsedKey::DefaultProfile => {
            cfg.default_profile = Some(String::from_str(value));
            Ok(())
        },
        ParsedKey::Malformed => Err(Error::User(quoted_msg("expected profiles.<name>.<field>, got `", key))),
        ParsedKey::Unknown => Err(Error::User(quoted_msg("unknown config key `", key))),
        ParsedKey::Profile(name, field) => {
            let ghost p0 = cfg@.profiles;
            let i = match find_profile(&cfg.profiles, name.as_str()) {
                Some(i) => i,
                None => {
                    cfg.profiles.push((copy_str(&name), default_entry()));
                    proof {
                        assert(profiles_view(cfg.profiles@) =~= p0.push((name@, default_entry_v())));
                        lemma_index_of_distinct(profiles_view(cfg.profiles@), name@, p0.len() as int);
                    }
                    cfg.profiles.len() - 1
                },
            };
            let ghost p1 = cfg@.profiles;
            assert(p1 == ensure_profile(p0, name@));
            assert(profile_index(p1, name@) == Some(i as int));
            assert(profiles_view(cfg.profiles@)[i as int] == (cfg.profiles@[i as int].0@, cfg.profiles@[i as int].1@));
            match apply_field_exec(&cfg.profiles[i].1, field.as_str(), value) {
                Ok(updated) => {
                    let n = copy_str(&cfg.profiles[i].0);
                    cfg.profiles.set(i, (n, updated));
                    proof {
                        assert(profiles_view(cfg.profiles@) =~= p1.update(i as int, (name@, updated@)));
                    }
                    Ok(())
                },
                Err(msg) => Err(Error::User(msg)),
            }
        },
    };
    proof {
        if r is Ok {
            assert forall|location: Seq<char>| #[trigger] lookup_spec(cfg@, key@, location)
                == Ok::<JsonV, Seq<char>>(JsonV::Str(value@)) by {
                set_then_get(before, key@, value@, cfg@, r, location);
            }
        }
    }
    r
}

fn deployment_json(d: Deployment) -> (r: Json)
    ensures
        r@ == JsonV::Str(deployment_text(d)),
{
    match d {
        Deployment::Official => Json::string("official"),
        Deployment::Ce => Json::string("ce"),
        Deployment::Ee => Json::string("ee"),
    }
}

fn opt_json(s: &Option<String>) -> (r: Json)
    ensures
        r@ == opt_str_json(opt_view(*s)),
{
    match s {
        Some(v) => Json::string(v.as_str()),
        None => Json::Null,
    }
}

fn field_json(e: &ProfileEntry, field: &str) -> (r: Json)
    ensures
        r@ == field_value(e@, field@),
{
    if str_eq(field, "deployment") {
        deployment_json(e.deployment)
    } else if str_eq(field, "host") {
        Json::string(e.host.as_str())
    } else if str_eq(field, "account") {
        opt_json(&e.account)
    } else if str_eq(field, "env") {
        opt_json(&e.env)
    } else if str_eq(field, "mode") {
        match e.mode {
            Some(AccountMode::Singleplayer) => Json::string("singleplayer"),
            Some(AccountMode::Multiplayer) => Json::string("multiplayer"),
            None => Json::Null,
        }
    } else if str_eq(field, "output") {
        opt_json(&e.output)
    } else if str_eq(field, "default_layout") {
        match e.default_layout {
            Some(DefaultLayout::Table) => Json::string("table"),
            Some(DefaultLayout::Cards) => Json::string("cards"),
            None => Json::Null,
        }
    } else {
        Json::Null
    }
}

/// Read a configuration key. `location` names the configuration file in the
/// message of the not-found error.
pub fn lookup(cfg: &ConfigFile, key: &str, location: &str) -> (r: Result<Json, Error>)
    requires
        cfg.wf(),
    ensures
        match (r, lookup_spec(cfg@, key@, location@)) {
            (Ok(j), Ok(v)) => j@ == v,
            (Err(e), Err(msg)) => e matches Error::User(m) && m@ == msg,
            _ => false,
        },
{
    match parse_key(key) {
        ParsedKey::DefaultProfile => Ok(opt_json(&cfg.default_profile)),
        ParsedKey::Malformed => Err(Error::User(quoted_msg("expected profiles.<name>.<field>, got `", key))),
        ParsedKey::Unknown => Err(Error::User(quoted_msg("unknown config key `", key))),
        ParsedKey::Profile(name, field) => match find_profile(&cfg.profiles, name.as_str()) {
            Some(i) => {
                assert(profiles_view(cfg.profiles@)[i as int] == (cfg.profiles@[i as int].0@, cfg.profiles@[i as int].1@));
                Ok(field_json(&cfg.profiles[i].1, field.as_str()))
            },
            None => {
                let head = concat3("profile `", name.as_str(), "` not found in ");
                Err(Error::User(concat(head.as_str(), location)))
            },
        },
    }
}


proof fn lemma_ensure_profile(p: Seq<(Seq<char>, ProfileEntryV)>, name: Seq<char>)
    requires
        names_distinct(p),
    ensures
        names_distinct(ensure_profile(p, name)),
        profile_index(ensure_profile(p, name), name) matches Some(i) && 0 <= i < ensure_profile(
            p,
            name,
        ).len() && ensure_profile(p, name)[i].0 == name,
{
    if profile_index(p, name) is None {
        let q = p.push((name, default_entry_v()));
        assert(forall|k: int| 0 <= k < p.len() ==> p[k].0 != name);
        assert(names_distinct(q));
        lemma_index_of_distinct(q, name, p.len() as int);
    }
}

/// Setting a key and reading it back gives the value written, whenever the
/// write succeeded: `default_profile`, and `profiles.<name>.<field>` for the
/// fields `host`, `account`, `env`, `output` (any value), `deployment`
/// (`official|ce|ee`) and `mode` (`singleplayer|multiplayer`).
pub proof fn set_then_get(
    old: ConfigV,
    key: Seq<char>,
    value: Seq<char>,
    new: ConfigV,
    r: Result<(), Error>,
    location: Seq<char>,
)
    requires
        names_distinct(old.profiles),
        assign_spec(old, key, value, new, r),
        r is Ok,
    ensures
        lookup_spec(new, key, location) == Ok::<JsonV, Seq<char>>(JsonV::Str(value)),
{
    match key_kind(key) {
        KeyKind::Profile(name, field) => {
            lemma_ensure_profile(old.profiles, name);
            let p1 = ensure_profile(old.profiles, name);
            let i = profile_index(p1, name)->0;
            if let Ok(e2) = apply_field(p1[i].1, field, value) {
                let q = p1.update(i, (name, e2));
                assert(names_distinct(q));
                lemma_index_of_distinct(q, name, i);
            }
        },
        _ => {},
    }
}

/// A failed write of a profile field leaves every existing profile as it was
/// (a missing profile may have been created with defaults); a failed write of
/// any other key changes nothing.
pub proof fn failed_set_keeps_profiles(
    old: ConfigV,
    key: Seq<char>,
    value: Seq<char>,
    new: ConfigV,
    r: Result<(), Error>,
)
    requires
        names_distinct(old.profiles),
        assign_spec(old, key, value, new, r),
        r is Err,
    ensures
        new.default_profile == old.default_profile,
        new.profiles.len() >= old.profiles.len(),
        forall|k: int| 0 <= k < old.profiles.len() ==> new.profiles[k] == old.profiles[k],
{
}


/// The values of the environment variables the directory layout depends on.
#[derive(Debug)]
pub struct DirEnv {
    pub xdg_config_home: Option<String>,
    pub xdg_data_home: Option<String>,
    pub xdg_cache_home: Option<String>,
    pub home: Option<String>,
}

/// The keyring service name credentials are stored under.
pub open spec fn keyring_service() -> Seq<char> {
    "sh.keygen.cli"@
}

/// The members of a list of `(key, value)` pairs.
pub open spec fn members_view(m: Seq<(String, Json)>) -> Seq<(Seq<char>, JsonV)> {
    Seq::new(m.len(), |i: int| (m[i].0@, m[i].1@))
}

/// A member present only when the value is.
pub open spec fn opt_member(key: Seq<char>, v: Option<JsonV>) -> Seq<(Seq<char>, JsonV)> {
    match v {
        Some(x) => seq![(key, x)],
        None => seq![],
    }
}

/// An optional text as an optional JSON string.
pub open spec fn opt_text(s: Option<Seq<char>>) -> Option<JsonV> {
    match s {
        Some(t) => Some(JsonV::Str(t)),
        None => None,
    }
}

/// The stored form of a profile entry: absent optional fields are left out.
pub open spec fn entry_members(e: ProfileEntryV) -> Seq<(Seq<char>, JsonV)> {
    seq![("deployment"@, JsonV::Str(deployment_text(e.deployment))), ("host"@, JsonV::Str(e.host))]
        + opt_member("account"@, opt_text(e.account)) + opt_member("env"@, opt_text(e.env))
        + opt_member(
        "mode"@,
        match e.mode {
            Some(m) => Some(JsonV::Str(mode_text(m))),
            None => None,
        },
    ) + opt_member("output"@, opt_text(e.output)) + opt_member(
        "default_layout"@,
        match e.default_layout {
            Some(l) => Some(JsonV::Str(layout_text(l))),
            None => None,
        },
    )
}

/// The whole configuration as JSON, as `keygen config list` shows it.
pub open spec fn config_json(c: ConfigV) -> JsonV {
    JsonV::Object(
        opt_member("default_profile"@, opt_text(c.default_profile)) + seq![
            (
                "profiles"@,
                JsonV::Object(
                    Seq::new(
                        c.profiles.len(),
                        |i: int| (c.profiles[i].0, JsonV::Object(entry_members(c.profiles[i].1))),
                    ),
                ),
            ),
        ],
    )
}

/// The `{ key, value }` answer of `config get` and `config set`.
pub open spec fn key_value_json(key: Seq<char>, value: JsonV) -> JsonV {
    JsonV::Object(seq![("key"@, JsonV::Str(key)), ("value"@, value)])
}

/// The answer of `config path`.
pub open spec fn paths_json(config: Seq<char>, data: Seq<char>, cache: Seq<char>) -> JsonV {
    JsonV::Object(
        seq![
            ("config"@, JsonV::Str(config)),
            ("data"@, JsonV::Str(data)),
            ("cache"@, JsonV::Str(cache)),
            ("keyring_service"@, JsonV::Str(keyring_service())),
        ],
    )
}

/// Where the configuration file lives, as named in messages: its path, or
/// `config` when the directory cannot be determined.
pub open spec fn location_spec(env: DirEnv) -> Seq<char> {
    match xdg_spec(opt_view(env.xdg_config_home), opt_view(env.home), ".config"@) {
        Some(d) => path_join(d, "config.toml"@),
        None => "config"@,
    }
}

/// The result of a configuration command without its payload.
pub open spec fn outcome(r: Result<Payload, Error>) -> Result<(), Error> {
    match r {
        Ok(_) => Ok(()),
        Err(e) => Err(e),
    }
}

fn opt_text_json(s: &Option<String>) -> (r: Option<Json>)
    ensures
        match r {
            Some(j) => opt_text(opt_view(*s)) == Some(j@),
            None => opt_text(opt_view(*s)) is None,
        },
{
    match s {
        Some(v) => Some(Json::string(v.as_str())),
        None => None,
    }
}

fn push_member(m: &mut Vec<(String, Json)>, key: &str, v: Option<Json>)
    ensures
        members_view(final(m)@) == members_view(old(m)@) + opt_member(
            key@,
            match v {
                Some(j) => Some(j@),
                None => None,
            },
        ),
{
    let ghost before = members_view(m@);
    match v {
        Some(j) => {
            m.push((String::from_str(key), j));
            assert(members_view(m@) =~= before + seq![(key@, m@[m@.len() - 1].1@)]);
        },
        None => {
            assert(members_view(m@) =~= before + seq![]);
        },
    }
}

fn entry_json(e: &ProfileEntry) -> (r: Json)
    ensures
        r@ == JsonV::Object(entry_members(e@)),
{
    let mut m: Vec<(String, Json)> = Vec::new();
    push_member(&mut m, "deployment", Some(deployment_json(e.deployment)));
    push_member(&mut m, "host", Some(Json::string(e.host.as_str())));
    push_member(&mut m, "account", opt_text_json(&e.account));
    push_member(&mut m, "env", opt_text_json(&e.env));
    let mode = match e.mode {
        Some(AccountMode::Singleplayer) => Some(Json::string("singleplayer")),
        Some(AccountMode::Multiplayer) => Some(Json::string("multiplayer")),
        None => None,
    };
    push_member(&mut m, "mode", mode);
    push_member(&mut m, "output", opt_text_json(&e.output));
    let layout = match e.default_layout {
        Some(DefaultLayout::Table) => Some(Json::string("table")),
        Some(DefaultLayout::Cards) => Some(Json::string("cards")),
        None => None,
    };
    push_member(&mut m, "default_layout", layout);
    let ghost mv = members_view(m@);
    let r = crate::json::object(m);
    assert(mv =~= entry_members(e@));
    r
}

/// The whole configuration as JSON.
pub fn config_to_json(cfg: &ConfigFile) -> (r: Json)
    ensures
        r@ == config_json(cfg@),
{
    let mut profiles: Vec<(String, Json)> = Vec::new();
    let n = cfg.profiles.len();
    let mut i: usize = 0;
    while i < n
        invariant
            n == cfg.profiles@.len(),
            i <= n,
            profiles@.len() == i,
            forall|k: int|
                0 <= k < i ==> #[trigger] members_view(profiles@)[k] == (
                    cfg@.profiles[k].0,
                    JsonV::Object(entry_members(cfg@.profiles[k].1)),
                ),
        decreases n - i,
    {
        let name = copy_str(&cfg.profiles[i].0);
        let entry = entry_json(&cfg.profiles[i].1);
        let ghost before = profiles@;
        profiles.push((name, entry));
        proof {
            assert forall|k: int| 0 <= k <= i implies #[trigger] members_view(profiles@)[k] == (
                cfg@.profiles[k].0,
                JsonV::Object(entry_members(cfg@.profiles[k].1)),
            ) by {
                if k < i {
                    assert(profiles@[k] == before[k]);
                    assert(members_view(before)[k] == members_view(profiles@)[k]);
                }
            }
        }
        i = i + 1;
    }
    let ghost pv = members_view(profiles@);
    let inner = crate::json::object(profiles);
    assert(pv =~= Seq::new(
        cfg@.profiles.len(),
        |k: int| (cfg@.profiles[k].0, JsonV::Object(entry_members(cfg@.profiles[k].1))),
    ));
    let mut top: Vec<(String, Json)> = Vec::new();
    push_member(&mut top, "default_profile", opt_text_json(&cfg.default_profile));
    push_member(&mut top, "profiles", Some(inner));
    let ghost tv = members_view(top@);
    let r = crate::json::object(top);
    assert(tv =~= config_json(cfg@)->Object_0);
    r
}

/// The answer of `config path`.
pub fn paths_document(config: &str, data: &str, cache: &str) -> (r: Json)
    ensures
        r@ == paths_json(config@, data@, cache@),
{
    let m: Vec<(String, Json)> = vec![
        (String::from_str("config"), Json::string(config)),
        (String::from_str("data"), Json::string(data)),
        (String::from_str("cache"), Json::string(cache)),
        (String::from_str("keyring_service"), Json::string("sh.keygen.cli")),
    ];
    let ghost mv = members_view(m@);
    let r = crate::json::object(m);
    assert(mv =~= paths_json(config@, data@, cache@)->Object_0);
    r
}

fn key_value(key: &str, value: Json) -> (r: Json)
    ensures
        r@ == key_value_json(key@, value@),
{
    crate::json::obj2("key", Json::string(key), "value", value)
}

/// What a configuration command shows. `cfg` is the loaded configuration;
/// `config set` updates it in place, and the caller writes it back to disk
/// when the command succeeded.
pub fn dispatch(cmd: &ConfigCmd, cfg: &mut ConfigFile, env: &DirEnv) -> (r: Result<Payload, Error>)
    requires
        old(cfg).wf(),
    ensures
        final(cfg).wf(),
        match *cmd {
            ConfigCmd::Path => {
                &&& final(cfg)@ == old(cfg)@
                &&& match (
                    xdg_spec(opt_view(env.xdg_config_home), opt_view(env.home), ".config"@),
                    xdg_spec(opt_view(env.xdg_data_home), opt_view(env.home), ".local/share"@),
                    xdg_spec(opt_view(env.xdg_cache_home), opt_view(env.home), ".cache"@),
                ) {
                    (Some(c), Some(d), Some(k)) => r matches Ok(Payload::Bag(j)) && j@ == paths_json(
                        path_join(c, "config.toml"@),
                        d,
                        k,
                    ),
                    _ => r matches Err(Error::Config(m)) && m@ == "HOME env var not set"@,
                }
            },
            ConfigCmd::List => final(cfg)@ == old(cfg)@ && (r matches Ok(Payload::Bag(j)) && j@
                == config_json(old(cfg)@)),
            ConfigCmd::Get { key } => {
                &&& final(cfg)@ == old(cfg)@
                &&& match lookup_spec(old(cfg)@, key@, location_spec(*env)) {
                    Ok(v) => r matches Ok(Payload::Bag(j)) && j@ == key_value_json(key@, v),
                    Err(msg) => r matches Err(Error::User(m)) && m@ == msg,
                }
            },
            ConfigCmd::SetValue { key, value } => {
                &&& assign_spec(old(cfg)@, key@, value@, final(cfg)@, outcome(r))
                &&& r matches Ok(p) ==> (p matches Payload::Bag(j) && j@ == key_value_json(
                    key@,
                    JsonV::Str(value@),
                ))
            },
        },
{
    match cmd {
        ConfigCmd::Path => {
            let config = match crate::config::file::config_path(
                crate::text::copy_opt(&env.xdg_config_home),
                crate::text::copy_opt(&env.home),
            ) {
                Ok(p) => p,
                Err(e) => return Err(e),
            };
            let data = match crate::config::file::data_dir(
                crate::text::copy_opt(&env.xdg_data_home),
                crate::text::copy_opt(&env.home),
            ) {
                Ok(p) => p,
                Err(e) => return Err(e),
            };
            let cache = match crate::config::file::cache_dir(
                crate::text::copy_opt(&env.xdg_cache_home),
                crate::text::copy_opt(&env.home),
            ) {
                Ok(p) => p,
                Err(e) => return Err(e),
            };
            Ok(Payload::Bag(paths_document(config.as_str(), data.as_str(), cache.as_str())))
        },
        ConfigCmd::List => Ok(Payload::Bag(config_to_json(cfg))),
        ConfigCmd::Get { key } => {
            let location = match crate::config::file::config_path(
                crate::text::copy_opt(&env.xdg_config_home),
                crate::text::copy_opt(&env.home),
            ) {
                Ok(p) => p,
                Err(_) => String::from_str("config"),
            };
            match lookup(cfg, key.as_str(), location.as_str()) {
                Ok(v) => Ok(Payload::Bag(key_value(key.as_str(), v))),
                Err(e) => Err(e),
            }
        },
        ConfigCmd::SetValue { key, value } => match assign(cfg, key.as_str(), value.as_str()) {
            Ok(()) => Ok(Payload::Bag(key_value(key.as_str(), Json::string(value.as_str())))),
            Err(e) => Err(e),
        },
    }
}

} // verus!
