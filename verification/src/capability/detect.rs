//! Capability detection and its on-disk cache.
//!
//! Probes the deployment and infers which optional features it exposes. The
//! result is cached for one day under a key `<host>|<account>|<profile>`, so
//! several profiles do not clobber each other.

use vstd::prelude::*;
use crate::capability::{all_caps, Capabilities};
use crate::config::file::{cache_dir, join_path, path_join, xdg_spec};
use crate::config::profile::{Deployment, Profile};
use crate::error::Error;
use crate::resources::common::{fetches, Call, Plan, Show};
use crate::text::{concat3, copy_str, opt_view, str_eq};

verus! {

/// How long a cached capability set stays fresh, in seconds (one day).
pub const TTL_SECS: u64 = 86400;

/// The cached form of a capability set.
#[derive(Debug, Clone, Copy, PartialEq, Eq, Structural)]
pub struct CapMap {
    pub environments: bool,
    pub event_logs: bool,
    pub request_logs: bool,
    pub sso: bool,
    pub oci_registry: bool,
    pub import_export: bool,
}

/// One cache entry: the profile key, when it was saved and what was found.
#[derive(Debug)]
pub struct CacheEntry {
    pub key: String,
    pub saved_at_secs: u64,
    pub capabilities: CapMap,
}

/// The capability set stored in a cache map.
pub open spec fn caps_of_map(m: CapMap) -> Capabilities {
    Capabilities {
        environments: m.environments,
        event_logs: m.event_logs,
        request_logs: m.request_logs,
        sso: m.sso,
        oci_registry: m.oci_registry,
        import_export: m.import_export,
    }
}

/// The cache map storing a capability set.
pub open spec fn map_of_caps(c: Capabilities) -> CapMap {
    CapMap {
        environments: c.environments,
        event_logs: c.event_logs,
        request_logs: c.request_logs,
        sso: c.sso,
        oci_registry: c.oci_registry,
        import_export: c.import_export,
    }
}

impl From<CapMap> for Capabilities {
    fn from(m: CapMap) -> (c: Capabilities) {
        Capabilities {
            environments: m.environments,
            event_logs: m.event_logs,
            request_logs: m.request_logs,
            sso: m.sso,
            oci_registry: m.oci_registry,
            import_export: m.import_export,
        }
    }
}

impl vstd::std_specs::convert::FromSpecImpl<CapMap> for Capabilities {
    open spec fn obeys_from_spec() -> bool {
        true
    }

    open spec fn from_spec(m: CapMap) -> Capabilities {
        caps_of_map(m)
    }
}

impl CapMap {
    /// The cache map storing a capability set.
    pub fn from_caps(c: &Capabilities) -> (m: CapMap)
        ensures
            m == map_of_caps(*c),
    {
        CapMap {
            environments: c.environments,
            event_logs: c.event_logs,
            request_logs: c.request_logs,
            sso: c.sso,
            oci_registry: c.oci_registry,
            import_export: c.import_export,
        }
    }
}

/// The cache key of a profile: `<host>|<account>|<profile>`.
pub open spec fn cache_key_spec(p: Profile) -> Seq<char> {
    p.host.text@ + "|"@ + match opt_view(p.account) {
        Some(a) => a,
        None => Seq::empty(),
    } + "|"@ + p.name@
}

/// The cache key of a profile: `<host>|<account>|<profile>`.
pub fn cache_key(profile: &Profile) -> (r: String)
    ensures
        r@ == cache_key_spec(*profile),
{
    let account: &str = match &profile.account {
        Some(a) => a.as_str(),
        None => "",
    };
    proof {
        reveal_strlit("");
    }
    let head = concat3(profile.host.text.as_str(), "|", account);
    concat3(head.as_str(), "|", profile.name.as_str())
}

/// Whether an entry belongs to `key` and is still fresh at `now`.
pub open spec fn fresh_for(e: CacheEntry, key: Seq<char>, now: u64) -> bool {
    e.key@ == key && (if now >= e.saved_at_secs { now - e.saved_at_secs } else { 0int }) < TTL_SECS
}

/// The first entry of `key` that is still fresh at `now`.
pub open spec fn fresh_index(entries: Seq<CacheEntry>, key: Seq<char>, now: u64) -> Option<int> {
    if exists|i: int| 0 <= i < entries.len() && fresh_for(entries[i], key, now) {
        Some(
            choose|i: int|
                0 <= i < entries.len() && fresh_for(entries[i], key, now) && forall|j: int|
                    0 <= j < i ==> !fresh_for(entries[j], key, now),
        )
    } else {
        None
    }
}

proof fn lemma_fresh_index_first(entries: Seq<CacheEntry>, key: Seq<char>, now: u64, k: int)
    requires
        0 <= k < entries.len(),
        fresh_for(entries[k], key, now),
        forall|j: int| 0 <= j < k ==> !fresh_for(entries[j], key, now),
    ensures
        fresh_index(entries, key, now) == Some(k),
{
    let i = choose|i: int|
        0 <= i < entries.len() && fresh_for(entries[i], key, now) && forall|j: int|
            0 <= j < i ==> !fresh_for(entries[j], key, now);
    assert(0 <= i < entries.len() && fresh_for(entries[i], key, now));
    if i < k {
        assert(!fresh_for(entries[i], key, now));
    } else if i > k {
        assert(!fresh_for(entries[k], key, now));
    }
}

/// The cached capabilities of `key` at `now`: those of the first entry of
/// that key saved less than a day before.
pub fn cached_capabilities(entries: &Vec<CacheEntry>, key: &str, now: u64) -> (r: Option<
    Capabilities,
>)
    ensures
        match fresh_index(entries@, key@, now) {
            Some(i) => r == Some(caps_of_map(entries@[i].capabilities)),
            None => r is None,
        },
{
    let n = entries.len();
    let mut i: usize = 0;
    while i < n
        invariant
            n == entries@.len(),
            i <= n,
            forall|j: int| 0 <= j < i ==> !fresh_for(entries@[j], key@, now),
        decreases n - i,
    {
        let e = &entries[i];
        let age = now.saturating_sub(e.saved_at_secs);
        if str_eq(e.key.as_str(), key) && age < TTL_SECS {
            proof {
                lemma_fresh_index_first(entries@, key@, now, i as int);
            }
            return Some(Capabilities::from(e.capabilities));
        }
        i = i + 1;
    }
    None
}

/// The entries of other keys, in order.
pub open spec fn others(entries: Seq<CacheEntry>, key: Seq<char>) -> Seq<CacheEntry> {
    entries.filter(other_key(key))
}

/// Whether an entry belongs to a key other than `key`.
pub open spec fn other_key(key: Seq<char>) -> spec_fn(CacheEntry) -> bool {
    |e: CacheEntry| e.key@ != key
}

/// Replace the entry of `key` by a fresh one saved at `now`: every entry of
/// that key is dropped, the others keep their order, and the new entry goes
/// last.
pub fn upsert_entry(entries: &mut Vec<CacheEntry>, key: &str, now: u64, caps: &Capabilities)
    ensures
        final(entries)@.len() == others(old(entries)@, key@).len() + 1,
        final(entries)@.drop_last() == others(old(entries)@, key@),
        final(entries)@.last().key@ == key@,
        final(entries)@.last().saved_at_secs == now,
        final(entries)@.last().capabilities == map_of_caps(*caps),
{
    let ghost old_entries = entries@;
    let mut kept: Vec<CacheEntry> = Vec::new();
    let n = entries.len();
    let mut i: usize = 0;
    assert(old_entries.take(0).filter(other_key(key@)) =~= Seq::<CacheEntry>::empty()) by {
        reveal(Seq::filter);
    }
    assert(old_entries.skip(0) =~= old_entries);
    while i < n
        invariant
            n == old_entries.len(),
            i <= n,
            entries@ == old_entries.skip(i as int),
            kept@ == others(old_entries.take(i as int), key@),
        decreases n - i,
    {
        let e = entries.remove(0);
        proof {
            assert(e == old_entries[i as int]);
            assert(entries@ =~= old_entries.skip(i + 1));
            assert(old_entries.take(i + 1) =~= old_entries.take(i as int).push(e));
            old_entries.take(i as int).lemma_filter_push(e, other_key(key@));
        }
        if !str_eq(e.key.as_str(), key) {
            kept.push(e);
        }
        i = i + 1;
    }
    assert(old_entries.take(n as int) =~= old_entries);
    let fresh = CacheEntry { key: String::from_str(key), saved_at_secs: now, capabilities: CapMap::from_caps(caps) };
    kept.push(fresh);
    assert(kept@.drop_last() =~= others(old_entries, key@));
    *entries = kept;
}

/// After saving capabilities for `key` at `saved`, reading the cache at any
/// time less than a day later gives them back.
pub proof fn save_then_load(
    before: Seq<CacheEntry>,
    after: Seq<CacheEntry>,
    key: Seq<char>,
    saved: u64,
    caps: Capabilities,
    now: u64,
)
    requires
        after.len() == others(before, key).len() + 1,
        after.drop_last() == others(before, key),
        after.last().key@ == key,
        after.last().saved_at_secs == saved,
        after.last().capabilities == map_of_caps(caps),
        saved <= now,
        now - saved < TTL_SECS,
    ensures
        fresh_index(after, key, now) == Some(after.len() - 1),
        caps_of_map(after[after.len() - 1].capabilities) == caps,
{
    let k = after.len() - 1;
    assert forall|j: int| 0 <= j < k implies !fresh_for(after[j], key, now) by {
        assert(after[j] == others(before, key)[j]);
        before.lemma_filter_pred(other_key(key), j);
    }
    lemma_fresh_index_first(after, key, now, k);
}

/// Saving the entry of one key keeps every entry of the other keys, in order.
pub proof fn save_keeps_other_keys(before: Seq<CacheEntry>, after: Seq<CacheEntry>, key: Seq<char>, i: int)
    requires
        after.drop_last() == others(before, key),
        after.len() == others(before, key).len() + 1,
        0 <= i < before.len(),
        before[i].key@ != key,
    ensures
        after.drop_last().contains(before[i]),
{
    before.lemma_filter_contains(other_key(key), i);
}

/// Where the capability cache lives: `capabilities.json` in the cache
/// directory (`$XDG_CACHE_HOME/keygen`, else `~/.cache/keygen`).
pub fn cache_path(xdg_cache_home: Option<String>, home: Option<String>) -> (r: Result<String, Error>)
    ensures
        match r {
            Ok(p) => xdg_spec(opt_view(xdg_cache_home), opt_view(home), ".cache"@) matches Some(d)
                && p@ == path_join(d, "capabilities.json"@),
            Err(e) => xdg_spec(opt_view(xdg_cache_home), opt_view(home), ".cache"@) is None
                && (e matches Error::Config(m) && m@ == "HOME env var not set"@),
        },
{
    let dir = cache_dir(xdg_cache_home, home)?;
    Ok(join_path(dir.as_str(), "capabilities.json"))
}

/// The capabilities a deployment kind is assumed to have before probing:
/// everything on Official and EE, nothing on CE.
pub open spec fn default_for_spec(d: Deployment) -> Capabilities {
    match d {
        Deployment::Official | Deployment::Ee => all_caps(true),
        Deployment::Ce => all_caps(false),
    }
}

/// The capabilities a deployment kind is assumed to have before probing.
pub fn default_for(d: Deployment) -> (c: Capabilities)
    ensures
        c == default_for_spec(d),
{
    match d {
        Deployment::Official | Deployment::Ee => Capabilities {
            environments: true,
            event_logs: true,
            request_logs: true,
            sso: true,
            oci_registry: true,
            import_export: true,
        },
        Deployment::Ce => Capabilities::default(),
    }
}

/// What a successful probe finds: the deployment default, with every feature
/// switched on when a self-hosted deployment answered the environments probe
/// (that makes it EE).
pub open spec fn probe_spec(d: Deployment, environments_answered: bool) -> Capabilities {
    if d != Deployment::Official && environments_answered {
        all_caps(true)
    } else {
        default_for_spec(d)
    }
}

/// The first probe request: the token's profile, which every reachable
/// deployment answers.
pub fn profile_plan() -> (p: Plan)
    ensures
        fetches(p.call, "/profile"@),
        p.show is ResponseSingle,
{
    Plan { call: Call::Fetch { path: String::from_str("/profile") }, show: Show::ResponseSingle }
}

/// What a successful probe finds, given whether the environments endpoint
/// answered.
pub fn probe_outcome(d: Deployment, environments_answered: bool) -> (c: Capabilities)
    ensures
        c == probe_spec(d, environments_answered),
{
    let mut caps = default_for(d);
    if d != Deployment::Official {
        if environments_answered {
            caps.environments = true;
            caps.event_logs = true;
            caps.request_logs = true;
            caps.sso = true;
            caps.oci_registry = true;
            caps.import_export = true;
        }
    }
    caps
}

/// The capabilities to use after probing: the probe's result, or the
/// deployment default when probing failed.
pub fn after_probe(d: Deployment, probe: Result<Capabilities, Error>) -> (c: Capabilities)
    ensures
        c == match probe {
            Ok(p) => p,
            Err(_) => default_for_spec(d),
        },
{
    match probe {
        Ok(p) => p,
        Err(_) => default_for(d),
    }
}

/// What `resolve` does next, given the cache lookup.
#[derive(Debug)]
pub enum ResolveStep {
    /// A fresh cached set: use it.
    Cached(Capabilities),
    /// Nothing fresh: probe, then save the outcome.
    Probe,
}

/// Prefer the cache; probe only when it has nothing fresh.
pub fn resolve_step(cached: Option<Capabilities>) -> (s: ResolveStep)
    ensures
        match cached {
            Some(c) => s == ResolveStep::Cached(c),
            None => s is Probe,
        },
{
    match cached {
        Some(c) => ResolveStep::Cached(c),
        None => ResolveStep::Probe,
    }
}

} // verus!
