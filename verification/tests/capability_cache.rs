use keygen_cli::capability::detect::{
    after_probe, cache_path, cached_capabilities, default_for, probe_outcome, resolve_step, upsert_entry,
    CacheEntry, CapMap, ResolveStep, TTL_SECS,
};
use keygen_cli::capability::env_commands::{dispatch as env_dispatch, EnvAction, EnvCmd};
use keygen_cli::capability::Capabilities;
use keygen_cli::cli::context::Context;
use keygen_cli::cli::globals::GlobalArgs;
use keygen_cli::config::file::ConfigFile;
use keygen_cli::config::profile::Deployment;
use keygen_cli::json::Json;
use keygen_cli::output::dispatch::Payload;
use keygen_cli::Error;

fn all(on: bool) -> Capabilities {
    Capabilities {
        environments: on,
        event_logs: on,
        request_logs: on,
        sso: on,
        oci_registry: on,
        import_export: on,
    }
}

#[test]
fn defaults_per_deployment() {
    assert_eq!(default_for(Deployment::Official), all(true));
    assert_eq!(default_for(Deployment::Ee), all(true));
    assert_eq!(default_for(Deployment::Ce), all(false));
    assert_eq!(Capabilities::default(), all(false));
}

#[test]
fn probing_upgrades_answering_self_hosted() {
    assert_eq!(probe_outcome(Deployment::Ce, true), all(true));
    assert_eq!(probe_outcome(Deployment::Ce, false), all(false));
    assert_eq!(probe_outcome(Deployment::Official, false), all(true));
    assert_eq!(after_probe(Deployment::Ce, Err(Error::Network("down".into()))), all(false));
    assert_eq!(after_probe(Deployment::Ce, Ok(all(true))), all(true));
}

#[test]
fn save_then_load_within_a_day() {
    let mut entries: Vec<CacheEntry> = Vec::new();
    upsert_entry(&mut entries, "h|a|p", 1_000, &all(true));
    upsert_entry(&mut entries, "h|a|q", 1_000, &all(false));
    upsert_entry(&mut entries, "h|a|p", 2_000, &all(false));
    assert_eq!(entries.len(), 2);
    assert_eq!(entries[0].key, "h|a|q");
    assert_eq!(entries[1].key, "h|a|p");
    assert_eq!(cached_capabilities(&entries, "h|a|p", 2_000 + TTL_SECS - 1), Some(all(false)));
    assert_eq!(cached_capabilities(&entries, "h|a|p", 2_000 + TTL_SECS), None);
    assert_eq!(cached_capabilities(&entries, "other", 2_000), None);
    assert!(matches!(resolve_step(None), ResolveStep::Probe));
    assert!(matches!(resolve_step(Some(all(true))), ResolveStep::Cached(c) if c == all(true)));
}

#[test]
fn cache_maps_round_trip() {
    let m = CapMap::from_caps(&all(true));
    assert_eq!(Capabilities::from(m), all(true));
    let e = CacheEntry { key: "k".into(), saved_at_secs: 0, capabilities: m };
    assert_eq!(cached_capabilities(&vec![e], "k", 10), Some(all(true)));
}

#[test]
fn cache_file_location() {
    assert_eq!(
        cache_path(None, Some("/home/ana".into())).unwrap(),
        "/home/ana/.cache/keygen/capabilities.json"
    );
    assert_eq!(
        cache_path(Some("/var/cache".into()), None).unwrap(),
        "/var/cache/keygen/capabilities.json"
    );
}

fn ce_context() -> Context {
    let g = GlobalArgs {
        profile: None,
        host: Some("http://localhost:3000".into()),
        account: None,
        token: None,
        env: Some("env_9".into()),
        output: None,
        no_color: false,
        quiet: false,
        verbose: 0,
        ai: false,
        human: false,
        dry_run: false,
        idempotency_key: None,
        timeout: 30,
        retry: 0,
    };
    Context::from_globals(&g, &ConfigFile::empty()).unwrap()
}

#[test]
fn environments_need_ee_or_official() {
    let ctx = ce_context();
    match env_dispatch(&all(false), ctx.profile(), EnvCmd::List) {
        Err(Error::Capability(m)) => assert_eq!(m, "environments require keygen.sh Official or EE"),
        other => panic!("expected a capability error, got {other:?}"),
    }
    assert!(matches!(env_dispatch(&all(true), ctx.profile(), EnvCmd::List), Ok(EnvAction::FetchList)));
    match env_dispatch(&all(true), ctx.profile(), EnvCmd::Current) {
        Ok(EnvAction::Show(Payload::Bag(j))) => assert_eq!(j.get("env").and_then(Json::as_str), Some("env_9")),
        other => panic!("expected a bag, got {other:?}"),
    }
}
