use keygen_cli::config::commands::{assign, dispatch, lookup, ConfigCmd, DirEnv};
use keygen_cli::cli::context::LayoutMode;
use keygen_cli::config::file::{cache_dir, config_dir, config_path, data_dir, ConfigFile, DefaultLayout};
use keygen_cli::json::Json;
use keygen_cli::output::dispatch::Payload;
use keygen_cli::Error;

fn user_msg(r: Result<(), Error>) -> String {
    match r {
        Err(Error::User(m)) => m,
        other => panic!("expected a user error, got {other:?}"),
    }
}

fn env() -> DirEnv {
    DirEnv {
        xdg_config_home: None,
        xdg_data_home: Some("/xdg/data".to_string()),
        xdg_cache_home: Some("relative/cache".to_string()),
        home: Some("/home/ana".to_string()),
    }
}

fn member<'a>(j: &'a Json, key: &str) -> &'a Json {
    j.get(key).unwrap_or_else(|| panic!("missing member {key}"))
}

#[test]
fn set_then_get_returns_value() {
    let mut cfg = ConfigFile::empty();
    assign(&mut cfg, "profiles.work.host", "https://keygen.example.com").unwrap();
    let v = lookup(&cfg, "profiles.work.host", "config").unwrap();
    assert_eq!(v.as_str(), Some("https://keygen.example.com"));
    assign(&mut cfg, "default_profile", "work").unwrap();
    assert_eq!(lookup(&cfg, "default_profile", "config").unwrap().as_str(), Some("work"));
}

#[test]
fn new_profile_gets_defaults() {
    let mut cfg = ConfigFile::empty();
    assign(&mut cfg, "profiles.p.account", "acme").unwrap();
    assert_eq!(cfg.profiles.len(), 1);
    assert_eq!(lookup(&cfg, "profiles.p.host", "config").unwrap().as_str(), Some("https://api.keygen.sh"));
    assert_eq!(lookup(&cfg, "profiles.p.deployment", "config").unwrap().as_str(), Some("official"));
    assert!(matches!(lookup(&cfg, "profiles.p.env", "config").unwrap(), Json::Null));
    assign(&mut cfg, "profiles.p.env", "prod").unwrap();
    assert_eq!(cfg.profiles.len(), 1);
}

#[test]
fn deployment_and_mode_are_checked() {
    let mut cfg = ConfigFile::empty();
    assert_eq!(
        user_msg(assign(&mut cfg, "profiles.p.deployment", "cloud")),
        "deployment must be one of official|ce|ee, got `cloud`"
    );
    assert_eq!(
        user_msg(assign(&mut cfg, "profiles.p.mode", "solo")),
        "mode must be singleplayer|multiplayer, got `solo`"
    );
    assign(&mut cfg, "profiles.p.mode", "singleplayer").unwrap();
    assert_eq!(lookup(&cfg, "profiles.p.mode", "config").unwrap().as_str(), Some("singleplayer"));
}

#[test]
fn malformed_and_unknown_keys() {
    let mut cfg = ConfigFile::empty();
    assert_eq!(
        user_msg(assign(&mut cfg, "profiles.work", "x")),
        "expected profiles.<name>.<field>, got `profiles.work`"
    );
    assert_eq!(user_msg(assign(&mut cfg, "colour", "x")), "unknown config key `colour`");
    assert_eq!(
        user_msg(assign(&mut cfg, "profiles.work.colour", "x")),
        "unknown profile field `colour`"
    );
    match lookup(&cfg, "profiles.ghost.host", "/etc/keygen/config.toml") {
        Err(Error::User(m)) => {
            assert_eq!(m, "profile `ghost` not found in /etc/keygen/config.toml")
        }
        other => panic!("expected a user error, got {other:?}"),
    }
}

#[test]
fn xdg_directories() {
    assert_eq!(
        config_dir(Some("/xdg/config".into()), Some("/home/ana".into())).unwrap(),
        "/xdg/config/keygen"
    );
    assert_eq!(
        config_dir(Some("relative".into()), Some("/home/ana".into())).unwrap(),
        "/home/ana/.config/keygen"
    );
    assert_eq!(cache_dir(None, Some("/home/ana/".into())).unwrap(), "/home/ana/.cache/keygen");
    assert_eq!(data_dir(None, Some("/home/ana".into())).unwrap(), "/home/ana/.local/share/keygen");
    assert_eq!(
        config_path(None, Some("/home/ana".into())).unwrap(),
        "/home/ana/.config/keygen/config.toml"
    );
    match config_dir(None, None) {
        Err(Error::Config(m)) => assert_eq!(m, "HOME env var not set"),
        other => panic!("expected a config error, got {other:?}"),
    }
}

#[test]
fn config_path_command_lists_paths() {
    let mut cfg = ConfigFile::empty();
    let r = dispatch(&ConfigCmd::Path, &mut cfg, &env()).unwrap();
    match r {
        Payload::Bag(j) => {
            assert_eq!(member(&j, "config").as_str(), Some("/home/ana/.config/keygen/config.toml"));
            assert_eq!(member(&j, "data").as_str(), Some("/xdg/data/keygen"));
            assert_eq!(member(&j, "cache").as_str(), Some("/home/ana/.cache/keygen"));
            assert_eq!(member(&j, "keyring_service").as_str(), Some("sh.keygen.cli"));
        }
        other => panic!("expected a bag, got {other:?}"),
    }
}

#[test]
fn config_set_and_get_commands() {
    let mut cfg = ConfigFile::empty();
    let set = ConfigCmd::SetValue { key: "profiles.w.env".into(), value: "env_1".into() };
    match dispatch(&set, &mut cfg, &env()).unwrap() {
        Payload::Bag(j) => {
            assert_eq!(member(&j, "key").as_str(), Some("profiles.w.env"));
            assert_eq!(member(&j, "value").as_str(), Some("env_1"));
        }
        other => panic!("expected a bag, got {other:?}"),
    }
    let get = ConfigCmd::Get { key: "profiles.w.env".into() };
    match dispatch(&get, &mut cfg, &env()).unwrap() {
        Payload::Bag(j) => assert_eq!(member(&j, "value").as_str(), Some("env_1")),
        other => panic!("expected a bag, got {other:?}"),
    }
    let missing = ConfigCmd::Get { key: "profiles.zz.env".into() };
    match dispatch(&missing, &mut cfg, &env()) {
        Err(Error::User(m)) => {
            assert_eq!(m, "profile `zz` not found in /home/ana/.config/keygen/config.toml")
        }
        other => panic!("expected a user error, got {other:?}"),
    }
}

#[test]
fn config_list_leaves_out_absent_fields() {
    let mut cfg = ConfigFile::empty();
    assign(&mut cfg, "profiles.w.account", "acme").unwrap();
    match dispatch(&ConfigCmd::List, &mut cfg, &env()).unwrap() {
        Payload::Bag(j) => {
            assert!(j.get("default_profile").is_none());
            let w = member(member(&j, "profiles"), "w");
            assert_eq!(member(w, "account").as_str(), Some("acme"));
            assert_eq!(member(w, "deployment").as_str(), Some("official"));
            assert!(w.get("env").is_none());
        }
        other => panic!("expected a bag, got {other:?}"),
    }
}

#[test]
fn stored_layout_selects_dashboard_layout() {
    assert_eq!(LayoutMode::from(DefaultLayout::Cards), LayoutMode::Cards);
    assert_eq!(LayoutMode::from(DefaultLayout::Table), LayoutMode::Table);
}

#[test]
fn every_successful_set_reads_back() {
    let mut cfg = ConfigFile::empty();
    for (k, v) in [
        ("default_profile", "main"),
        ("profiles.main.deployment", "ce"),
        ("profiles.main.host", "https://k.example.com"),
        ("profiles.main.account", "acme"),
        ("profiles.main.env", "e1"),
        ("profiles.main.mode", "multiplayer"),
        ("profiles.main.output", "json"),
    ] {
        assign(&mut cfg, k, v).unwrap();
        assert_eq!(lookup(&cfg, k, "config").unwrap().as_str(), Some(v));
    }
}
