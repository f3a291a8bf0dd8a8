use keygen_cli::api::client::api_base_url;
use keygen_cli::cli::context::{errors_as_json, Context, Mode};
use keygen_cli::cli::globals::{GlobalArgs, OutputFormat};
use keygen_cli::config::commands::assign;
use keygen_cli::config::file::ConfigFile;
use keygen_cli::config::profile::{AccountMode, Deployment, Profile};
use keygen_cli::output::OutputFormat as OutMode;
use keygen_cli::Error;

fn globals() -> GlobalArgs {
    GlobalArgs {
        profile: None,
        host: None,
        account: None,
        token: None,
        env: None,
        output: None,
        no_color: false,
        quiet: false,
        verbose: 0,
        ai: false,
        human: false,
        dry_run: false,
        idempotency_key: None,
        timeout: 30,
        retry: 2,
    }
}

#[test]
fn official_profile_by_default() {
    let cfg = ConfigFile::empty();
    let p = Profile::resolve(&globals(), &cfg).expect("default profile resolves");
    assert_eq!(p.name, "default");
    assert_eq!(p.deployment, Deployment::Official);
    assert_eq!(p.mode, AccountMode::Multiplayer);
    assert_eq!(p.host.host.as_deref(), Some("api.keygen.sh"));
    assert!(p.account.is_none());
}

#[test]
fn flags_win_over_profile_entries() {
    let mut cfg = ConfigFile::empty();
    assign(&mut cfg, "profiles.work.host", "https://keygen.example.com").unwrap();
    assign(&mut cfg, "profiles.work.account", "acme").unwrap();
    assign(&mut cfg, "profiles.work.deployment", "ee").unwrap();
    assign(&mut cfg, "default_profile", "work").unwrap();
    let mut g = globals();
    g.account = Some("other".to_string());
    let p = Profile::resolve(&g, &cfg).unwrap();
    assert_eq!(p.name, "work");
    assert_eq!(p.deployment, Deployment::Ee);
    assert_eq!(p.account.as_deref(), Some("other"));
    assert_eq!(p.host.host.as_deref(), Some("keygen.example.com"));
    assert_eq!(p.mode, AccountMode::Singleplayer);
}

#[test]
fn unknown_host_without_profile_is_ce() {
    let cfg = ConfigFile::empty();
    let mut g = globals();
    g.host = Some("http://localhost:3000".to_string());
    let p = Profile::resolve(&g, &cfg).unwrap();
    assert_eq!(p.deployment, Deployment::Ce);
    assert_eq!(p.mode, AccountMode::Singleplayer);
}

#[test]
fn invalid_host_is_a_config_error() {
    let cfg = ConfigFile::empty();
    let mut g = globals();
    g.host = Some("not a url".to_string());
    match Profile::resolve(&g, &cfg) {
        Err(Error::Config(m)) => assert!(m.starts_with("invalid host not a url: "), "{m}"),
        other => panic!("expected a config error, got {other:?}"),
    }
}

#[test]
fn context_format_follows_mode_unless_given() {
    let cfg = ConfigFile::empty();
    let ctx = Context::from_globals(&globals(), &cfg).unwrap();
    assert_eq!(ctx.mode(), Mode::Human);
    assert_eq!(ctx.format(), OutMode::Table);
    let mut g = globals();
    g.ai = true;
    let ctx = Context::from_globals(&g, &cfg).unwrap();
    assert_eq!(ctx.mode(), Mode::Ai);
    assert_eq!(ctx.format(), OutMode::Json);
    g.output = Some(OutputFormat::Yaml);
    let ctx = Context::from_globals(&g, &cfg).unwrap();
    assert_eq!(ctx.format(), OutMode::Yaml);
    assert_eq!(ctx.inner.timeout_secs, 30);
}

#[test]
fn official_base_url_is_account_scoped() {
    let cfg = ConfigFile::empty();
    let mut g = globals();
    g.account = Some("acme".to_string());
    assert_eq!(
        api_base_url(&g, &cfg).unwrap(),
        "https://api.keygen.sh/v1/accounts/acme"
    );
}

#[test]
fn official_base_url_needs_an_account() {
    let cfg = ConfigFile::empty();
    match api_base_url(&globals(), &cfg) {
        Err(Error::Config(m)) => assert_eq!(
            m,
            "multiplayer/Official deployment requires --account or KEYGEN_ACCOUNT"
        ),
        other => panic!("expected a config error, got {other:?}"),
    }
}

#[test]
fn singleplayer_base_url_is_v1() {
    let cfg = ConfigFile::empty();
    let mut g = globals();
    g.host = Some("https://keygen.example.com/".to_string());
    assert_eq!(api_base_url(&g, &cfg).unwrap(), "https://keygen.example.com/v1");
}

#[test]
fn errors_follow_the_json_choice() {
    let mut g = globals();
    assert!(!errors_as_json(&g));
    g.ai = true;
    assert!(errors_as_json(&g));
    g.output = Some(OutputFormat::Table);
    assert!(!errors_as_json(&g));
    g.ai = false;
    g.output = Some(OutputFormat::Json);
    assert!(errors_as_json(&g));
}

#[test]
fn missing_profile_falls_back_to_default_profile() {
    let mut cfg = ConfigFile::empty();
    assign(&mut cfg, "profiles.main.host", "https://keygen.example.com").unwrap();
    assign(&mut cfg, "profiles.main.deployment", "ee").unwrap();
    assign(&mut cfg, "profiles.main.account", "acme").unwrap();
    assign(&mut cfg, "default_profile", "main").unwrap();
    let mut g = globals();
    g.profile = Some("work".to_string());
    let p = Profile::resolve(&g, &cfg).unwrap();
    assert_eq!(p.name, "work");
    assert_eq!(p.host.text, "https://keygen.example.com/");
    assert_eq!(p.deployment, Deployment::Ee);
    assert_eq!(p.account.as_deref(), Some("acme"));
}

#[test]
fn named_profile_borrows_missing_fields_from_default_profile() {
    let mut cfg = ConfigFile::empty();
    assign(&mut cfg, "profiles.main.account", "acme").unwrap();
    assign(&mut cfg, "profiles.main.env", "env_main").unwrap();
    assign(&mut cfg, "profiles.main.mode", "singleplayer").unwrap();
    assign(&mut cfg, "profiles.work.host", "https://work.example.com").unwrap();
    assign(&mut cfg, "profiles.work.env", "env_work").unwrap();
    assign(&mut cfg, "default_profile", "main").unwrap();
    let mut g = globals();
    g.profile = Some("work".to_string());
    let p = Profile::resolve(&g, &cfg).unwrap();
    assert_eq!(p.host.host.as_deref(), Some("work.example.com"));
    assert_eq!(p.account.as_deref(), Some("acme"));
    assert_eq!(p.env.as_deref(), Some("env_work"));
    assert_eq!(p.mode, AccountMode::Singleplayer);
}
