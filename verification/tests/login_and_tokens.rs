use keygen_cli::api::auth::{bearer, license};
use keygen_cli::api::error::ErrorDoc;
use keygen_cli::auth::login::{
    basic_credentials, default_host, deployment_choices, deployment_from_choice, login_mode,
    needs_account, starting_cursor, token_from_response, tokens_url,
};
use keygen_cli::auth::store::{delete_outcome, init_failed, load_outcome, save_outcome, KeyringFailure};
use keygen_cli::auth::token::TokenKind;
use keygen_cli::config::profile::{AccountMode, Deployment};
use keygen_cli::json::{obj1, Json};
use keygen_cli::Error;

#[test]
fn deployment_choice_round_trip() {
    let choices = deployment_choices();
    assert_eq!(choices, vec!["keygen.sh Official", "Self-hosted CE", "Self-hosted EE"]);
    for d in [Deployment::Official, Deployment::Ce, Deployment::Ee] {
        assert_eq!(deployment_from_choice(choices[starting_cursor(d)]), d);
    }
    assert_eq!(default_host(Deployment::Official, "https://x"), "https://api.keygen.sh");
    assert_eq!(default_host(Deployment::Ce, "https://x"), "https://x");
    assert!(needs_account(Deployment::Official, false));
    assert!(!needs_account(Deployment::Ce, false));
    assert!(needs_account(Deployment::Ce, true));
    assert_eq!(login_mode(true), AccountMode::Multiplayer);
    assert_eq!(login_mode(false), AccountMode::Singleplayer);
}

#[test]
fn tokens_url_by_mode() {
    assert_eq!(
        tokens_url("https://api.keygen.sh", AccountMode::Multiplayer, Some("acme")).unwrap(),
        "https://api.keygen.sh/v1/accounts/acme/tokens"
    );
    assert_eq!(
        tokens_url("https://keygen.example.com/", AccountMode::Singleplayer, None).unwrap(),
        "https://keygen.example.com/v1/tokens"
    );
    match tokens_url("https://api.keygen.sh", AccountMode::Multiplayer, None) {
        Err(Error::Config(m)) => assert_eq!(m, "multiplayer login requires an account"),
        other => panic!("expected a config error, got {other:?}"),
    }
    match tokens_url("::", AccountMode::Singleplayer, None) {
        Err(Error::Config(m)) => assert!(m.starts_with("invalid host: "), "{m}"),
        other => panic!("expected a config error, got {other:?}"),
    }
    match tokens_url("mailto:ana@example.com", AccountMode::Singleplayer, None) {
        Err(Error::Config(m)) => assert_eq!(m, "host cannot be a base"),
        other => panic!("expected a config error, got {other:?}"),
    }
}

#[test]
fn basic_credentials_are_base64() {
    assert_eq!(basic_credentials("ana@example.com", "s3cret"), "Basic YW5hQGV4YW1wbGUuY29tOnMzY3JldA==");
    assert_eq!(basic_credentials("", ""), "Basic Og==");
}

#[test]
fn minted_token_is_read_from_the_answer() {
    let body = obj1("data", obj1("attributes", obj1("token", Json::string("tok_123"))));
    assert_eq!(token_from_response(201, None, Ok(body), None).unwrap(), "tok_123");
    let body = obj1("data", obj1("attributes", Json::Null));
    match token_from_response(200, None, Ok(body), None) {
        Err(Error::User(m)) => assert_eq!(m, "login response missing data.attributes.token"),
        other => panic!("expected a user error, got {other:?}"),
    }
    match token_from_response(200, None, Err("eof".into()), None) {
        Err(Error::Serde(m)) => assert_eq!(m, "eof"),
        other => panic!("expected a serde error, got {other:?}"),
    }
    match token_from_response(401, Some("rid".into()), Ok(Json::Null), Some(ErrorDoc { errors: vec![] })) {
        Err(Error::Api { status, title, request_id, .. }) => {
            assert_eq!(status, 401);
            assert_eq!(title, "HTTP 401");
            assert_eq!(request_id.as_deref(), Some("rid"));
        }
        other => panic!("expected an API error, got {other:?}"),
    }
}

#[test]
fn token_kinds() {
    assert_eq!(TokenKind::from_jsonapi_type("admin-tokens"), Some(TokenKind::Admin));
    assert_eq!(TokenKind::from_jsonapi_type("users"), Some(TokenKind::User));
    assert_eq!(TokenKind::from_jsonapi_type("activation-tokens"), Some(TokenKind::Activation));
    assert_eq!(TokenKind::from_jsonapi_type("machines"), None);
}

#[test]
fn authorization_headers() {
    let (name, value) = bearer("tok_1").expect("valid token");
    assert_eq!(name.as_str(), "authorization");
    assert_eq!(value.to_str().unwrap(), "Bearer tok_1");
    let (_, value) = license("KEY-1").expect("valid key");
    assert_eq!(value.to_str().unwrap(), "License KEY-1");
    assert!(bearer("bad\ntoken").is_none());
    assert!(license("del\u{7f}").is_none());
}

#[test]
fn keyring_outcomes() {
    match init_failed("locked") {
        Error::Auth(m) => assert_eq!(m, "keyring init: locked"),
        other => panic!("expected an auth error, got {other:?}"),
    }
    assert!(save_outcome(Ok(())).is_ok());
    match save_outcome(Err("denied".into())) {
        Err(Error::Auth(m)) => assert_eq!(m, "keyring write: denied"),
        other => panic!("expected an auth error, got {other:?}"),
    }
    assert_eq!(load_outcome(Ok("t".into())).unwrap(), Some("t".to_string()));
    assert_eq!(load_outcome(Err(KeyringFailure::NoEntry)).unwrap(), None);
    match load_outcome(Err(KeyringFailure::Other("io".into()))) {
        Err(Error::Auth(m)) => assert_eq!(m, "keyring read: io"),
        other => panic!("expected an auth error, got {other:?}"),
    }
    assert!(delete_outcome(Err(KeyringFailure::NoEntry)).is_ok());
    match delete_outcome(Err(KeyringFailure::Other("busy".into()))) {
        Err(Error::Auth(m)) => assert_eq!(m, "keyring delete: busy"),
        other => panic!("expected an auth error, got {other:?}"),
    }
}
