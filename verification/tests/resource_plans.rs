use keygen_cli::capability::Capabilities;
use keygen_cli::cli::context::Context;
use keygen_cli::cli::globals::GlobalArgs;
use keygen_cli::cli::resources::ResourceCommand;
use keygen_cli::config::file::ConfigFile;
use keygen_cli::json::Json;
use keygen_cli::output::dispatch::Payload;
use keygen_cli::resources::common::{Call, DeleteArgs, ListArgs, Show};
use keygen_cli::resources::{dispatch, product, request_log, token, user, webhook};
use keygen_cli::Error;

fn list_args() -> ListArgs {
    ListArgs { filter: vec![], page: 1, limit: 25, sort: None, includes: vec![] }
}

fn context(host: &str) -> Context {
    let g = GlobalArgs {
        profile: None,
        host: Some(host.into()),
        account: None,
        token: None,
        env: None,
        output: None,
        no_color: false,
        quiet: false,
        verbose: 0,
        ai: false,
        human: false,
        dry_run: false,
        idempotency_key: None,
        timeout: 30,
        retry: 0,
    };
    Context::from_globals(&g, &ConfigFile::empty()).unwrap()
}

fn none() -> Capabilities {
    Capabilities::default()
}

#[test]
fn product_list_is_enveloped() {
    let plan = product::dispatch(product::Cmd::List(list_args())).unwrap();
    assert!(matches!(plan.call, Call::List { crud, .. } if crud.path == "/products"));
    assert!(matches!(plan.show, Show::ResponseEnvelope));
    let plan = product::dispatch(product::Cmd::Tokens { id: "p1".into() }).unwrap();
    assert!(matches!(plan.call, Call::Fetch { ref path } if path == "/products/p1/tokens"));
}

#[test]
fn user_actions_and_deletes() {
    let plan = user::dispatch(user::Cmd::Ban { id: "u1".into() }).unwrap();
    match plan.call {
        Call::Send { path, .. } => assert_eq!(path, "/users/u1/actions/ban"),
        other => panic!("expected a send, got {other:?}"),
    }
    let plan = user::dispatch(user::Cmd::Delete(DeleteArgs { id: "u2".into(), yes: true })).unwrap();
    match plan.show {
        Show::Fixed(Payload::Bag(j)) => assert_eq!(j.get("deleted").and_then(Json::as_str), Some("u2")),
        other => panic!("expected a fixed bag, got {other:?}"),
    }
    match user::dispatch(user::Cmd::UpdatePassword { id: "u3".into(), old_password: None, new_password: None }) {
        Err(Error::User(m)) => {
            assert_eq!(m, "--new-password is required (use a generator or pipe via stdin)")
        }
        other => panic!("expected a user error, got {other:?}"),
    }
}

#[test]
fn webhook_endpoint_test_posts_an_action() {
    let plan = webhook::dispatch(webhook::Cmd::Endpoint(webhook::EndpointCmd::Test { id: "w1".into() })).unwrap();
    match plan.call {
        Call::Send { path, .. } => assert!(path.starts_with("/webhook-endpoints/w1/"), "{path}"),
        other => panic!("expected a send, got {other:?}"),
    }
}

#[test]
fn request_logs_refused_on_plain_ce() {
    let ctx = context("http://localhost:3000");
    match request_log::dispatch(&none(), ctx.profile(), request_log::Cmd::List(list_args())) {
        Err(Error::Capability(m)) => assert_eq!(m, "request-logs require keygen.sh Official or EE"),
        other => panic!("expected a capability error, got {other:?}"),
    }
    let ctx = context("https://api.keygen.sh");
    assert!(request_log::dispatch(&none(), ctx.profile(), request_log::Cmd::List(list_args())).is_ok());
}

#[test]
fn routing_resource_commands() {
    let ctx = context("http://localhost:3000");
    match dispatch(&ctx, &none(), ResourceCommand::Token(token::Cmd::Regenerate { id: "t".into() })) {
        Err(Error::User(m)) => assert!(m.starts_with("token commands not yet implemented"), "{m}"),
        other => panic!("expected a user error, got {other:?}"),
    }
    let plan = dispatch(&ctx, &none(), ResourceCommand::Product(product::Cmd::List(list_args()))).unwrap();
    assert!(matches!(plan.show, Show::ResponseEnvelope));
}

#[test]
fn only_request_logs_read_capabilities() {
    assert!(keygen_cli::resources::needs_capabilities(&ResourceCommand::RequestLog(
        request_log::Cmd::List(list_args())
    )));
    assert!(!keygen_cli::resources::needs_capabilities(&ResourceCommand::Product(
        product::Cmd::List(list_args())
    )));
}
