use keygen_cli::exit::ExitKind;
use keygen_cli::json::Json;
use keygen_cli::output::{classify, format_ai, report_error, ErrorReport};
use keygen_cli::Error;

fn api(status: u16) -> Error {
    Error::Api {
        status,
        code: Some("NOT_FOUND".into()),
        title: "Not found".into(),
        detail: None,
        pointer: None,
        request_id: Some("r-9".into()),
        hint: None,
    }
}

#[test]
fn exit_codes_per_kind() {
    assert_eq!(ExitKind::Success.code(), 0);
    assert_eq!(ExitKind::from_error(&Error::User("x".into())).code(), 1);
    assert_eq!(ExitKind::from_error(&Error::Config("x".into())).code(), 1);
    assert_eq!(ExitKind::from_error(&Error::Io("x".into())).code(), 1);
    assert_eq!(ExitKind::from_error(&api(500)).code(), 2);
    assert_eq!(ExitKind::from_error(&api(599)).code(), 2);
    assert_eq!(ExitKind::from_error(&Error::Network("x".into())).code(), 3);
    assert_eq!(ExitKind::from_error(&Error::Auth("x".into())).code(), 4);
    assert_eq!(ExitKind::from_error(&api(401)).code(), 4);
    assert_eq!(ExitKind::from_error(&api(403)).code(), 4);
    assert_eq!(ExitKind::from_error(&api(404)).code(), 1);
    assert_eq!(ExitKind::from_error(&Error::Capability("x".into())).code(), 5);
}

#[test]
fn error_messages() {
    assert_eq!(Error::User("bad".into()).message(), "user error: bad");
    assert_eq!(Error::Auth("no token".into()).message(), "authentication error: no token");
    assert_eq!(api(404).message(), "api error (404): Not found");
    assert_eq!(
        Error::Capability("sso".into()).message(),
        "capability not supported on this deployment: sso"
    );
    assert_eq!(Error::Other("plain".into()).message(), "plain");
}

#[test]
fn ai_payload_of_api_error() {
    let j = format_ai(&api(404));
    assert_eq!(j.get("kind").and_then(Json::as_str), Some("api"));
    match j.get("http_status") {
        Some(Json::Number(n)) => assert_eq!(n, "404"),
        other => panic!("expected a number, got {other:?}"),
    }
    assert_eq!(j.get("request_id").and_then(Json::as_str), Some("r-9"));
    assert!(matches!(j.get("detail"), Some(Json::Null)));
}

#[test]
fn ai_payload_of_other_errors() {
    let j = format_ai(&Error::Network("timed out".into()));
    assert_eq!(j.get("kind").and_then(Json::as_str), Some("network"));
    assert_eq!(j.get("message").and_then(Json::as_str), Some("network error: timed out"));
    assert_eq!(classify(&Error::Serde("x".into())), "user");
}

#[test]
fn report_error_modes() {
    match report_error(&Error::User("bad".into()), true) {
        ErrorReport::Json(j) => {
            assert!(matches!(j.get("ok"), Some(Json::Bool(false))));
            assert_eq!(
                j.get("error").and_then(|e| e.get("kind")).and_then(Json::as_str),
                Some("user")
            );
        }
        other => panic!("expected JSON, got {other:?}"),
    }
    match report_error(&Error::User("bad".into()), false) {
        ErrorReport::Text(t) => assert_eq!(t, "\u{2717} user error: bad"),
        other => panic!("expected text, got {other:?}"),
    }
}
