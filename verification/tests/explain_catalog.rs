use keygen_cli::api::error::{hint_for_code, map_error, ApiErrorEntry, ErrorDoc, ErrorSource};
use keygen_cli::explain::catalog::{catalog, list_codes};
use keygen_cli::explain::commands::{dispatch, ExplainCmd};
use keygen_cli::explain::lookup;
use keygen_cli::json::Json;
use keygen_cli::output::dispatch::Payload;
use keygen_cli::Error;

#[test]
fn lookup_ignores_case() {
    let a = lookup("license_suspended").expect("known code");
    let b = lookup("LICENSE_SUSPENDED").expect("known code");
    assert_eq!(a.code, "LICENSE_SUSPENDED");
    assert_eq!(a.title, b.title);
    assert!(lookup("NO_SUCH_CODE").is_none());
}

#[test]
fn every_listed_code_is_found() {
    let codes = list_codes();
    assert_eq!(codes.len(), catalog().len());
    assert_eq!(codes.len(), 32);
    for c in codes {
        assert_eq!(lookup(c).expect("listed code").code, c);
        assert_eq!(lookup(&c.to_lowercase()).expect("listed code").code, c);
    }
}

#[test]
fn hint_is_first_fix() {
    assert_eq!(hint_for_code("license_suspended"), Some("keygen license reinstate <id>"));
    assert_eq!(hint_for_code("NOPE"), None);
}

#[test]
fn map_error_uses_first_entry_and_hint() {
    let doc = ErrorDoc {
        errors: vec![
            ApiErrorEntry {
                title: "Unprocessable resource".into(),
                detail: Some("is suspended".into()),
                code: Some("LICENSE_SUSPENDED".into()),
                source: Some(ErrorSource { pointer: Some("/data/attributes/key".into()), parameter: None }),
            },
            ApiErrorEntry { title: "second".into(), detail: None, code: None, source: None },
        ],
    };
    match map_error(422, Some("req-1".into()), Some(doc)) {
        Error::Api { status, code, title, detail, pointer, request_id, hint } => {
            assert_eq!(status, 422);
            assert_eq!(code.as_deref(), Some("LICENSE_SUSPENDED"));
            assert_eq!(title, "Unprocessable resource");
            assert_eq!(detail.as_deref(), Some("is suspended"));
            assert_eq!(pointer.as_deref(), Some("/data/attributes/key"));
            assert_eq!(request_id.as_deref(), Some("req-1"));
            assert_eq!(hint.as_deref(), Some("keygen license reinstate <id>"));
        }
        other => panic!("expected an API error, got {other:?}"),
    }
}

#[test]
fn map_error_without_document() {
    match map_error(503, None, None) {
        Error::Api { status, code, title, hint, .. } => {
            assert_eq!(status, 503);
            assert!(code.is_none());
            assert_eq!(title, "HTTP 503");
            assert!(hint.is_none());
        }
        other => panic!("expected an API error, got {other:?}"),
    }
}

#[test]
fn explain_known_code() {
    let cmd = ExplainCmd::Error { code: Some("token_expired".into()), list: false };
    match dispatch(cmd).unwrap() {
        Payload::Single(j) => {
            assert_eq!(j.get("code").and_then(Json::as_str), Some("TOKEN_EXPIRED"));
            match j.get("fix") {
                Some(Json::Array(items)) => assert!(!items.is_empty()),
                other => panic!("fix should be an array, got {other:?}"),
            }
            assert!(j.get("see_also").is_some());
        }
        other => panic!("expected a single payload, got {other:?}"),
    }
}

#[test]
fn explain_unknown_code() {
    let cmd = ExplainCmd::Error { code: Some("BOGUS".into()), list: false };
    match dispatch(cmd) {
        Err(Error::User(m)) => {
            assert_eq!(m, "unknown error code `BOGUS` (try `keygen explain error --list`)")
        }
        other => panic!("expected a user error, got {other:?}"),
    }
}

#[test]
fn explain_lists_without_code_or_with_list_flag() {
    for cmd in [
        ExplainCmd::Error { code: None, list: false },
        ExplainCmd::Error { code: Some("BOGUS".into()), list: true },
    ] {
        match dispatch(cmd).unwrap() {
            Payload::List(items) => {
                assert_eq!(items.len(), 32);
                assert_eq!(items[0].get("code").and_then(Json::as_str), Some("LICENSE_SUSPENDED"));
                assert!(items[0].get("cause").is_none());
            }
            other => panic!("expected a list, got {other:?}"),
        }
    }
}
