use keygen_cli::api::filter_audit::{audit, is_relation_key, relation_filter_keys};
use keygen_cli::api::jsonapi::Resource;
use keygen_cli::json::{empty_obj, obj1, obj2, Json};
use keygen_cli::Error;

fn res_with_rel(id: &str, rel_key: &str, rel_id: &str) -> Resource {
    let data = obj2("type", Json::string("licenses"), "id", Json::string(rel_id));
    Resource {
        id: id.to_string(),
        resource_type: "machines".to_string(),
        attributes: empty_obj(),
        relationships: Some(obj1(rel_key, obj1("data", data))),
    }
}

fn api_code(err: &Error) -> Option<String> {
    match err {
        Error::Api { code, .. } => code.clone(),
        other => panic!("expected Error::Api, got {other:?}"),
    }
}

#[test]
fn passes_when_all_match() {
    let filters = vec!["license=lic_abc".to_string()];
    let resources = vec![
        res_with_rel("m1", "license", "lic_abc"),
        res_with_rel("m2", "license", "lic_abc"),
    ];
    assert!(audit(&filters, &resources).is_ok());
}

#[test]
fn passes_on_empty_collection() {
    let filters = vec!["license=lic_abc".to_string()];
    assert!(audit(&filters, &[]).is_ok());
}

#[test]
fn passes_when_filter_key_is_not_a_known_relation() {
    let filters = vec!["status=ACTIVE".to_string()];
    let resources = vec![res_with_rel("m1", "license", "lic_xyz")];
    assert!(audit(&filters, &resources).is_ok());
}

#[test]
fn flags_mismatch_as_filter_unsupported() {
    let filters = vec!["license=lic_abc".to_string()];
    let resources = vec![res_with_rel("m1", "license", "lic_other")];
    let err = audit(&filters, &resources).expect_err("mismatch should error");
    assert_eq!(api_code(&err).as_deref(), Some("FILTER_UNSUPPORTED"));
}

#[test]
fn flags_missing_relationship_as_filter_unsupported() {
    let filters = vec!["license=lic_abc".to_string()];
    let resources = vec![Resource {
        id: "m1".into(),
        resource_type: "machines".into(),
        attributes: empty_obj(),
        relationships: None,
    }];
    let err = audit(&filters, &resources).expect_err("missing relation should error");
    assert_eq!(api_code(&err).as_deref(), Some("FILTER_UNSUPPORTED"));
}

#[test]
fn audit_names_the_first_failing_filter() {
    let filters = vec![
        "status=ACTIVE".to_string(),
        "policy=pol_1".to_string(),
        "license=lic_abc".to_string(),
    ];
    let resources = vec![res_with_rel("m1", "license", "lic_other")];
    let err = audit(&filters, &resources).expect_err("policy filter is not honoured");
    match err {
        Error::Api { status, code, title, pointer, .. } => {
            assert_eq!(status, 200);
            assert_eq!(code.as_deref(), Some("FILTER_UNSUPPORTED"));
            assert_eq!(
                title,
                "server ignored --filter policy=pol_1; got results that do not match the filter"
            );
            assert!(pointer.is_none());
        }
        other => panic!("expected Error::Api, got {other:?}"),
    }
}

#[test]
fn entries_without_equals_sign_are_ignored() {
    let filters = vec!["license".to_string()];
    let resources = vec![res_with_rel("m1", "license", "lic_other")];
    assert!(audit(&filters, &resources).is_ok());
}

#[test]
fn relation_keys_are_known() {
    let keys = relation_filter_keys();
    assert!(keys.contains(&"license"));
    assert!(is_relation_key("license"));
    assert!(!is_relation_key("status"));
}
