use keygen_cli::api::request::{list_query, outcome, read_response, request_of, Body, Method, Outcome};
use keygen_cli::capability::detect::profile_plan;
use keygen_cli::capability::env_commands::environments_plan;
use keygen_cli::json::{array, obj1, Json};
use keygen_cli::output::dispatch::Payload;
use keygen_cli::resources::common::{Call, CreateArgs, Crud, GetArgs, ListArgs, Show};
use keygen_cli::Error;

fn crud() -> Crud {
    Crud::new("licenses", "/licenses")
}

#[test]
fn list_query_parameters() {
    let args = ListArgs {
        filter: vec!["license=lic_1".into(), "bogus".into(), "status=ACTIVE".into()],
        page: 2,
        limit: 25,
        sort: Some("-created".into()),
        includes: vec!["policy".into(), "user".into()],
    };
    let q = list_query(&args);
    let expected: Vec<(String, String)> = vec![
        ("filter[license]".into(), "lic_1".into()),
        ("filter[status]".into(), "ACTIVE".into()),
        ("page[number]".into(), "2".into()),
        ("page[size]".into(), "25".into()),
        ("sort".into(), "-created".into()),
        ("include".into(), "policy,user".into()),
    ];
    assert_eq!(q, expected);
}

#[test]
fn requests_of_calls() {
    let list = Call::List {
        crud: crud(),
        args: ListArgs { filter: vec!["user=u1".into()], page: 1, limit: 50, sort: None, includes: vec![] },
    };
    let r = request_of(&list).unwrap();
    assert_eq!(r.method, Method::Get);
    assert_eq!(r.path, "/licenses");
    assert_eq!(r.audit, vec!["user=u1".to_string()]);

    let get = Call::Get { crud: crud(), args: GetArgs { id: "l1".into(), includes: vec!["policy".into()] } };
    let r = request_of(&get).unwrap();
    assert_eq!(r.path, "/licenses/l1");
    assert_eq!(r.query, vec![("include".to_string(), "policy".to_string())]);
    assert!(r.audit.is_empty());

    let create = Call::Create {
        crud: crud(),
        args: CreateArgs { from_file: Some("-".into()), metadata: vec![], set: vec![] },
    };
    let r = request_of(&create).unwrap();
    assert_eq!(r.method, Method::Post);
    assert!(matches!(r.body, Body::FromFile(ref p) if p == "-"));

    let no_body = Call::Create { crud: crud(), args: CreateArgs { from_file: None, metadata: vec![], set: vec![] } };
    match request_of(&no_body) {
        Err(Error::User(m)) => assert_eq!(m, "--from-file <json>|- is required to send a request body"),
        other => panic!("expected a user error, got {other:?}"),
    }

    let send = Call::Send { path: "/licenses/l1/actions/suspend".into(), body: obj1("meta", Json::Null) };
    let r = request_of(&send).unwrap();
    assert_eq!(r.method, Method::Post);
    assert!(matches!(r.body, Body::Document(_)));
}

#[test]
fn response_status_decides() {
    assert!(matches!(read_response(204, None, true, Err("eof".into()), None), Ok(Json::Null)));
    assert!(matches!(read_response(200, None, false, Ok(Json::Bool(true)), None), Ok(Json::Bool(true))));
    match read_response(200, None, false, Err("bad json".into()), None) {
        Err(Error::Serde(m)) => assert_eq!(m, "bad json"),
        other => panic!("expected a serde error, got {other:?}"),
    }
    match read_response(404, Some("rid".into()), false, Ok(Json::Null), None) {
        Err(Error::Api { status, title, .. }) => {
            assert_eq!(status, 404);
            assert_eq!(title, "HTTP 404");
        }
        other => panic!("expected an API error, got {other:?}"),
    }
}

#[test]
fn outcomes_of_answers() {
    let doc = obj1("data", array(vec![Json::string("a"), Json::string("b")]));
    match outcome(Show::ResponseList, &doc) {
        Outcome::Show(Payload::List(items)) => assert_eq!(items.len(), 2),
        other => panic!("expected a list, got {other:?}"),
    }
    match outcome(Show::ResponseEnvelope, &doc) {
        Outcome::Print(j) => {
            assert!(matches!(j.get("ok"), Some(Json::Bool(true))));
            assert!(matches!(j.get("data"), Some(Json::Array(a)) if a.len() == 2));
        }
        other => panic!("expected a document, got {other:?}"),
    }
    match outcome(Show::ResponseSingle, &Json::Null) {
        Outcome::Show(Payload::Single(Json::Null)) => {}
        other => panic!("expected a null single, got {other:?}"),
    }
}

#[test]
fn probe_and_environment_plans() {
    let p = profile_plan();
    assert!(matches!(p.call, Call::Fetch { ref path } if path == "/profile"));
    let e = environments_plan(100);
    let r = request_of(&e.call).unwrap();
    assert_eq!(r.path, "/environments");
    assert!(r.query.contains(&("page[size]".to_string(), "100".to_string())));
    assert!(matches!(e.show, Show::ResponseList));
}
