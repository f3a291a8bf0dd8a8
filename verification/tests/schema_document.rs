use keygen_cli::json::Json;
use keygen_cli::schema::generate::{describe, describe_arg, dump, exit_codes, ActionKind, ArgInfo, CommandInfo};

fn arg(id: &str, action: ActionKind, positional: bool) -> ArgInfo {
    ArgInfo {
        id: id.into(),
        action,
        positional,
        long: if positional { None } else { Some(id.into()) },
        short: None,
        value_names: vec![],
        required: false,
        defaults: vec![],
        help: Some(format!("the {id}")),
        long_help: None,
        possible_values: vec![],
        env: None,
        global: false,
    }
}

fn kind_of(a: &ArgInfo) -> String {
    describe_arg(a).get("kind").and_then(Json::as_str).unwrap().to_string()
}

#[test]
fn argument_kinds() {
    assert_eq!(kind_of(&arg("yes", ActionKind::SetTrue, false)), "flag");
    assert_eq!(kind_of(&arg("no", ActionKind::SetFalse, false)), "flag");
    assert_eq!(kind_of(&arg("verbose", ActionKind::Count, false)), "counter");
    assert_eq!(kind_of(&arg("filter", ActionKind::Append, false)), "list");
    assert_eq!(kind_of(&arg("id", ActionKind::Other, true)), "positional");
    assert_eq!(kind_of(&arg("host", ActionKind::Other, false)), "option");
}

#[test]
fn argument_description() {
    let mut a = arg("output", ActionKind::Other, false);
    a.short = Some("o".into());
    a.value_names = vec!["FORMAT".into(), "EXTRA".into()];
    a.possible_values = vec!["table".into(), "json".into()];
    a.env = Some("KEYGEN_OUTPUT".into());
    a.global = true;
    let d = describe_arg(&a);
    assert_eq!(d.get("name").and_then(Json::as_str), Some("output"));
    assert_eq!(d.get("long").and_then(Json::as_str), Some("output"));
    assert_eq!(d.get("short").and_then(Json::as_str), Some("o"));
    assert_eq!(d.get("value_name").and_then(Json::as_str), Some("FORMAT"));
    assert_eq!(d.get("env").and_then(Json::as_str), Some("KEYGEN_OUTPUT"));
    assert!(matches!(d.get("global"), Some(Json::Bool(true))));
    assert!(matches!(d.get("required"), Some(Json::Bool(false))));
    assert!(matches!(d.get("long_help"), Some(Json::Null)));
    match d.get("possible_values") {
        Some(Json::Array(v)) => assert_eq!(v.len(), 2),
        other => panic!("expected an array, got {other:?}"),
    }
}

#[test]
fn command_tree_and_exit_codes() {
    let leaf = CommandInfo {
        name: "list".into(),
        about: Some("List licenses.".into()),
        long_about: None,
        args: vec![arg("filter", ActionKind::Append, false)],
        subcommands: vec![],
    };
    let root = CommandInfo {
        name: "keygen".into(),
        about: None,
        long_about: None,
        args: vec![],
        subcommands: vec![leaf],
    };
    let d = describe(&root);
    match d.get("subcommands") {
        Some(Json::Array(subs)) => {
            assert_eq!(subs[0].get("name").and_then(Json::as_str), Some("list"));
            assert!(matches!(subs[0].get("args"), Some(Json::Array(a)) if a.len() == 1));
        }
        other => panic!("expected subcommands, got {other:?}"),
    }
    match exit_codes() {
        Json::Array(rows) => {
            assert_eq!(rows.len(), 6);
            assert!(matches!(rows[4].get("code"), Some(Json::Number(n)) if n == "4"));
            assert_eq!(rows[4].get("name").and_then(Json::as_str), Some("auth_error"));
        }
        other => panic!("expected an array, got {other:?}"),
    }
    let doc = dump(&root, "0.1.0");
    assert!(matches!(doc.get("ok"), Some(Json::Bool(true))));
    let data = doc.get("data").unwrap();
    assert_eq!(data.get("version").and_then(Json::as_str), Some("0.1.0"));
    assert_eq!(data.get("binary").and_then(Json::as_str), Some("keygen"));
}
