use keygen_cli::json::{array, empty_obj, obj1, obj2, obj3, Json};
use keygen_cli::output::dispatch::{
    emit, envelope, format_value, generic_columns, looks_like_timestamp, tsv_line, Cell, Payload, Rendering,
};
use keygen_cli::output::resolve_use_color;
use keygen_cli::output::OutputFormat;
use keygen_cli::render::status::Status;

fn text(c: Option<Cell>) -> String {
    match c {
        Some(Cell::Text(t)) => t,
        other => panic!("expected a text cell, got {other:?}"),
    }
}

fn license(id: &str, status: &str) -> Json {
    obj3(
        "id",
        Json::string(id),
        "type",
        Json::string("licenses"),
        "attributes",
        obj2("name", Json::string("Pro"), "status", Json::string(status)),
    )
}

#[test]
fn status_parse_ignores_case() {
    assert_eq!(Status::parse("active"), Status::Active);
    assert_eq!(Status::parse("Suspended"), Status::Suspended);
    assert_eq!(Status::parse("whatever"), Status::Unknown);
}

#[test]
fn pill_colors_the_dot() {
    assert_eq!(Status::Active.pill("ACTIVE"), "\u{1b}[32m\u{25cf}\u{1b}[39m ACTIVE");
    assert_eq!(Status::Expiring.pill("x"), "\u{1b}[33m\u{25cf}\u{1b}[39m x");
    assert_eq!(Status::Expired.pill("x"), "\u{1b}[93m\u{25cf}\u{1b}[39m x");
    assert_eq!(Status::Banned.pill("x"), "\u{1b}[31m\u{25cf}\u{1b}[39m x");
    assert_eq!(Status::Unknown.pill("x"), "\u{1b}[90m\u{25cf}\u{1b}[39m x");
    assert_eq!(Status::Active.pill_colored("ACTIVE", false), "\u{25cf} ACTIVE");
}

#[test]
fn use_color_rules() {
    assert!(resolve_use_color(false, false, true));
    assert!(!resolve_use_color(true, false, true));
    assert!(!resolve_use_color(false, true, true));
    assert!(!resolve_use_color(false, false, false));
}

#[test]
fn cell_formatting() {
    assert_eq!(text(format_value(&Json::Null, "name", false)), "\u{2014}");
    assert_eq!(text(format_value(&Json::Bool(true), "name", false)), "\u{2713}");
    assert_eq!(text(format_value(&Json::Bool(false), "name", false)), "\u{2014}");
    assert_eq!(text(format_value(&Json::Number("42".into()), "n", false)), "42");
    assert_eq!(
        text(format_value(&array(vec![Json::Null, Json::Null]), "xs", false)),
        "[2 items]"
    );
    assert_eq!(text(format_value(&obj1("a", Json::Null), "o", false)), "{1 keys}");
    assert_eq!(text(format_value(&Json::string("ACTIVE"), "status", false)), "\u{25cf} ACTIVE");
    match format_value(&Json::string("2024-01-02T03:04:05Z"), "created", false) {
        Some(Cell::Time(t)) => assert_eq!(t, "2024-01-02T03:04:05Z"),
        other => panic!("expected a time cell, got {other:?}"),
    }
}

#[test]
fn long_strings_are_cut() {
    let long = "a".repeat(70);
    let cut = text(format_value(&Json::string(&long), "name", false));
    assert_eq!(cut, format!("{}\u{2026}", "a".repeat(59)));
    let sixty = "b".repeat(60);
    assert_eq!(text(format_value(&Json::string(&sixty), "name", false)), sixty);
    let mut multi = "c".repeat(58);
    multi.push_str(&"\u{e9}".repeat(5));
    assert!(format_value(&Json::string(&multi), "name", false).is_none());
}

#[test]
fn timestamp_shape() {
    assert!(looks_like_timestamp("2024-01-02T03:04:05Z"));
    assert!(!looks_like_timestamp("2024-01-02 03:04:05"));
    assert!(!looks_like_timestamp("short"));
}

#[test]
fn columns_of_a_license() {
    let cols = generic_columns(&license("l1", "ACTIVE"));
    let titles: Vec<&str> = cols.iter().map(|c| c.title.as_str()).collect();
    assert_eq!(titles[0], "id");
    assert!(titles.contains(&"name"));
    assert!(titles.contains(&"status"));
}

#[test]
fn envelope_wraps_data() {
    let j = envelope(&Payload::Single(Json::string("x")));
    assert!(matches!(j.get("ok"), Some(Json::Bool(true))));
    assert_eq!(j.get("data").and_then(Json::as_str), Some("x"));
    assert!(j.get("meta").is_none());
    let j = envelope(&Payload::WithMeta { data: empty_obj(), meta: Some(obj1("count", Json::Null)) });
    assert!(j.get("meta").is_some());
}

#[test]
fn emit_by_format() {
    let p = Payload::List(vec![license("l1", "ACTIVE"), license("l2", "EXPIRED")]);
    match emit(OutputFormat::Json, false, false, p) {
        Some(Rendering::JsonDoc(j)) => assert!(matches!(j.get("data"), Some(Json::Array(a)) if a.len() == 2)),
        other => panic!("expected JSON, got {other:?}"),
    }
    let p = Payload::List(vec![license("l1", "ACTIVE")]);
    match emit(OutputFormat::Table, false, false, p) {
        Some(Rendering::Table { header, rows }) => {
            assert_eq!(header[0], "id");
            assert_eq!(rows.len(), 1);
            assert!(matches!(&rows[0][0], Cell::Text(t) if t == "l1"));
        }
        other => panic!("expected a table, got {other:?}"),
    }
    assert!(matches!(emit(OutputFormat::Table, false, false, Payload::List(vec![])), Some(Rendering::NoRows)));
    assert!(matches!(emit(OutputFormat::Json, true, false, Payload::List(vec![])), Some(Rendering::Nothing)));
    match emit(OutputFormat::Ndjson, false, false, Payload::Bag(obj1("deleted", Json::string("x")))) {
        Some(Rendering::JsonLines(v)) => assert_eq!(v.len(), 1),
        other => panic!("expected JSON lines, got {other:?}"),
    }
}

#[test]
fn kv_table_of_a_single_resource() {
    match emit(OutputFormat::Table, false, false, Payload::Single(license("l1", "ACTIVE"))) {
        Some(Rendering::KvTable { rows, meta }) => {
            assert_eq!(rows[0].0, "id");
            assert!(matches!(&rows[0].1, Cell::Text(t) if t == "l1"));
            assert_eq!(rows[1].0, "type");
            assert_eq!(rows[2].0, "name");
            assert!(meta.is_none());
        }
        other => panic!("expected a field table, got {other:?}"),
    }
}

#[test]
fn colors_keep_the_table_layout() {
    let items = || vec![license("l1", "ACTIVE"), license("l2", "REVOKED")];
    let plain = emit(OutputFormat::Table, false, false, Payload::List(items()));
    let colored = emit(OutputFormat::Table, false, true, Payload::List(items()));
    match (plain, colored) {
        (Some(Rendering::Table { header: h1, rows: r1 }), Some(Rendering::Table { header: h2, rows: r2 })) => {
            assert_eq!(h1, h2);
            assert_eq!(r1.len(), 2);
            assert_eq!(r2.len(), 2);
            let status_col = h1.iter().position(|h| *h == "status").unwrap();
            assert!(matches!(&r1[0][status_col], Cell::Text(t) if t == "\u{25cf} ACTIVE"));
            assert!(matches!(&r2[0][status_col], Cell::Text(t) if t == "\u{1b}[32m\u{25cf}\u{1b}[39m ACTIVE"));
        }
        other => panic!("expected two tables, got {other:?}"),
    }
}

#[test]
fn columns_fall_back_to_attribute_keys() {
    let sample = obj2("id", Json::string("x"), "attributes", obj2("foo", Json::Number("1".into()), "bar", Json::Number("2".into())));
    let cols = generic_columns(&sample);
    let titles: Vec<&str> = cols.iter().map(|c| c.title.as_str()).collect();
    assert_eq!(titles, vec!["id", "foo", "bar"]);
    assert!(!cols[0].in_attributes);
    assert!(cols[1].in_attributes && cols[2].in_attributes);
    let wide = obj1(
        "attributes",
        keygen_cli::json::object(
            ["a", "b", "c", "d", "e", "f"].iter().map(|k| (k.to_string(), Json::Null)).collect(),
        ),
    );
    let titles: Vec<String> = generic_columns(&wide).into_iter().map(|c| c.title).collect();
    assert_eq!(titles, vec!["id", "a", "b", "c", "d"]);
    let known = generic_columns(&license("l1", "ACTIVE"));
    assert!(known.iter().all(|c| c.title != "foo"));
}

#[test]
fn tsv_lines_are_tab_joined() {
    assert_eq!(tsv_line(&vec!["id".to_string(), "name".to_string(), "status".to_string()]), "id\tname\tstatus");
    assert_eq!(tsv_line(&vec!["only".to_string()]), "only");
    assert_eq!(tsv_line(&vec![]), "");
}

#[test]
fn pills_share_colors_by_status_group() {
    assert_eq!(Status::Expired.pill("x"), Status::Suspended.pill("x"));
    assert_eq!(Status::Banned.pill("x"), Status::Revoked.pill("x"));
    assert_eq!(Status::Inactive.pill("x"), Status::Unknown.pill("x"));
    let reps = [Status::Active, Status::Expiring, Status::Expired, Status::Banned, Status::Inactive];
    for (i, a) in reps.iter().enumerate() {
        for b in reps.iter().skip(i + 1) {
            assert_ne!(a.pill("x"), b.pill("x"));
        }
        assert!(a.pill("LABEL").ends_with(" LABEL"));
    }
}
