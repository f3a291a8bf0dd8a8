//! What the tool prints: the success envelope, the error payload and the
//! human table layout.

pub mod dispatch;
pub mod json;
pub mod table;

pub use dispatch::Payload;

use vstd::prelude::*;
use crate::error::Error;
use crate::json::{obj1, obj2, object, opt_string, Json, JsonV};
use crate::text::{concat, decimal, opt_view, to_decimal};

verus! {

/// The output format. `Table` always means a human-friendly table; colors
/// are dropped when stdout is not a terminal, but the layout stays.
#[derive(Debug, Clone, Copy, PartialEq, Eq, Structural)]
pub enum OutputFormat {
    Table,
    Json,
    Yaml,
    Tsv,
    Ndjson,
}

/// Whether to emit ANSI colors: never with `--no-color` or `NO_COLOR` set,
/// otherwise exactly when stdout is a terminal.
pub fn resolve_use_color(no_color_flag: bool, no_color_env: bool, stdout_is_terminal: bool) -> (r:
    bool)
    ensures
        r == (!no_color_flag && !no_color_env && stdout_is_terminal),
{
    if no_color_flag {
        return false;
    }
    if no_color_env {
        return false;
    }
    stdout_is_terminal
}

/// The `kind` an error is reported under.
pub open spec fn classify_spec(err: Error) -> Seq<char> {
    match err {
        Error::User(_) | Error::Serde(_) => "user"@,
        Error::Auth(_) => "auth"@,
        Error::Network(_) => "network"@,
        Error::Capability(_) => "capability"@,
        Error::Config(_) => "config"@,
        Error::Io(_) => "io"@,
        Error::Other(_) => "other"@,
        Error::Api { .. } => "api"@,
    }
}

/// The `kind` an error is reported under.
pub fn classify(err: &Error) -> (r: &'static str)
    ensures
        r@ == classify_spec(*err),
{
    match err {
        Error::User(_) | Error::Serde(_) => "user",
        Error::Auth(_) => "auth",
        Error::Network(_) => "network",
        Error::Capability(_) => "capability",
        Error::Config(_) => "config",
        Error::Io(_) => "io",
        Error::Other(_) => "other",
        Error::Api { .. } => "api",
    }
}

/// An optional string as JSON.
pub open spec fn opt_json(s: Option<String>) -> JsonV {
    match s {
        Some(v) => JsonV::Str(v@),
        None => JsonV::Null,
    }
}

/// The machine-readable description of an error.
pub open spec fn format_ai_spec(err: Error) -> JsonV {
    match err {
        Error::Api { status, code, title, detail, pointer, request_id, hint } => JsonV::Object(
            seq![
                ("kind"@, JsonV::Str("api"@)),
                ("http_status"@, JsonV::Number(decimal(status as nat))),
                ("code"@, opt_json(code)),
                ("title"@, JsonV::Str(title@)),
                ("detail"@, opt_json(detail)),
                ("source"@, opt_json(pointer)),
                ("request_id"@, opt_json(request_id)),
                ("hint"@, opt_json(hint)),
            ],
        ),
        _ => JsonV::Object(
            seq![("kind"@, JsonV::Str(classify_spec(err))), ("message"@, JsonV::Str(err.message_spec()))],
        ),
    }
}

/// The machine-readable description of an error: API errors carry their
/// status, code, title, detail, source pointer, request id and hint; every
/// other error its kind and message.
pub fn format_ai(err: &Error) -> (r: Json)
    ensures
        r@ == format_ai_spec(*err),
{
    match err {
        Error::Api { status, code, title, detail, pointer, request_id, hint } => {
            let members = vec![
                (String::from_str("kind"), Json::string("api")),
                (String::from_str("http_status"), Json::Number(to_decimal(*status as u64))),
                (String::from_str("code"), opt_string(code)),
                (String::from_str("title"), Json::string(title.as_str())),
                (String::from_str("detail"), opt_string(detail)),
                (String::from_str("source"), opt_string(pointer)),
                (String::from_str("request_id"), opt_string(request_id)),
                (String::from_str("hint"), opt_string(hint)),
            ];
            let r = object(members);
            proof {
                if let JsonV::Object(es) = r@ {
                    assert(es =~= seq![
                        ("kind"@, JsonV::Str("api"@)),
                        ("http_status"@, JsonV::Number(decimal(*status as nat))),
                        ("code"@, opt_json(*code)),
                        ("title"@, JsonV::Str(title@)),
                        ("detail"@, opt_json(*detail)),
                        ("source"@, opt_json(*pointer)),
                        ("request_id"@, opt_json(*request_id)),
                        ("hint"@, opt_json(*hint)),
                    ]);
                }
            }
            r
        },
        _ => {
            let kind = classify(err);
            let msg = err.message();
            obj2("kind", Json::string(kind), "message", Json::Str(msg))
        },
    }
}

/// What to print on stderr for a failure.
#[derive(Debug)]
pub enum ErrorReport {
    /// `{ "ok": false, "error": ... }`, printed as one JSON line.
    Json(Json),
    /// `✗ <message>`.
    Text(String),
}

/// The error payload of AI mode.
pub open spec fn error_payload_spec(err: Error) -> JsonV {
    JsonV::Object(seq![("ok"@, JsonV::Bool(false)), ("error"@, format_ai_spec(err))])
}

/// The report of a failure: the JSON error payload when JSON was requested,
/// otherwise a `✗`-prefixed message.
pub fn report_error(err: &Error, want_json: bool) -> (r: ErrorReport)
    ensures
        match r {
            ErrorReport::Json(j) => want_json && j@ == error_payload_spec(*err),
            ErrorReport::Text(t) => !want_json && t@ == seq!['\u{2717}', ' '] + err.message_spec(),
        },
{
    if want_json {
        ErrorReport::Json(obj2("ok", Json::Bool(false), "error", format_ai(err)))
    } else {
        let msg = err.message();
        proof {
            reveal_strlit("\u{2717} ");
        }
        ErrorReport::Text(concat("\u{2717} ", msg.as_str()))
    }
}

/// The error payload is stable: `ok` is `false`, `error.kind` names the
/// failure class, and API errors carry their HTTP status.
pub proof fn error_payload_shape(err: Error)
    ensures
        error_payload_spec(err) matches JsonV::Object(m) && m.len() == 2 && m[0] == ("ok"@, JsonV::Bool(false))
            && m[1].0 == "error"@,
        format_ai_spec(err) matches JsonV::Object(e) && e[0] == ("kind"@, JsonV::Str(classify_spec(err))),
        err matches Error::Api { status, .. } ==> format_ai_spec(err) matches JsonV::Object(e) && e[1]
            == ("http_status"@, JsonV::Number(decimal(status as nat))),
{
}

} // verus!
