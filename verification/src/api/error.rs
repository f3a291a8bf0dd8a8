//! JSON:API error documents and their conversion into [`Error`].

use vstd::prelude::*;
use crate::error::Error;
use crate::explain::catalog::{catalog_index, catalog_spec, lookup};
use crate::text::{concat, decimal, opt_view, to_decimal};

verus! {

/// A JSON:API error document: `{ "errors": [...] }`.
#[derive(Debug)]
pub struct ErrorDoc {
    pub errors: Vec<ApiErrorEntry>,
}

/// One entry of a JSON:API error document.
#[derive(Debug)]
pub struct ApiErrorEntry {
    pub title: String,
    pub detail: Option<String>,
    pub code: Option<String>,
    pub source: Option<ErrorSource>,
}

/// Where in the request an API error points.
#[derive(Debug)]
pub struct ErrorSource {
    pub pointer: Option<String>,
    pub parameter: Option<String>,
}

/// The first fix the catalogue suggests for `code`, if the code is known.
pub open spec fn hint_spec(code: Seq<char>) -> Option<Seq<char>> {
    match catalog_index(code) {
        Some(i) => if catalog_spec()[i].fix.len() > 0 {
            Some(catalog_spec()[i].fix[0])
        } else {
            None
        },
        None => None,
    }
}

/// The best-effort recovery hint for an API error code.
pub fn hint_for_code(code: &str) -> (r: Option<&'static str>)
    ensures
        match r {
            Some(h) => hint_spec(code@) == Some(h@),
            None => hint_spec(code@) is None,
        },
{
    match lookup(code) {
        Some(entry) => {
            if entry.fix.len() > 0 {
                Some(entry.fix[0])
            } else {
                None
            }
        },
        None => None,
    }
}

/// The pointer of an optional error source.
pub open spec fn source_pointer(s: Option<ErrorSource>) -> Option<Seq<char>> {
    match s {
        Some(src) => opt_view(src.pointer),
        None => None,
    }
}

/// The first entry of an optional error document.
pub open spec fn first_entry(doc: Option<ErrorDoc>) -> Option<ApiErrorEntry> {
    match doc {
        Some(d) => if d.errors@.len() > 0 {
            Some(d.errors@[0])
        } else {
            None
        },
        None => None,
    }
}

/// The API error built from an HTTP status, a request id and the parsed error
/// document (`None` when the body was not a JSON:API error document).
pub open spec fn map_error_spec(
    status: u16,
    request_id: Option<Seq<char>>,
    doc: Option<ErrorDoc>,
    r: Error,
) -> bool {
    match r {
        Error::Api { status: s, code, title, detail, pointer, request_id: rid, hint } => {
            &&& s == status
            &&& opt_view(rid) == request_id
            &&& match first_entry(doc) {
                Some(e) => {
                    &&& opt_view(code) == opt_view(e.code)
                    &&& title@ == e.title@
                    &&& opt_view(detail) == opt_view(e.detail)
                    &&& opt_view(pointer) == source_pointer(e.source)
                },
                None => {
                    &&& code is None
                    &&& title@ == "HTTP "@ + decimal(status as nat)
                    &&& detail is None
                    &&& pointer is None
                },
            }
            &&& opt_view(hint) == match opt_view(code) {
                Some(c) => hint_spec(c),
                None => None,
            }
        },
        _ => false,
    }
}

/// Convert an HTTP status, the response's request id and its parsed JSON:API
/// error document into an [`Error::Api`], with a hint for known codes.
pub fn map_error(status: u16, request_id: Option<String>, doc: Option<ErrorDoc>) -> (r: Error)
    ensures
        map_error_spec(status, opt_view(request_id), doc, r),
{
    let ghost d0 = doc;
    let entry = match doc {
        Some(mut d) => {
            if d.errors.len() > 0 {
                Some(d.errors.remove(0))
            } else {
                None
            }
        },
        None => None,
    };
    let (code, title, detail, pointer) = match entry {
        Some(e) => {
            let pointer = match e.source {
                Some(src) => src.pointer,
                None => None,
            };
            (e.code, e.title, e.detail, pointer)
        },
        None => {
            let digits = to_decimal(status as u64);
            (None, concat("HTTP ", digits.as_str()), None, None)
        },
    };
    let hint = match &code {
        Some(c) => match hint_for_code(c.as_str()) {
            Some(h) => Some(String::from_str(h)),
            None => None,
        },
        None => None,
    };
    Error::Api { status, code, title, detail, pointer, request_id, hint }
}

} // verus!
