//! `keygen explain ...` subcommands.

use vstd::prelude::*;
use crate::error::Error;
use crate::explain::catalog::{catalog, catalog_index, catalog_spec, lookup, EntryView, ErrorEntry};
use crate::json::{array, lemma_array_view, obj2, Json, JsonV};
use crate::output::dispatch::Payload;
use crate::text::concat3;

verus! {

/// The `keygen explain` subcommands.
#[derive(Debug)]
pub enum ExplainCmd {
    /// Explain a keygen.sh API error code (cause + fix).
    Error {
        /// Error code (case-insensitive). e.g. LICENSE_SUSPENDED.
        code: Option<String>,
        /// List all known codes.
        list: bool,
    },
}

/// A list of texts as a JSON array of strings.
pub open spec fn texts_json(s: Seq<Seq<char>>) -> JsonV {
    JsonV::Array(Seq::new(s.len(), |i: int| JsonV::Str(s[i])))
}

/// The `{ code, title }` summary of a catalogue entry.
pub open spec fn summary_json(e: EntryView) -> JsonV {
    JsonV::Object(seq![("code"@, JsonV::Str(e.code)), ("title"@, JsonV::Str(e.title))])
}

/// The full `{ code, title, cause, fix, see_also }` document of an entry.
pub open spec fn entry_json(e: EntryView) -> JsonV {
    JsonV::Object(
        seq![
            ("code"@, JsonV::Str(e.code)),
            ("title"@, JsonV::Str(e.title)),
            ("cause"@, texts_json(e.cause)),
            ("fix"@, texts_json(e.fix)),
            ("see_also"@, texts_json(e.see_also)),
        ],
    )
}

/// The message of an unknown code.
pub open spec fn unknown_code_msg(code: Seq<char>) -> Seq<char> {
    "unknown error code `"@ + code + "` (try `keygen explain error --list`)"@
}

/// Whether a payload is the list of every catalogue entry's summary.
pub open spec fn is_catalog_listing(p: Payload) -> bool {
    &&& p matches Payload::List(items)
    &&& items@.len() == catalog_spec().len()
    &&& forall|i: int| 0 <= i < items@.len() ==> #[trigger] items@[i]@ == summary_json(catalog_spec()[i])
}

fn texts(s: &'static [&'static str]) -> (r: Json)
    ensures
        r@ == texts_json(s@.map_values(|t: &str| t@)),
{
    let n = s.len();
    let mut out: Vec<Json> = Vec::new();
    let mut i: usize = 0;
    while i < n
        invariant
            n == s@.len(),
            i <= n,
            out@.len() == i,
            forall|k: int| 0 <= k < i ==> #[trigger] out@[k]@ == JsonV::Str(s@[k]@),
        decreases n - i,
    {
        out.push(Json::string(s[i]));
        i = i + 1;
    }
    let r = array(out);
    assert(Seq::new(out@.len(), |k: int| out@[k]@) =~= Seq::new(
        s@.map_values(|t: &str| t@).len(),
        |k: int| JsonV::Str(s@.map_values(|t: &str| t@)[k]),
    ));
    r
}

/// The full document of a catalogue entry.
pub fn entry_document(e: &ErrorEntry) -> (r: Json)
    ensures
        r@ == entry_json(e@),
{
    let members: Vec<(String, Json)> = vec![
        (String::from_str("code"), Json::string(e.code)),
        (String::from_str("title"), Json::string(e.title)),
        (String::from_str("cause"), texts(e.cause)),
        (String::from_str("fix"), texts(e.fix)),
        (String::from_str("see_also"), texts(e.see_also)),
    ];
    let ghost m = members@;
    let r = crate::json::object(members);
    assert(Seq::new(m.len(), |i: int| (m[i].0@, m[i].1@)) =~= seq![
        ("code"@, JsonV::Str(e.code@)),
        ("title"@, JsonV::Str(e.title@)),
        ("cause"@, texts_json(e@.cause)),
        ("fix"@, texts_json(e@.fix)),
        ("see_also"@, texts_json(e@.see_also)),
    ]);
    r
}

/// Every catalogue entry as `{ code, title }`, in catalogue order.
pub fn list_all() -> (p: Payload)
    ensures
        is_catalog_listing(p),
{
    let cat = catalog();
    let n = cat.len();
    let mut out: Vec<Json> = Vec::new();
    let mut i: usize = 0;
    while i < n
        invariant
            n == cat@.len(),
            n == catalog_spec().len(),
            i <= n,
            out@.len() == i,
            forall|k: int| 0 <= k < n ==> #[trigger] cat@[k]@ == catalog_spec()[k],
            forall|k: int| 0 <= k < i ==> #[trigger] out@[k]@ == summary_json(catalog_spec()[k]),
        decreases n - i,
    {
        let e = cat[i];
        assert(cat@[i as int]@ == catalog_spec()[i as int]);
        out.push(obj2("code", Json::string(e.code), "title", Json::string(e.title)));
        i = i + 1;
    }
    Payload::List(out)
}

/// What `keygen explain ...` shows: the listing when `--list` is given or no
/// code is, else the entry of the code (any letter case), or a user error
/// for an unknown code.
pub fn dispatch(cmd: ExplainCmd) -> (r: Result<Payload, Error>)
    ensures
        match cmd {
            ExplainCmd::Error { code, list } => if list || code is None {
                r matches Ok(p) && is_catalog_listing(p)
            } else {
                match catalog_index(code->0@) {
                    Some(i) => r matches Ok(Payload::Single(j)) && j@ == entry_json(catalog_spec()[i]),
                    None => r matches Err(Error::User(m)) && m@ == unknown_code_msg(code->0@),
                }
            },
        },
{
    match cmd {
        ExplainCmd::Error { code, list } => {
            match code {
                Some(c) => {
                    if list {
                        return Ok(list_all());
                    }
                    match lookup(c.as_str()) {
                        Some(e) => Ok(Payload::Single(entry_document(&e))),
                        None => {
                            let msg = concat3(
                                "unknown error code `",
                                c.as_str(),
                                "` (try `keygen explain error --list`)",
                            );
                            Err(Error::User(msg))
                        },
                    }
                },
                None => Ok(list_all()),
            }
        },
    }
}

} // verus!
