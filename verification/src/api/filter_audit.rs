//! Client-side audit for `--filter <relation>=<id>`.
//!
//! Some self-hosted Keygen CE deployments accept a relation filter but
//! silently fail to apply it, returning the full collection. Every `list`
//! therefore checks, for known relation filter keys, that each returned
//! resource's `relationships.<key>.data.id` equals the requested id.

use vstd::prelude::*;
use crate::api::jsonapi::{rels_view, Resource};
use crate::error::Error;
use crate::json::{as_str_spec, get_spec, JsonV};
use crate::text::{concat3, split_once, split_once_spec, str_eq};

verus! {

/// The relation filter keys whose post-condition is conclusive: for these,
/// `relationships.<key>.data.id` must equal the filter value.
pub open spec fn relation_keys_spec() -> Seq<Seq<char>> {
    seq![
        "license"@,
        "user"@,
        "product"@,
        "policy"@,
        "group"@,
        "owner"@,
        "machine"@,
        "environment"@,
    ]
}

/// The relation filter keys audited after a `list`.
pub fn relation_filter_keys() -> (r: Vec<&'static str>)
    ensures
        r@.map_values(|s: &str| s@) == relation_keys_spec(),
{
    let v = vec!["license", "user", "product", "policy", "group", "owner", "machine", "environment"];
    assert(v@.map_values(|s: &str| s@) =~= relation_keys_spec());
    v
}

/// Whether `key` is one of the audited relation keys.
pub fn is_relation_key(key: &str) -> (r: bool)
    ensures
        r == relation_keys_spec().contains(key@),
{
    let keys = relation_filter_keys();
    let n = keys.len();
    let mut i: usize = 0;
    while i < n
        invariant
            n == keys@.len(),
            keys@.map_values(|s: &str| s@) == relation_keys_spec(),
            i <= n,
            forall|j: int| 0 <= j < i ==> relation_keys_spec()[j] != key@,
        decreases n - i,
    {
        assert(keys@.map_values(|s: &str| s@)[i as int] == keys@[i as int]@);
        if str_eq(keys[i], key) {
            assert(relation_keys_spec()[i as int] == key@);
            return true;
        }
        i = i + 1;
    }
    false
}

/// The related id a resource carries under `relationships.<key>.data.id`.
pub open spec fn related_id(rels: Option<JsonV>, key: Seq<char>) -> Option<Seq<char>> {
    match rels {
        Some(r) => match get_spec(r, key) {
            Some(rel) => match get_spec(rel, "data"@) {
                Some(d) => as_str_spec(get_spec(d, "id"@)),
                None => None,
            },
            None => None,
        },
        None => None,
    }
}

/// The (key, expected id) of a filter entry that the audit checks, if any.
pub open spec fn audited(entry: Seq<char>) -> Option<(Seq<char>, Seq<char>)> {
    match split_once_spec(entry, '=') {
        Some((k, v)) => if relation_keys_spec().contains(k) {
            Some((k, v))
        } else {
            None
        },
        None => None,
    }
}

/// Whether a resource honours an audited filter entry.
pub open spec fn honours(entry: Seq<char>, r: Resource) -> bool {
    match audited(entry) {
        Some((k, v)) => related_id(rels_view(r.relationships), k) == Some(v),
        None => true,
    }
}

/// Whether every resource honours a filter entry.
pub open spec fn entry_holds(entry: Seq<char>, resources: Seq<Resource>) -> bool {
    forall|j: int| 0 <= j < resources.len() ==> honours(entry, #[trigger] resources[j])
}

/// The title of the error raised when the server ignored `key=expected`.
pub open spec fn ignored_title(key: Seq<char>, expected: Seq<char>) -> Seq<char> {
    "server ignored --filter "@ + key + "="@ + expected
        + "; got results that do not match the filter"@
}

/// The error raised when the server ignored the filter `key=expected`.
pub open spec fn is_filter_unsupported(e: Error, key: Seq<char>, expected: Seq<char>) -> bool {
    match e {
        Error::Api { status, code, title, detail, pointer, request_id, hint } => {
            &&& status == 200
            &&& code matches Some(c) && c@ == "FILTER_UNSUPPORTED"@
            &&& title@ == ignored_title(key, expected)
            &&& detail matches Some(d) && d@ == filter_detail_text()
            &&& pointer is None
            &&& request_id is None
            &&& hint matches Some(h) && h@ == filter_hint_text()
        },
        _ => false,
    }
}

/// Whether `e` is the error raised for the audited filter entry `entry`.
pub open spec fn raised_for(e: Error, entry: Seq<char>) -> bool {
    match audited(entry) {
        Some((key, expected)) => is_filter_unsupported(e, key, expected),
        None => false,
    }
}

/// The detail text of the filter-unsupported error.
pub open spec fn filter_detail_text() -> Seq<char> {
    "the active deployment (likely self-hosted CE) accepted the filter[<relation>] query param but did not apply it. The CLI detected this by scanning the returned collection."@
}

/// The hint text of the filter-unsupported error.
pub open spec fn filter_hint_text() -> Seq<char> {
    "run `keygen doctor` to see whether this deployment supports relation filters; if not, list without the filter and narrow the result set client-side."@
}

fn resource_related_id<'a>(r: &'a Resource, key: &str) -> (out: Option<&'a str>)
    ensures
        match out {
            Some(s) => related_id(rels_view(r.relationships), key@) == Some(s@),
            None => related_id(rels_view(r.relationships), key@) is None,
        },
{
    match &r.relationships {
        Some(rels) => match rels.get(key) {
            Some(rel) => match rel.get("data") {
                Some(d) => match d.get("id") {
                    Some(id) => id.as_str(),
                    None => None,
                },
                None => None,
            },
            None => None,
        },
        None => None,
    }
}

fn filter_unsupported(key: &str, expected: &str) -> (e: Error)
    ensures
        is_filter_unsupported(e, key@, expected@),
{
    let head = concat3("server ignored --filter ", key, "=");
    let title = concat3(head.as_str(), expected, "; got results that do not match the filter");
    Error::Api {
        status: 200,
        code: Some(String::from_str("FILTER_UNSUPPORTED")),
        title,
        detail: Some(String::from_str("the active deployment (likely self-hosted CE) accepted the filter[<relation>] query param but did not apply it. The CLI detected this by scanning the returned collection.")),
        pointer: None,
        request_id: None,
        hint: Some(String::from_str("run `keygen doctor` to see whether this deployment supports relation filters; if not, list without the filter and narrow the result set client-side.")),
    }
}

/// Whether every resource carries `expected` as its `key` relation id.
fn all_carry(resources: &[Resource], key: &str, expected: &str) -> (r: bool)
    ensures
        r == forall|m: int|
            0 <= m < resources@.len() ==> related_id(
                rels_view(#[trigger] resources@[m].relationships),
                key@,
            ) == Some(expected@),
{
    let nr = resources.len();
    let mut j: usize = 0;
    while j < nr
        invariant
            nr == resources@.len(),
            j <= nr,
            forall|m: int|
                0 <= m < j ==> related_id(rels_view(#[trigger] resources@[m].relationships), key@)
                    == Some(expected@),
        decreases nr - j,
    {
        let ok = match resource_related_id(&resources[j], key) {
            Some(a) => str_eq(a, expected),
            None => false,
        };
        if !ok {
            return false;
        }
        j = j + 1;
    }
    true
}

/// Check every `--filter k=v` whose key is a known relation against the
/// returned collection. Succeeds exactly when every resource honours every
/// audited filter; otherwise fails with `FILTER_UNSUPPORTED`, naming the first
/// filter (in the order given) that some resource violates. An empty
/// collection always passes.
pub fn audit(filters: &[String], resources: &[Resource]) -> (r: Result<(), Error>)
    ensures
        r is Ok <==> forall|i: int|
            0 <= i < filters@.len() ==> entry_holds(#[trigger] filters@[i]@, resources@),
        r matches Err(e) ==> exists|i: int|
            0 <= i < filters@.len() && !entry_holds(#[trigger] filters@[i]@, resources@) && (forall|
                k: int,
            | 0 <= k < i ==> entry_holds(filters@[k]@, resources@)) && raised_for(e, filters@[i]@),
{
    let nf = filters.len();
    let nr = resources.len();
    let mut i: usize = 0;
    while i < nf
        invariant
            nf == filters@.len(),
            nr == resources@.len(),
            i <= nf,
            forall|k: int| 0 <= k < i ==> entry_holds(#[trigger] filters@[k]@, resources@),
        decreases nf - i,
    {
        let entry = &filters[i];
        match split_once(entry.as_str(), '=') {
            None => {},
            Some((key, expected)) => {
                if is_relation_key(key.as_str()) {
                    if !all_carry(resources, key.as_str(), expected.as_str()) {
                        let e = filter_unsupported(key.as_str(), expected.as_str());
                        assert(!entry_holds(filters@[i as int]@, resources@));
                        return Err(e);
                    }
                }
            },
        }
        assert(entry_holds(filters@[i as int]@, resources@));
        i = i + 1;
    }
    Ok(())
}

/// An empty collection honours every filter: auditing it always passes.
pub proof fn empty_collection_passes(filters: Seq<String>)
    ensures
        forall|i: int| 0 <= i < filters.len() ==> entry_holds(#[trigger] filters[i]@, Seq::<Resource>::empty()),
{
}

/// The relation keys, as listed, hold no `=` and are audited keys.
proof fn lemma_relation_key(key: Seq<char>)
    requires
        key == "license"@ || key == "user"@ || key == "product"@ || key == "policy"@ || key == "group"@ || key == "owner"@ || key == "machine"@ || key == "environment"@,
    ensures
        forall|i: int| 0 <= i < key.len() ==> key[i] != '=',
        relation_keys_spec().contains(key),
{
    if key == "license"@ {
        reveal_strlit("license");
        assert(relation_keys_spec()[0] == key);
    }
    if key == "user"@ {
        reveal_strlit("user");
        assert(relation_keys_spec()[1] == key);
    }
    if key == "product"@ {
        reveal_strlit("product");
        assert(relation_keys_spec()[2] == key);
    }
    if key == "policy"@ {
        reveal_strlit("policy");
        assert(relation_keys_spec()[3] == key);
    }
    if key == "group"@ {
        reveal_strlit("group");
        assert(relation_keys_spec()[4] == key);
    }
    if key == "owner"@ {
        reveal_strlit("owner");
        assert(relation_keys_spec()[5] == key);
    }
    if key == "machine"@ {
        reveal_strlit("machine");
        assert(relation_keys_spec()[6] == key);
    }
    if key == "environment"@ {
        reveal_strlit("environment");
        assert(relation_keys_spec()[7] == key);
    }
}

/// Every relation filter is audited: a `--filter <key>=<value>` on any of
/// `license`, `user`, `product`, `policy`, `group`, `owner`, `machine` and
/// `environment` is checked against the answer, and a single resource whose
/// `relationships.<key>.data.id` is not `<value>` breaks it, so the audit
/// fails with the FILTER_UNSUPPORTED error of that key and value.
pub proof fn relation_filters_are_audited(key: Seq<char>, value: Seq<char>, resources: Seq<Resource>, j: int)
    requires
        key == "license"@ || key == "user"@ || key == "product"@ || key == "policy"@ || key == "group"@ || key == "owner"@ || key == "machine"@ || key == "environment"@,
        0 <= j < resources.len(),
        related_id(rels_view(resources[j].relationships), key) != Some(value),
    ensures
        audited(key + "="@ + value) == Some((key, value)),
        !entry_holds(key + "="@ + value, resources),
        forall|e: Error| #[trigger] raised_for(e, key + "="@ + value) <==> is_filter_unsupported(e, key, value),
{
    lemma_relation_key(key);
    reveal_strlit("=");
    assert("="@ =~= seq!['=']);
    crate::text::lemma_split_at_separator(key, '=', value);
    assert(!honours(key + "="@ + value, resources[j]));
}

} // verus!
