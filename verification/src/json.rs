//! A JSON value model: the documents the command layer builds and reads.

use vstd::prelude::*;
use crate::text::{copy_str, str_eq};

verus! {

/// A JSON value. Numbers are kept as their textual rendering.
#[derive(Debug)]
pub enum Json {
    Null,
    Bool(bool),
    Number(String),
    Str(String),
    Array(Vec<Json>),
    Object(Vec<(String, Json)>),
}

/// The mathematical view of a JSON value.
pub enum JsonV {
    Null,
    Bool(bool),
    Number(Seq<char>),
    Str(Seq<char>),
    Array(Seq<JsonV>),
    Object(Seq<(Seq<char>, JsonV)>),
}

pub open spec fn jv(j: Json) -> JsonV
    decreases j,
{
    match j {
        Json::Null => JsonV::Null,
        Json::Bool(b) => JsonV::Bool(b),
        Json::Number(n) => JsonV::Number(n@),
        Json::Str(s) => JsonV::Str(s@),
        Json::Array(v) => JsonV::Array(
            Seq::new(
                v@.len(),
                |i: int|
                    if 0 <= i < v@.len() {
                        proof {
                            assert(decreases_to!(v => v@));
                            assert(decreases_to!(v@ => v@[i]));
                        }
                        jv(v@[i])
                    } else {
                        JsonV::Null
                    },
            ),
        ),
        Json::Object(v) => JsonV::Object(
            Seq::new(
                v@.len(),
                |i: int|
                    if 0 <= i < v@.len() {
                        proof {
                            assert(decreases_to!(v => v@));
                            assert(decreases_to!(v@ => v@[i]));
                            assert(decreases_to!(v@[i] => v@[i].1));
                        }
                        (v@[i].0@, jv(v@[i].1))
                    } else {
                        (Seq::empty(), JsonV::Null)
                    },
            ),
        ),
    }
}


impl View for Json {
    type V = JsonV;

    open spec fn view(&self) -> JsonV {
        jv(*self)
    }
}

/// The value stored under `key` in an object (its first occurrence).
pub open spec fn get_spec(j: JsonV, key: Seq<char>) -> Option<JsonV> {
    match j {
        JsonV::Object(entries) => if exists|i: int| 0 <= i < entries.len() && entries[i].0 == key {
            let i = choose|i: int|
                0 <= i < entries.len() && entries[i].0 == key && forall|k: int|
                    0 <= k < i ==> entries[k].0 != key;
            Some(entries[i].1)
        } else {
            None
        },
        _ => None,
    }
}

/// The string inside a JSON string value.
pub open spec fn as_str_spec(j: Option<JsonV>) -> Option<Seq<char>> {
    match j {
        Some(JsonV::Str(s)) => Some(s),
        _ => None,
    }
}

/// The value reached by following object keys one after the other.
pub open spec fn pointer_spec(j: JsonV, path: Seq<Seq<char>>) -> Option<JsonV>
    decreases path.len(),
{
    if path.len() == 0 {
        Some(j)
    } else {
        match get_spec(j, path[0]) {
            Some(next) => pointer_spec(next, path.drop_first()),
            None => None,
        }
    }
}

proof fn lemma_least_key(entries: Seq<(Seq<char>, JsonV)>, key: Seq<char>, w: int)
    requires
        0 <= w < entries.len(),
        entries[w].0 == key,
    ensures
        exists|i: int|
            0 <= i < entries.len() && entries[i].0 == key && forall|k: int|
                0 <= k < i ==> entries[k].0 != key,
    decreases w,
{
    if exists|k: int| 0 <= k < w && entries[k].0 == key {
        let k = choose|k: int| 0 <= k < w && entries[k].0 == key;
        lemma_least_key(entries, key, k);
    } else {
        assert(0 <= w < entries.len() && entries[w].0 == key && forall|k: int|
            0 <= k < w ==> entries[k].0 != key);
    }
}

pub proof fn lemma_get_first(entries: Seq<(Seq<char>, JsonV)>, key: Seq<char>, w: int)
    requires
        0 <= w < entries.len(),
        entries[w].0 == key,
        forall|k: int| 0 <= k < w ==> entries[k].0 != key,
    ensures
        get_spec(JsonV::Object(entries), key) == Some(entries[w].1),
{
    lemma_least_key(entries, key, w);
    let i = choose|i: int|
        0 <= i < entries.len() && entries[i].0 == key && forall|k: int|
            0 <= k < i ==> entries[k].0 != key;
    if i < w {
        assert(entries[i].0 != key);
    } else if i > w {
        assert(entries[w].0 != key);
    }
}

pub proof fn lemma_object_view(v: Vec<(String, Json)>, i: int)
    requires
        0 <= i < v@.len(),
    ensures
        jv(Json::Object(v)) matches JsonV::Object(entries) && entries.len() == v@.len()
            && entries[i] == (v@[i].0@, jv(v@[i].1)),
{
}

pub proof fn lemma_array_len(v: Vec<Json>)
    ensures
        jv(Json::Array(v)) matches JsonV::Array(items) && items.len() == v@.len(),
{
}

pub proof fn lemma_object_len(v: Vec<(String, Json)>)
    ensures
        jv(Json::Object(v)) matches JsonV::Object(es) && es.len() == v@.len(),
{
}

pub proof fn lemma_object_seq(v: Vec<(String, Json)>)
    ensures
        jv(Json::Object(v)) == JsonV::Object(Seq::new(v@.len(), |i: int| (v@[i].0@, v@[i].1@))),
{
    if let JsonV::Object(es) = jv(Json::Object(v)) {
        assert forall|i: int| 0 <= i < v@.len() implies es[i] == (v@[i].0@, v@[i].1@) by {
            lemma_object_view(v, i);
        }
        assert(es =~= Seq::new(v@.len(), |i: int| (v@[i].0@, v@[i].1@)));
    }
}

pub proof fn lemma_array_view(v: Vec<Json>, i: int)
    requires
        0 <= i < v@.len(),
    ensures
        jv(Json::Array(v)) matches JsonV::Array(items) && items.len() == v@.len() && items[i]
            == jv(v@[i]),
{
}

impl Json {
    /// The value stored under `key`, when `self` is an object holding it.
    pub fn get(&self, key: &str) -> (r: Option<&Json>)
        ensures
            match r {
                Some(x) => get_spec(self@, key@) == Some(x@),
                None => get_spec(self@, key@) is None,
            },
    {
        match self {
            Json::Object(entries) => {
                let n = entries.len();
                let mut i: usize = 0;
                while i < n
                    invariant
                        n == entries@.len(),
                        i <= n,
                        *self == Json::Object(*entries),
                        forall|k: int| 0 <= k < i ==> entries@[k].0@ != key@,
                    decreases n - i,
                {
                    if str_eq(entries[i].0.as_str(), key) {
                        proof {
                            let ghost es = Seq::new(entries@.len(), |k: int| (entries@[k].0@, jv(entries@[k].1)));
                            assert forall|k: int| 0 <= k < i implies es[k].0 != key@ by {
                                lemma_object_view(*entries, k);
                            }
                            lemma_object_view(*entries, i as int);
                            lemma_get_first(es, key@, i as int);
                        }
                        return Some(&entries[i].1);
                    }
                    i = i + 1;
                }
                proof {
                    if let JsonV::Object(es) = self@ {
                        assert forall|k: int| 0 <= k < es.len() implies es[k].0 != key@ by {
                            lemma_object_view(*entries, k);
                        }
                    }
                }
                None
            },
            _ => None,
        }
    }

    /// The string inside a JSON string value.
    pub fn as_str(&self) -> (r: Option<&str>)
        ensures
            match r {
                Some(s) => as_str_spec(Some(self@)) == Some(s@),
                None => as_str_spec(Some(self@)) is None,
            },
    {
        match self {
            Json::Str(s) => Some(s.as_str()),
            _ => None,
        }
    }

    /// A JSON string holding `s`.
    pub fn string(s: &str) -> (r: Json)
        ensures
            r@ == JsonV::Str(s@),
    {
        Json::Str(String::from_str(s))
    }

    /// A structural copy of the value.
    pub fn deep_copy(&self) -> (r: Json)
        ensures
            r@ == self@,
        decreases self,
    {
        match self {
            Json::Null => Json::Null,
            Json::Bool(b) => Json::Bool(*b),
            Json::Number(n) => Json::Number(copy_str(n)),
            Json::Str(s) => Json::Str(copy_str(s)),
            Json::Array(items) => {
                let n = items.len();
                let mut out: Vec<Json> = Vec::new();
                let mut i: usize = 0;
                while i < n
                    invariant
                        n == items@.len(),
                        *self == Json::Array(*items),
                        i <= n,
                        out@.len() == i,
                        forall|k: int| 0 <= k < i ==> #[trigger] jv(out@[k]) == jv(items@[k]),
                    decreases n - i,
                {
                    proof {
                        assert(decreases_to!(*self => self->Array_0));
                        assert(decreases_to!(*items => items@));
                        assert(decreases_to!(items@ => items@[i as int]));
                    }
                    out.push(items[i].deep_copy());
                    i = i + 1;
                }
                let r = Json::Array(out);
                proof {
                    if let JsonV::Array(a) = r@ {
                        if let JsonV::Array(b) = self@ {
                            assert forall|k: int| 0 <= k < a.len() implies a[k] == b[k] by {
                                lemma_array_view(out, k);
                                lemma_array_view(*items, k);
                            }
                            assert(a =~= b);
                        }
                    }
                }
                r
            },
            Json::Object(entries) => {
                let n = entries.len();
                let mut out: Vec<(String, Json)> = Vec::new();
                let mut i: usize = 0;
                while i < n
                    invariant
                        n == entries@.len(),
                        *self == Json::Object(*entries),
                        i <= n,
                        out@.len() == i,
                        forall|k: int|
                            0 <= k < i ==> #[trigger] out@[k].0@ == entries@[k].0@ && jv(out@[k].1)
                                == jv(entries@[k].1),
                    decreases n - i,
                {
                    proof {
                        assert(decreases_to!(*self => self->Object_0));
                        assert(decreases_to!(*entries => entries@));
                        assert(decreases_to!(entries@ => entries@[i as int]));
                        assert(decreases_to!(entries@[i as int] => entries@[i as int].1));
                    }
                    let key = copy_str(&entries[i].0);
                    let value = entries[i].1.deep_copy();
                    out.push((key, value));
                    i = i + 1;
                }
                let r = Json::Object(out);
                proof {
                    if let JsonV::Object(a) = r@ {
                        if let JsonV::Object(b) = self@ {
                            assert forall|k: int| 0 <= k < a.len() implies a[k] == b[k] by {
                                lemma_object_view(out, k);
                                lemma_object_view(*entries, k);
                            }
                            assert(a =~= b);
                        }
                    }
                }
                r
            },
        }
    }
}


/// A one-member object.
pub fn obj1(k1: &str, v1: Json) -> (r: Json)
    ensures
        r@ == JsonV::Object(seq![(k1@, v1@)]),
{
    let v = vec![(String::from_str(k1), v1)];
    let r = Json::Object(v);
    proof {
        lemma_object_view(v, 0);
        if let JsonV::Object(es) = r@ {
            assert(es =~= seq![(k1@, v1@)]);
        }
    }
    r
}

/// A two-member object.
pub fn obj2(k1: &str, v1: Json, k2: &str, v2: Json) -> (r: Json)
    ensures
        r@ == JsonV::Object(seq![(k1@, v1@), (k2@, v2@)]),
{
    let v = vec![(String::from_str(k1), v1), (String::from_str(k2), v2)];
    let r = Json::Object(v);
    proof {
        lemma_object_view(v, 0);
        lemma_object_view(v, 1);
        if let JsonV::Object(es) = r@ {
            assert(es =~= seq![(k1@, v1@), (k2@, v2@)]);
        }
    }
    r
}

/// A three-member object.
pub fn obj3(k1: &str, v1: Json, k2: &str, v2: Json, k3: &str, v3: Json) -> (r: Json)
    ensures
        r@ == JsonV::Object(seq![(k1@, v1@), (k2@, v2@), (k3@, v3@)]),
{
    let v = vec![(String::from_str(k1), v1), (String::from_str(k2), v2), (String::from_str(k3), v3)];
    let r = Json::Object(v);
    proof {
        lemma_object_view(v, 0);
        lemma_object_view(v, 1);
        lemma_object_view(v, 2);
        if let JsonV::Object(es) = r@ {
            assert(es =~= seq![(k1@, v1@), (k2@, v2@), (k3@, v3@)]);
        }
    }
    r
}

/// An object built from members in order.
pub fn object(members: Vec<(String, Json)>) -> (r: Json)
    ensures
        r@ == JsonV::Object(Seq::new(members@.len(), |i: int| (members@[i].0@, members@[i].1@))),
{
    let r = Json::Object(members);
    proof {
        if let JsonV::Object(es) = r@ {
            assert forall|i: int| 0 <= i < members@.len() implies es[i] == (members@[i].0@, members@[i].1@) by {
                lemma_object_view(members, i);
            }
            assert(es =~= Seq::new(members@.len(), |i: int| (members@[i].0@, members@[i].1@)));
        }
    }
    r
}

/// An array of values in order.
pub fn array(items: Vec<Json>) -> (r: Json)
    ensures
        r@ == JsonV::Array(Seq::new(items@.len(), |i: int| items@[i]@)),
{
    let r = Json::Array(items);
    proof {
        if let JsonV::Array(es) = r@ {
            assert forall|i: int| 0 <= i < items@.len() implies es[i] == items@[i]@ by {
                lemma_array_view(items, i);
            }
            assert(es =~= Seq::new(items@.len(), |i: int| items@[i]@));
        }
    }
    r
}

/// An optional string as JSON (`null` when absent).
pub fn opt_string(s: &Option<String>) -> (r: Json)
    ensures
        r@ == match s {
            Some(v) => JsonV::Str(v@),
            None => JsonV::Null,
        },
{
    match s {
        Some(v) => Json::string(v.as_str()),
        None => Json::Null,
    }
}


/// An empty JSON object.
pub open spec fn empty_object() -> JsonV {
    JsonV::Object(seq![])
}

/// An empty JSON object.
pub fn empty_obj() -> (j: Json)
    ensures
        j@ == empty_object(),
{
    let v: Vec<(String, Json)> = Vec::new();
    let j = object(v);
    assert(Seq::new(v@.len(), |i: int| (v@[i].0@, v@[i].1@)) =~= Seq::<(Seq<char>, JsonV)>::empty());
    j
}

} // verus!
