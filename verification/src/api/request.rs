//! From a command's plan to an HTTP request, and from the answer to what is
//! shown: the method, path and JSON:API query parameters of each call, the
//! reading of the response status, and the payload that follows.

use vstd::prelude::*;
use crate::api::error::{map_error, map_error_spec, ErrorDoc};
use crate::error::Error;
use crate::json::{get_spec, obj2, Json, JsonV};
use crate::output::dispatch::{items_view, Payload};
use crate::resources::common::{Call, ListArgs, Show};
use crate::text::{
    concat, concat3, copy_str, decimal, join, join_spec, opt_view, split_once, split_once_spec, texts_view,
    to_decimal,
};

verus! {

/// The HTTP methods the API is called with.
#[derive(Debug, Clone, Copy, PartialEq, Eq, Structural)]
pub enum Method {
    Get,
    Post,
    Patch,
    Delete,
}

/// Where the body of a request comes from.
#[derive(Debug)]
pub enum Body {
    /// No body.
    Empty,
    /// A JSON document read from a file, or from stdin for `-`.
    FromFile(String),
    /// A JSON document built by the command.
    Document(Json),
}

/// One API request: method, path below the base URL, query parameters,
/// body, and the `--filter` entries the answer is audited against.
#[derive(Debug)]
pub struct Request {
    pub method: Method,
    pub path: String,
    pub query: Vec<(String, String)>,
    pub body: Body,
    pub audit: Vec<String>,
}

/// The view of query parameters.
pub open spec fn params_view(q: Seq<(String, String)>) -> Seq<(Seq<char>, Seq<char>)> {
    Seq::new(q.len(), |i: int| (q[i].0@, q[i].1@))
}

/// The `filter[<key>]=<value>` parameters of `--filter key=value` entries;
/// entries without `=` are left out.
pub open spec fn filter_params(filters: Seq<Seq<char>>) -> Seq<(Seq<char>, Seq<char>)>
    decreases filters.len(),
{
    if filters.len() == 0 {
        seq![]
    } else {
        let rest = filter_params(filters.drop_last());
        match split_once_spec(filters.last(), '=') {
            Some((k, v)) => rest.push(("filter["@ + k + "]"@, v)),
            None => rest,
        }
    }
}

/// The `include=<a>,<b>` parameter, present when something is included.
pub open spec fn include_param(includes: Seq<String>) -> Seq<(Seq<char>, Seq<char>)> {
    if includes.len() == 0 {
        seq![]
    } else {
        seq![("include"@, join_spec(texts_view(includes), ','))]
    }
}

/// The query parameters of a list: the filters, the page number and size,
/// the sort field and the included relations.
pub open spec fn list_query_spec(args: ListArgs) -> Seq<(Seq<char>, Seq<char>)> {
    filter_params(texts_view(args.filter@)) + seq![
        ("page[number]"@, decimal(args.page as nat)),
        ("page[size]"@, decimal(args.limit as nat)),
    ] + match args.sort {
        Some(s) => seq![("sort"@, s@)],
        None => seq![],
    } + include_param(args.includes@)
}

/// The message of a create or update without a body.
pub open spec fn body_required_msg() -> Seq<char> {
    "--from-file <json>|- is required to send a request body"@
}

/// Whether `r` is the request with these parts and no audit.
pub open spec fn is_request(
    r: Request,
    method: Method,
    path: Seq<char>,
    query: Seq<(Seq<char>, Seq<char>)>,
) -> bool {
    r.method == method && r.path@ == path && params_view(r.query@) == query && r.audit@.len() == 0
}

/// The body source of a create or update.
pub open spec fn file_body(r: Request, from_file: Option<String>) -> bool {
    match from_file {
        Some(f) => r.body matches Body::FromFile(p) && p@ == f@,
        None => false,
    }
}

/// The request a call makes, or the error that stops it.
pub open spec fn request_spec(c: Call, r: Result<Request, Error>) -> bool {
    match c {
        Call::List { crud, args } => r matches Ok(q) && q.method == Method::Get && q.path@
            == crud.path@ && params_view(q.query@) == list_query_spec(args) && q.body is Empty
            && texts_view(q.audit@) == texts_view(args.filter@),
        Call::Get { crud, args } => r matches Ok(q) && is_request(
            q,
            Method::Get,
            crud.path@ + "/"@ + args.id@,
            include_param(args.includes@),
        ) && q.body is Empty,
        Call::Create { crud, args } => match args.from_file {
            Some(_) => r matches Ok(q) && is_request(q, Method::Post, crud.path@, seq![]) && file_body(
                q,
                args.from_file,
            ),
            None => r matches Err(Error::User(m)) && m@ == body_required_msg(),
        },
        Call::Update { crud, args } => match args.from_file {
            Some(_) => r matches Ok(q) && is_request(
                q,
                Method::Patch,
                crud.path@ + "/"@ + args.id@,
                seq![],
            ) && file_body(q, args.from_file),
            None => r matches Err(Error::User(m)) && m@ == body_required_msg(),
        },
        Call::Delete { crud, args } => r matches Ok(q) && is_request(
            q,
            Method::Delete,
            crud.path@ + "/"@ + args.id@,
            seq![],
        ) && q.body is Empty,
        Call::Fetch { path } => r matches Ok(q) && is_request(q, Method::Get, path@, seq![])
            && q.body is Empty,
        Call::Send { path, body } => r matches Ok(q) && is_request(q, Method::Post, path@, seq![])
            && (q.body matches Body::Document(b) && b@ == body@),
        Call::Remove { path } => r matches Ok(q) && is_request(q, Method::Delete, path@, seq![])
            && q.body is Empty,
    }
}

fn copy_texts(v: &Vec<String>) -> (r: Vec<String>)
    ensures
        texts_view(r@) == texts_view(v@),
{
    let n = v.len();
    let mut out: Vec<String> = Vec::new();
    let mut i: usize = 0;
    while i < n
        invariant
            n == v@.len(),
            i <= n,
            out@.len() == i,
            forall|k: int| 0 <= k < i ==> #[trigger] out@[k]@ == v@[k]@,
        decreases n - i,
    {
        out.push(copy_str(&v[i]));
        i = i + 1;
    }
    assert(texts_view(out@) =~= texts_view(v@));
    out
}

fn push_param(q: &mut Vec<(String, String)>, key: String, value: String)
    ensures
        params_view(final(q)@) == params_view(old(q)@).push((key@, value@)),
{
    let ghost before = params_view(q@);
    q.push((key, value));
    assert(params_view(q@) =~= before.push((key@, value@)));
}

fn include_query(includes: &Vec<String>) -> (r: Vec<(String, String)>)
    ensures
        params_view(r@) == include_param(includes@),
{
    let mut q: Vec<(String, String)> = Vec::new();
    if includes.len() > 0 {
        proof {
            reveal_strlit(",");
        }
        push_param(&mut q, String::from_str("include"), join(includes, ","));
        assert(params_view(q@) =~= include_param(includes@));
    } else {
        assert(params_view(q@) =~= include_param(includes@));
    }
    q
}

/// The query parameters of a list request.
pub fn list_query(args: &ListArgs) -> (r: Vec<(String, String)>)
    ensures
        params_view(r@) == list_query_spec(*args),
{
    let mut q: Vec<(String, String)> = Vec::new();
    let n = args.filter.len();
    let mut i: usize = 0;
    assert(texts_view(args.filter@).take(0) =~= Seq::<Seq<char>>::empty());
    while i < n
        invariant
            n == args.filter@.len(),
            i <= n,
            params_view(q@) == filter_params(texts_view(args.filter@).take(i as int)),
        decreases n - i,
    {
        let ghost t = texts_view(args.filter@).take(i + 1);
        proof {
            assert(t.drop_last() =~= texts_view(args.filter@).take(i as int));
            assert(t.last() == args.filter@[i as int]@);
        }
        match split_once(args.filter[i].as_str(), '=') {
            Some((k, v)) => {
                let key = concat3("filter[", k.as_str(), "]");
                push_param(&mut q, key, v);
            },
            None => {},
        }
        i = i + 1;
    }
    assert(texts_view(args.filter@).take(n as int) =~= texts_view(args.filter@));
    push_param(&mut q, String::from_str("page[number]"), to_decimal(args.page));
    push_param(&mut q, String::from_str("page[size]"), to_decimal(args.limit));
    match &args.sort {
        Some(s) => push_param(&mut q, String::from_str("sort"), copy_str(s)),
        None => {},
    }
    let ghost before = params_view(q@);
    let inc = include_query(&args.includes);
    let mut k: usize = 0;
    let m = inc.len();
    while k < m
        invariant
            m == inc@.len(),
            k <= m,
            params_view(q@) == before + params_view(inc@).take(k as int),
        decreases m - k,
    {
        let ghost prev = params_view(q@);
        push_param(&mut q, copy_str(&inc[k].0), copy_str(&inc[k].1));
        assert(params_view(inc@).take(k + 1) =~= params_view(inc@).take(k as int).push(
            (inc@[k as int].0@, inc@[k as int].1@),
        ));
        k = k + 1;
    }
    assert(params_view(inc@).take(m as int) =~= params_view(inc@));
    assert(params_view(q@) =~= list_query_spec(*args));
    q
}

fn no_params() -> (q: Vec<(String, String)>)
    ensures
        params_view(q@) == Seq::<(Seq<char>, Seq<char>)>::empty(),
        q@.len() == 0,
{
    let q: Vec<(String, String)> = Vec::new();
    assert(params_view(q@) =~= Seq::<(Seq<char>, Seq<char>)>::empty());
    q
}

fn member_path(base: &str, id: &String) -> (r: String)
    ensures
        r@ == base@ + "/"@ + id@,
{
    concat3(base, "/", id.as_str())
}

/// The request a call makes. Creating and updating send the document given
/// with `--from-file`, and need one.
pub fn request_of(call: &Call) -> (r: Result<Request, Error>)
    ensures
        request_spec(*call, r),
{
    match call {
        Call::List { crud, args } => {
            let query = list_query(args);
            let audit = copy_texts(&args.filter);
            let q = Request { method: Method::Get, path: String::from_str(crud.path), query, body: Body::Empty, audit };
            assert(params_view(q.query@) == list_query_spec(*args));
            assert(texts_view(q.audit@) == texts_view(args.filter@));
            Ok(q)
        },
        Call::Get { crud, args } => Ok(
            Request {
                method: Method::Get,
                path: member_path(crud.path, &args.id),
                query: include_query(&args.includes),
                body: Body::Empty,
                audit: Vec::new(),
            },
        ),
        Call::Create { crud, args } => match &args.from_file {
            Some(f) => Ok(
                Request {
                    method: Method::Post,
                    path: String::from_str(crud.path),
                    query: no_params(),
                    body: Body::FromFile(copy_str(f)),
                    audit: Vec::new(),
                },
            ),
            None => Err(Error::user("--from-file <json>|- is required to send a request body")),
        },
        Call::Update { crud, args } => match &args.from_file {
            Some(f) => Ok(
                Request {
                    method: Method::Patch,
                    path: member_path(crud.path, &args.id),
                    query: no_params(),
                    body: Body::FromFile(copy_str(f)),
                    audit: Vec::new(),
                },
            ),
            None => Err(Error::user("--from-file <json>|- is required to send a request body")),
        },
        Call::Delete { crud, args } => Ok(
            Request {
                method: Method::Delete,
                path: member_path(crud.path, &args.id),
                query: no_params(),
                body: Body::Empty,
                audit: Vec::new(),
            },
        ),
        Call::Fetch { path } => Ok(
            Request {
                method: Method::Get,
                path: copy_str(path),
                query: no_params(),
                body: Body::Empty,
                audit: Vec::new(),
            },
        ),
        Call::Send { path, body } => Ok(
            Request {
                method: Method::Post,
                path: copy_str(path),
                query: no_params(),
                body: Body::Document(body.deep_copy()),
                audit: Vec::new(),
            },
        ),
        Call::Remove { path } => Ok(
            Request {
                method: Method::Delete,
                path: copy_str(path),
                query: no_params(),
                body: Body::Empty,
                audit: Vec::new(),
            },
        ),
    }
}

/// Whether an HTTP status is a success (2xx).
pub open spec fn is_success(status: u16) -> bool {
    200 <= status < 300
}

/// Read an answer: on success its JSON document (`null` for an empty
/// body, a serde error when it does not parse); otherwise the API error of
/// its status, request id and error document.
pub fn read_response(
    status: u16,
    request_id: Option<String>,
    empty: bool,
    body: Result<Json, String>,
    doc: Option<ErrorDoc>,
) -> (r: Result<Json, Error>)
    ensures
        is_success(status) && empty ==> (r matches Ok(j) && j@ == JsonV::Null),
        is_success(status) && !empty ==> match body {
            Ok(j) => r matches Ok(k) && k@ == j@,
            Err(m) => r matches Err(Error::Serde(e)) && e@ == m@,
        },
        !is_success(status) ==> (r matches Err(e) && map_error_spec(status, opt_view(request_id), doc, e)),
{
    if 200 <= status && status < 300 {
        if empty {
            Ok(Json::Null)
        } else {
            match body {
                Ok(j) => Ok(j),
                Err(m) => Err(Error::Serde(m)),
            }
        }
    } else {
        Err(map_error(status, request_id, doc))
    }
}

/// What a finished command prints.
#[derive(Debug)]
pub enum Outcome {
    /// A payload, rendered in the active format.
    Show(Payload),
    /// A JSON document printed as is, whatever the format.
    Print(Json),
}

/// The `data` member of an answer (`null` when absent).
pub open spec fn data_of(doc: JsonV) -> JsonV {
    match get_spec(doc, "data"@) {
        Some(d) => d,
        None => JsonV::Null,
    }
}

/// What is shown once a request succeeded with the answer `doc`.
pub open spec fn outcome_spec(show: Show, doc: JsonV, o: Outcome) -> bool {
    match show {
        Show::ResponseList => o matches Outcome::Show(Payload::List(items)) && items_view(items@)
            == match data_of(doc) {
            JsonV::Array(a) => a,
            _ => seq![],
        },
        Show::ResponseSingle => o matches Outcome::Show(Payload::Single(d)) && d@ == data_of(doc),
        Show::Fixed(p) => o == Outcome::Show(p),
        Show::ResponseEnvelope => o matches Outcome::Print(j) && j@ == JsonV::Object(
            seq![("ok"@, JsonV::Bool(true)), ("data"@, data_of(doc))],
        ),
        Show::FixedJson(j) => o == Outcome::Print(j),
    }
}

fn data_member(doc: &Json) -> (r: Json)
    ensures
        r@ == data_of(doc@),
{
    match doc.get("data") {
        Some(d) => d.deep_copy(),
        None => Json::Null,
    }
}

/// What is shown once a request succeeded with the answer `doc`: the
/// answer's `data` as a list, as a single resource or in the success
/// envelope, or the plan's fixed payload.
pub fn outcome(show: Show, doc: &Json) -> (o: Outcome)
    ensures
        outcome_spec(show, doc@, o),
{
    match show {
        Show::ResponseList => {
            let data = data_member(doc);
            match data {
                Json::Array(items) => {
                    proof {
                        assert(items_view(items@) =~= data@->Array_0) by {
                            assert forall|i: int| 0 <= i < items@.len() implies items_view(items@)[i]
                                == data@->Array_0[i] by {
                                crate::json::lemma_array_view(items, i);
                            }
                            crate::json::lemma_array_len(items);
                        }
                    }
                    Outcome::Show(Payload::List(items))
                },
                _ => {
                    let empty: Vec<Json> = Vec::new();
                    assert(items_view(empty@) =~= Seq::<JsonV>::empty());
                    Outcome::Show(Payload::List(empty))
                },
            }
        },
        Show::ResponseSingle => Outcome::Show(Payload::Single(data_member(doc))),
        Show::Fixed(p) => Outcome::Show(p),
        Show::ResponseEnvelope => Outcome::Print(obj2("ok", Json::Bool(true), "data", data_member(doc))),
        Show::FixedJson(j) => Outcome::Print(j),
    }
}

} // verus!
