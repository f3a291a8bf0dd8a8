//! Shared building blocks of the resource subcommands.
//!
//! Every resource follows the same CRUD shape:
//!
//! ```text
//! keygen <resource> list      [--filter k=v ...] [--limit N] [--page N] [--include rel] [--sort field]
//! keygen <resource> get       <id> [--include rel]
//! keygen <resource> create    [--from-file <json>|-] [--<attr> ...] [--metadata k=v ...]
//! keygen <resource> update    <id> [--from-file <json>|-] [--<attr> ...]
//! keygen <resource> delete    <id> [--yes]
//! ```

use vstd::prelude::*;
use crate::json::Json;
use crate::output::dispatch::Payload;

verus! {

/// Options of `list`.
#[derive(Debug)]
pub struct ListArgs {
    /// Filter rows. May be passed multiple times: `--filter status=ACTIVE`.
    pub filter: Vec<String>,
    /// Page number (1-based).
    pub page: u64,
    /// Page size.
    pub limit: u64,
    /// Sort field (prefix with `-` for descending).
    pub sort: Option<String>,
    /// Include related resources, comma separated.
    pub includes: Vec<String>,
}

/// Options of `get`.
#[derive(Debug)]
pub struct GetArgs {
    /// Resource id.
    pub id: String,
    /// Include related resources, comma separated.
    pub includes: Vec<String>,
}

/// Options of `delete`.
#[derive(Debug)]
pub struct DeleteArgs {
    /// Resource id.
    pub id: String,
    /// Skip the confirmation prompt.
    pub yes: bool,
}

/// Options of `create`.
#[derive(Debug)]
pub struct CreateArgs {
    /// Read the full JSON body from a file (or `-` for stdin).
    pub from_file: Option<String>,
    /// Metadata entries `k=v`. May be repeated.
    pub metadata: Vec<String>,
    /// JSONPath-style attribute overrides, e.g. `--set attrs.maxMachines=5`.
    pub set: Vec<String>,
}

/// Options of `update`.
#[derive(Debug)]
pub struct UpdateArgs {
    /// Resource id.
    pub id: String,
    /// Read the full JSON body from a file (or `-` for stdin).
    pub from_file: Option<String>,
    /// Metadata entries `k=v`. May be repeated.
    pub metadata: Vec<String>,
    /// JSONPath-style attribute overrides.
    pub set: Vec<String>,
}

/// The CRUD surface of one resource: its JSON:API type and collection path.
#[derive(Debug, Clone, Copy)]
pub struct Crud {
    pub kind: &'static str,
    pub path: &'static str,
}

impl Crud {
    /// The CRUD surface of the resource of type `kind` under `path`.
    pub fn new(kind: &'static str, path: &'static str) -> (c: Crud)
        ensures
            c.kind == kind,
            c.path == path,
    {
        Crud { kind, path }
    }
}


/// The API request a command makes.
#[allow(inconsistent_fields)]
#[derive(Debug)]
pub enum Call {
    /// `GET <collection>` with the list options.
    List { crud: Crud, args: ListArgs },
    /// `GET <collection>/<id>`.
    Get { crud: Crud, args: GetArgs },
    /// `POST <collection>`.
    Create { crud: Crud, args: CreateArgs },
    /// `PATCH <collection>/<id>`.
    Update { crud: Crud, args: UpdateArgs },
    /// `DELETE <collection>/<id>`.
    Delete { crud: Crud, args: DeleteArgs },
    /// `GET` a collection at `path`.
    Fetch { path: String },
    /// `POST` `body` to `path`.
    Send { path: String, body: Json },
    /// `DELETE` `path`.
    Remove { path: String },
}

/// What is shown once the request succeeded.
#[derive(Debug)]
pub enum Show {
    /// The response's data, as a list.
    ResponseList,
    /// The response's data, as a single resource.
    ResponseSingle,
    /// A fixed payload.
    Fixed(Payload),
    /// `{ "ok": true, "data": <response data> }` printed as JSON whatever the
    /// format.
    ResponseEnvelope,
    /// A fixed value printed as JSON whatever the format.
    FixedJson(Json),
}

/// A command's request and what follows it.
#[derive(Debug)]
pub struct Plan {
    pub call: Call,
    pub show: Show,
}


/// Whether a call is the list request of the collection at `path`.
pub open spec fn lists(c: Call, path: Seq<char>) -> bool {
    match c {
        Call::List { crud, .. } => crud.path@ == path,
        _ => false,
    }
}

/// Whether a call is the get request of the collection at `path` for `id`.
pub open spec fn gets(c: Call, path: Seq<char>, id: Seq<char>) -> bool {
    match c {
        Call::Get { crud, args } => crud.path@ == path && args.id@ == id,
        _ => false,
    }
}

/// Whether a call is the create request of the collection at `path`.
pub open spec fn creates(c: Call, path: Seq<char>) -> bool {
    match c {
        Call::Create { crud, .. } => crud.path@ == path,
        _ => false,
    }
}

/// Whether a call is the update request of the collection at `path` for `id`.
pub open spec fn updates(c: Call, path: Seq<char>, id: Seq<char>) -> bool {
    match c {
        Call::Update { crud, args } => crud.path@ == path && args.id@ == id,
        _ => false,
    }
}

/// Whether a call is the delete request of the collection at `path` for `id`.
pub open spec fn deletes(c: Call, path: Seq<char>, id: Seq<char>) -> bool {
    match c {
        Call::Delete { crud, args } => crud.path@ == path && args.id@ == id,
        _ => false,
    }
}

/// Whether a call fetches the collection at `path`.
pub open spec fn fetches(c: Call, path: Seq<char>) -> bool {
    match c {
        Call::Fetch { path: p } => p@ == path,
        _ => false,
    }
}

/// Whether a call posts `body` to `path`.
pub open spec fn sends(c: Call, path: Seq<char>, body: crate::json::JsonV) -> bool {
    match c {
        Call::Send { path: p, body: b } => p@ == path && b@ == body,
        _ => false,
    }
}

/// Whether a call deletes `path`.
pub open spec fn removes(c: Call, path: Seq<char>) -> bool {
    match c {
        Call::Remove { path: p } => p@ == path,
        _ => false,
    }
}

/// Whether what is shown is the fixed bag `v`.
pub open spec fn shows_bag(s: Show, v: crate::json::JsonV) -> bool {
    match s {
        Show::Fixed(Payload::Bag(j)) => j@ == v,
        _ => false,
    }
}

/// Whether what is shown is the fixed JSON value `v`, printed as JSON.
pub open spec fn shows_json(s: Show, v: crate::json::JsonV) -> bool {
    match s {
        Show::FixedJson(j) => j@ == v,
        _ => false,
    }
}

} // verus!
