//! Resource: product. Its answers are always printed as the JSON envelope.

use vstd::prelude::*;
use crate::error::Error;
use crate::json::{obj1, obj2, Json, JsonV};
use crate::resources::common::{
    creates, deletes, fetches, gets, lists, shows_json, updates, Call, CreateArgs, Crud, DeleteArgs,
    GetArgs, ListArgs, Plan, Show, UpdateArgs,
};
use crate::text::concat3;

verus! {

/// The `keygen product` subcommands.
#[derive(Debug)]
pub enum Cmd {
    List(ListArgs),
    Get(GetArgs),
    Create(CreateArgs),
    Update(UpdateArgs),
    Delete(DeleteArgs),
    /// List tokens that scope to a product.
    Tokens { id: String },
}

fn crud() -> (c: Crud)
    ensures
        c.path@ == "/products"@,
{
    Crud::new("products", "/products")
}

/// What a `keygen product` command requests and shows.
pub open spec fn planned(cmd: Cmd, r: Result<Plan, Error>) -> bool {
    match cmd {
        Cmd::List(_) => r matches Ok(p) && lists(p.call, "/products"@) && p.show is ResponseEnvelope,
        Cmd::Get(args) => r matches Ok(p) && gets(p.call, "/products"@, args.id@) && p.show is ResponseEnvelope,
        Cmd::Create(_) => r matches Ok(p) && creates(p.call, "/products"@) && p.show is ResponseEnvelope,
        Cmd::Update(args) => r matches Ok(p) && updates(p.call, "/products"@, args.id@) && p.show is ResponseEnvelope,
        Cmd::Delete(args) => r matches Ok(p) && deletes(p.call, "/products"@, args.id@) && shows_json(
            p.show,
            JsonV::Object(
                seq![("ok"@, JsonV::Bool(true)), ("data"@, JsonV::Object(seq![("deleted"@, JsonV::Str(args.id@))]))],
            ),
        ),
        Cmd::Tokens { id } => r matches Ok(p) && fetches(p.call, "/products/"@ + id@ + "/tokens"@)
            && p.show is ResponseEnvelope,
    }
}

/// Plan a `keygen product` command; every answer is printed as
/// `{ "ok": true, "data": ... }`.
pub fn dispatch(cmd: Cmd) -> (r: Result<Plan, Error>)
    ensures
        planned(cmd, r),
{
    match cmd {
        Cmd::List(args) => Ok(Plan { call: Call::List { crud: crud(), args }, show: Show::ResponseEnvelope }),
        Cmd::Get(args) => Ok(Plan { call: Call::Get { crud: crud(), args }, show: Show::ResponseEnvelope }),
        Cmd::Create(args) => Ok(Plan { call: Call::Create { crud: crud(), args }, show: Show::ResponseEnvelope }),
        Cmd::Update(args) => Ok(Plan { call: Call::Update { crud: crud(), args }, show: Show::ResponseEnvelope }),
        Cmd::Delete(args) => {
            let data = obj1("deleted", Json::string(args.id.as_str()));
            let doc = obj2("ok", Json::Bool(true), "data", data);
            Ok(Plan { call: Call::Delete { crud: crud(), args }, show: Show::FixedJson(doc) })
        },
        Cmd::Tokens { id } => {
            let path = concat3("/products/", id.as_str(), "/tokens");
            Ok(Plan { call: Call::Fetch { path }, show: Show::ResponseEnvelope })
        },
    }
}

} // verus!
