//! Resource: webhook endpoints and events.

use vstd::prelude::*;
use crate::error::Error;
use crate::json::{empty_obj, empty_object, obj1, Json, JsonV};
use crate::output::dispatch::Payload;
use crate::resources::common::{
    creates, deletes, gets, lists, sends, shows_bag, updates, Call, CreateArgs, Crud, DeleteArgs,
    GetArgs, ListArgs, Plan, Show, UpdateArgs,
};
use crate::text::concat3;

verus! {

/// The `keygen webhook` subcommands.
#[derive(Debug)]
pub enum Cmd {
    /// Manage webhook endpoints.
    Endpoint(EndpointCmd),
    /// Inspect webhook events.
    Event(EventCmd),
}

/// The `keygen webhook endpoint` subcommands.
#[derive(Debug)]
pub enum EndpointCmd {
    List(ListArgs),
    Get(GetArgs),
    Create(CreateArgs),
    Update(UpdateArgs),
    Delete(DeleteArgs),
    /// Send a test event to an endpoint.
    Test { id: String },
}

/// The `keygen webhook event` subcommands.
#[derive(Debug)]
pub enum EventCmd {
    List(ListArgs),
    Get(GetArgs),
    /// Retry a failed event.
    Retry { id: String },
}

fn endpoint_crud() -> (c: Crud)
    ensures
        c.path@ == "/webhook-endpoints"@,
{
    Crud::new("webhook-endpoints", "/webhook-endpoints")
}

fn event_crud() -> (c: Crud)
    ensures
        c.path@ == "/webhook-events"@,
{
    Crud::new("webhook-events", "/webhook-events")
}

/// What a `keygen webhook` command requests and shows.
pub open spec fn planned(cmd: Cmd, r: Result<Plan, Error>) -> bool {
    match cmd {
        Cmd::Endpoint(c) => endpoint_plan(c, r),
        Cmd::Event(c) => event_plan(c, r),
    }
}

/// Plan a `keygen webhook` command.
pub fn dispatch(cmd: Cmd) -> (r: Result<Plan, Error>)
    ensures
        planned(cmd, r),
{
    match cmd {
        Cmd::Endpoint(c) => endpoint(c),
        Cmd::Event(c) => event(c),
    }
}

/// What a `keygen webhook endpoint` command requests and shows.
pub open spec fn endpoint_plan(c: EndpointCmd, r: Result<Plan, Error>) -> bool {
    match c {
        EndpointCmd::List(_) => r matches Ok(p) && lists(p.call, "/webhook-endpoints"@) && p.show is ResponseList,
        EndpointCmd::Get(args) => r matches Ok(p) && gets(p.call, "/webhook-endpoints"@, args.id@) && p.show is ResponseSingle,
        EndpointCmd::Create(_) => r matches Ok(p) && creates(p.call, "/webhook-endpoints"@) && p.show is ResponseSingle,
        EndpointCmd::Update(args) => r matches Ok(p) && updates(p.call, "/webhook-endpoints"@, args.id@) && p.show is ResponseSingle,
        EndpointCmd::Delete(args) => r matches Ok(p) && deletes(p.call, "/webhook-endpoints"@, args.id@) && shows_bag(
            p.show,
            JsonV::Object(seq![("deleted"@, JsonV::Str(args.id@))]),
        ),
        EndpointCmd::Test { id } => r matches Ok(p) && sends(
            p.call,
            "/webhook-endpoints/"@ + id@ + "/actions/test"@,
            empty_object(),
        ) && p.show is ResponseSingle,
    }
}

/// What a `keygen webhook event` command requests and shows.
pub open spec fn event_plan(c: EventCmd, r: Result<Plan, Error>) -> bool {
    match c {
        EventCmd::List(_) => r matches Ok(p) && lists(p.call, "/webhook-events"@) && p.show is ResponseList,
        EventCmd::Get(args) => r matches Ok(p) && gets(p.call, "/webhook-events"@, args.id@) && p.show is ResponseSingle,
        EventCmd::Retry { id } => r matches Ok(p) && sends(
            p.call,
            "/webhook-events/"@ + id@ + "/actions/retry"@,
            empty_object(),
        ) && p.show is ResponseSingle,
    }
}

fn endpoint(cmd: EndpointCmd) -> (r: Result<Plan, Error>)
    ensures
        endpoint_plan(cmd, r),
{
    match cmd {
        EndpointCmd::List(args) => Ok(Plan { call: Call::List { crud: endpoint_crud(), args }, show: Show::ResponseList }),
        EndpointCmd::Get(args) => Ok(Plan { call: Call::Get { crud: endpoint_crud(), args }, show: Show::ResponseSingle }),
        EndpointCmd::Create(args) => Ok(Plan { call: Call::Create { crud: endpoint_crud(), args }, show: Show::ResponseSingle }),
        EndpointCmd::Update(args) => Ok(Plan { call: Call::Update { crud: endpoint_crud(), args }, show: Show::ResponseSingle }),
        EndpointCmd::Delete(args) => {
            let bag = obj1("deleted", Json::string(args.id.as_str()));
            Ok(Plan { call: Call::Delete { crud: endpoint_crud(), args }, show: Show::Fixed(Payload::Bag(bag)) })
        },
        EndpointCmd::Test { id } => {
            let path = concat3("/webhook-endpoints/", id.as_str(), "/actions/test");
            Ok(Plan { call: Call::Send { path, body: empty_obj() }, show: Show::ResponseSingle })
        },
    }
}

fn event(cmd: EventCmd) -> (r: Result<Plan, Error>)
    ensures
        event_plan(cmd, r),
{
    match cmd {
        EventCmd::List(args) => Ok(Plan { call: Call::List { crud: event_crud(), args }, show: Show::ResponseList }),
        EventCmd::Get(args) => Ok(Plan { call: Call::Get { crud: event_crud(), args }, show: Show::ResponseSingle }),
        EventCmd::Retry { id } => {
            let path = concat3("/webhook-events/", id.as_str(), "/actions/retry");
            Ok(Plan { call: Call::Send { path, body: empty_obj() }, show: Show::ResponseSingle })
        },
    }
}

} // verus!
