//! One module per keygen.sh resource: a `Cmd` enum (the subcommand surface)
//! and its `dispatch`. The shared CRUD pattern lives in `common`.
pub mod artifact;
pub mod common;
pub mod component;
pub mod entitlement;
pub mod event_log;
pub mod group;
pub mod license;
pub mod machine;
pub mod package;
pub mod policy;
pub mod process;
pub mod product;
pub mod release;
pub mod request_log;
pub mod token;
pub mod user;
pub mod webhook;

use vstd::prelude::*;
use crate::capability::Capabilities;
use crate::cli::context::Context;
use crate::cli::resources::ResourceCommand;
use crate::error::Error;
use common::Plan;

verus! {

/// The error of a resource whose commands are not available yet.
fn pending(r: Result<(), Error>) -> (out: Result<Plan, Error>)
    requires
        r is Err,
    ensures
        match (out, r) {
            (Err(a), Err(b)) => a == b,
            _ => false,
        },
{
    match r {
        Err(e) => Err(e),
        Ok(()) => vstd::pervasive::unreached(),
    }
}

/// Whether routing a resource command reads the deployment's capabilities
/// (only the request-log commands are gated on them).
pub fn needs_capabilities(cmd: &ResourceCommand) -> (r: bool)
    ensures
        r == (*cmd is RequestLog),
{
    match cmd {
        ResourceCommand::RequestLog(_) => true,
        _ => false,
    }
}

/// Route a resource command to its resource: the request it makes and what
/// is shown afterwards, or the error that stops it. `caps` are the detected
/// capabilities of the deployment.
pub fn dispatch(ctx: &Context, caps: &Capabilities, cmd: ResourceCommand) -> (r: Result<Plan, Error>)
    ensures
        match cmd {
            ResourceCommand::Token(_) => r matches Err(Error::User(m)) && m@ == "token commands not yet implemented (CRUD scaffolding)"@,
            ResourceCommand::Product(c) => product::planned(c, r),
            ResourceCommand::Policy(_) => r matches Err(Error::User(m)) && m@ == "policy commands not yet implemented (CRUD scaffolding)"@,
            ResourceCommand::License(_) => r matches Err(Error::User(m)) && m@ == "license commands not yet implemented (CRUD + actions scaffolding)"@,
            ResourceCommand::Entitlement(_) => r matches Err(Error::User(m)) && m@ == "entitlement commands not yet implemented (CRUD scaffolding)"@,
            ResourceCommand::User(c) => user::planned(c, r),
            ResourceCommand::Group(_) => r matches Err(Error::User(m)) && m@ == "group commands not yet implemented (CRUD scaffolding)"@,
            ResourceCommand::Machine(_) => r matches Err(Error::User(m)) && m@ == "machine commands not yet implemented (CRUD + actions scaffolding)"@,
            ResourceCommand::Component(_) => r matches Err(Error::User(m)) && m@ == "component commands not yet implemented (CRUD scaffolding)"@,
            ResourceCommand::Process(_) => r matches Err(Error::User(m)) && m@ == "process commands not yet implemented (CRUD + actions scaffolding)"@,
            ResourceCommand::Release(_) => r matches Err(Error::User(m)) && m@ == "release commands not yet implemented (CRUD + actions scaffolding)"@,
            ResourceCommand::Artifact(_) => r matches Err(Error::User(m)) && m@ == "artifact commands not yet implemented (CRUD + actions scaffolding)"@,
            ResourceCommand::Package(_) => r matches Err(Error::User(m)) && m@ == "package commands not yet implemented (CRUD scaffolding)"@,
            ResourceCommand::Webhook(c) => webhook::planned(c, r),
            ResourceCommand::RequestLog(c) => request_log::planned(*caps, ctx.inner.profile.deployment, c, r),
            ResourceCommand::EventLog(_) => r matches Err(Error::User(m)) && m@ == "event_log commands not yet implemented (CRUD scaffolding)"@,
        },
{
    match cmd {
        ResourceCommand::Token(c) => pending(token::dispatch(ctx, c)),
        ResourceCommand::Product(c) => product::dispatch(c),
        ResourceCommand::Policy(c) => pending(policy::dispatch(ctx, c)),
        ResourceCommand::License(c) => pending(license::dispatch(ctx, c)),
        ResourceCommand::Entitlement(c) => pending(entitlement::dispatch(ctx, c)),
        ResourceCommand::User(c) => user::dispatch(c),
        ResourceCommand::Group(c) => pending(group::dispatch(ctx, c)),
        ResourceCommand::Machine(c) => pending(machine::dispatch(ctx, c)),
        ResourceCommand::Component(c) => pending(component::dispatch(ctx, c)),
        ResourceCommand::Process(c) => pending(process::dispatch(ctx, c)),
        ResourceCommand::Release(c) => pending(release::dispatch(ctx, c)),
        ResourceCommand::Artifact(c) => pending(artifact::dispatch(ctx, c)),
        ResourceCommand::Package(c) => pending(package::dispatch(ctx, c)),
        ResourceCommand::Webhook(c) => webhook::dispatch(c),
        ResourceCommand::RequestLog(c) => request_log::dispatch(caps, ctx.profile(), c),
        ResourceCommand::EventLog(c) => pending(event_log::dispatch(ctx, c)),
    }
}

} // verus!
