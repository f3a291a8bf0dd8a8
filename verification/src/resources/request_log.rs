//! Resource: request log (EE only). Read-only.

use vstd::prelude::*;
use crate::capability::Capabilities;
use crate::config::profile::{Deployment, Profile};
use crate::error::Error;
use crate::resources::common::{gets, lists, Call, Crud, GetArgs, ListArgs, Plan, Show};

verus! {

/// The `keygen request-log` subcommands.
#[derive(Debug)]
pub enum Cmd {
    List(ListArgs),
    Get(GetArgs),
}

fn crud() -> (c: Crud)
    ensures
        c.path@ == "/request-logs"@,
{
    Crud::new("request-logs", "/request-logs")
}

/// What a `keygen request-log` command requests and shows on a deployment
/// of kind `deployment` with `caps`.
pub open spec fn planned(caps: Capabilities, deployment: Deployment, cmd: Cmd, r: Result<Plan, Error>) -> bool {
    &&& !caps.request_logs && deployment == Deployment::Ce ==> (r matches Err(Error::Capability(m))
        && m@ == "request-logs require keygen.sh Official or EE"@)
    &&& caps.request_logs || deployment != Deployment::Ce ==> match cmd {
        Cmd::List(_) => r matches Ok(p) && lists(p.call, "/request-logs"@) && p.show is ResponseList,
        Cmd::Get(args) => r matches Ok(p) && gets(p.call, "/request-logs"@, args.id@) && p.show is ResponseSingle,
    }
}

/// Plan a `keygen request-log` command on a deployment with `caps`: refused
/// on CE when the capability check found no request logs.
pub fn dispatch(caps: &Capabilities, profile: &Profile, cmd: Cmd) -> (r: Result<Plan, Error>)
    ensures
        planned(*caps, profile.deployment, cmd, r),
{
    if !caps.request_logs && profile.deployment == Deployment::Ce {
        return Err(Error::capability("request-logs require keygen.sh Official or EE"));
    }
    match cmd {
        Cmd::List(args) => Ok(Plan { call: Call::List { crud: crud(), args }, show: Show::ResponseList }),
        Cmd::Get(args) => Ok(Plan { call: Call::Get { crud: crud(), args }, show: Show::ResponseSingle }),
    }
}

} // verus!
