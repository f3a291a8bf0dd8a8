//! `keygen env`: EE environments.

use vstd::prelude::*;
use crate::capability::Capabilities;
use crate::config::profile::{Deployment, Profile};
use crate::error::Error;
use crate::json::{obj1, obj2, opt_string, Json, JsonV};
use crate::output::dispatch::Payload;
use crate::resources::common::{lists, Call, Crud, ListArgs, Plan, Show};
use crate::text::opt_view;

verus! {

/// The `keygen env` subcommands.
#[derive(Debug)]
pub enum EnvCmd {
    /// List EE environments.
    List,
    /// Switch the active environment.
    Use { id: String },
    /// Print the active environment.
    Current,
}


/// What `keygen env` does after the capability check.
#[derive(Debug)]
pub enum EnvAction {
    /// Fetch the first hundred environments and show them as a list.
    FetchList,
    /// Show a payload.
    Show(Payload),
}

/// Whether a deployment may use environments: refused only on CE when the
/// capability check found none.
pub open spec fn environments_allowed(caps: Capabilities, d: Deployment) -> bool {
    caps.environments || d != Deployment::Ce
}

/// The hint shown by `keygen env use`.
pub open spec fn use_hint() -> Seq<char> {
    "set KEYGEN_ENV or pass --env <id> to use it on subsequent calls"@
}

/// The request listing the first `limit` environments, shown as a list.
pub fn environments_plan(limit: u64) -> (p: Plan)
    ensures
        lists(p.call, "/environments"@),
        p.call matches Call::List { args, .. } && args.page == 1 && args.limit == limit
            && args.filter@.len() == 0 && args.sort is None && args.includes@.len() == 0,
        p.show is ResponseList,
{
    let args = ListArgs { filter: Vec::new(), page: 1, limit, sort: None, includes: Vec::new() };
    Plan { call: Call::List { crud: Crud::new("environments", "/environments"), args }, show: Show::ResponseList }
}

/// Decide what `keygen env <cmd>` does on a deployment with `caps`.
pub fn dispatch(caps: &Capabilities, profile: &Profile, cmd: EnvCmd) -> (r: Result<EnvAction, Error>)
    ensures
        !environments_allowed(*caps, profile.deployment) ==> (r matches Err(Error::Capability(m)) && m@
            == "environments require keygen.sh Official or EE"@),
        environments_allowed(*caps, profile.deployment) ==> match cmd {
            EnvCmd::List => r matches Ok(EnvAction::FetchList),
            EnvCmd::Use { id } => r matches Ok(EnvAction::Show(Payload::Bag(j))) && j@ == JsonV::Object(
                seq![("env"@, JsonV::Str(id@)), ("hint"@, JsonV::Str(use_hint()))],
            ),
            EnvCmd::Current => r matches Ok(EnvAction::Show(Payload::Bag(j))) && j@ == JsonV::Object(
                seq![
                    ("env"@, match opt_view(profile.env) {
                        Some(e) => JsonV::Str(e),
                        None => JsonV::Null,
                    }),
                ],
            ),
        },
{
    if !caps.environments && profile.deployment == Deployment::Ce {
        return Err(Error::capability("environments require keygen.sh Official or EE"));
    }
    match cmd {
        EnvCmd::List => Ok(EnvAction::FetchList),
        EnvCmd::Use { id } => Ok(
            EnvAction::Show(
                Payload::Bag(
                    obj2(
                        "env",
                        Json::Str(id),
                        "hint",
                        Json::string("set KEYGEN_ENV or pass --env <id> to use it on subsequent calls"),
                    ),
                ),
            ),
        ),
        EnvCmd::Current => Ok(EnvAction::Show(Payload::Bag(obj1("env", opt_string(&profile.env))))),
    }
}

} // verus!
