//! Resource: release.

use vstd::prelude::*;
use crate::cli::context::Context;
use crate::error::Error;
use crate::resources::common::{CreateArgs, DeleteArgs, GetArgs, ListArgs, UpdateArgs};

verus! {

/// The `keygen release` subcommands.
#[derive(Debug)]
pub enum Cmd {
    List(ListArgs),
    Get(GetArgs),
    Create(CreateArgs),
    Update(UpdateArgs),
    Delete(DeleteArgs),
    Publish {
        id: String,
    },
    Yank {
        id: String,
        yes: bool,
    },
    /// Compute the upgrade target for a product + current version.
    Upgrade {
        product: String,
        current: String,
        constraint: Option<String>,
        channel: Option<String>,
    },
    /// Manage release constraints (entitlements).
    Constraints(ReleaseConstraintsCmd),
}

/// Nested subcommands.
#[derive(Debug)]
pub enum ReleaseConstraintsCmd {
    Attach { id: String, entitlement: String },
    Detach { id: String, entitlement: String },
}

/// Run a command of this resource: not available yet, always a user error
/// saying so.
pub fn dispatch(ctx: &Context, cmd: Cmd) -> (r: Result<(), Error>)
    ensures
        r matches Err(Error::User(m)) && m@ == "release commands not yet implemented (CRUD + actions scaffolding)"@,
{
    Err(Error::user("release commands not yet implemented (CRUD + actions scaffolding)"))
}

} // verus!
