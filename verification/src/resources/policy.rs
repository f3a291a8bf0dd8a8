//! Resource: policy.

use vstd::prelude::*;
use crate::cli::context::Context;
use crate::error::Error;
use crate::resources::common::{CreateArgs, DeleteArgs, GetArgs, ListArgs, UpdateArgs};

verus! {

/// The `keygen policy` subcommands.
#[derive(Debug)]
pub enum Cmd {
    List(ListArgs),
    Get(GetArgs),
    Create(CreateArgs),
    Update(UpdateArgs),
    Delete(DeleteArgs),
    /// Manage entitlements attached to a policy.
    Entitlements(PolicyEntitlementsCmd),
}

/// Nested subcommands.
#[derive(Debug)]
pub enum PolicyEntitlementsCmd {
    Attach { id: String, entitlement: String },
    Detach { id: String, entitlement: String },
    List { id: String },
}

/// Run a command of this resource: not available yet, always a user error
/// saying so.
pub fn dispatch(ctx: &Context, cmd: Cmd) -> (r: Result<(), Error>)
    ensures
        r matches Err(Error::User(m)) && m@ == "policy commands not yet implemented (CRUD scaffolding)"@,
{
    Err(Error::user("policy commands not yet implemented (CRUD scaffolding)"))
}

} // verus!
