//! Resource: entitlement.

use vstd::prelude::*;
use crate::cli::context::Context;
use crate::error::Error;
use crate::resources::common::{CreateArgs, DeleteArgs, GetArgs, ListArgs, UpdateArgs};

verus! {

/// The `keygen entitlement` subcommands.
#[derive(Debug)]
pub enum Cmd {
    /// List entitlement.
    List(ListArgs),
    /// Get a entitlement by id.
    Get(GetArgs),
    /// Create a entitlement.
    Create(CreateArgs),
    /// Update a entitlement.
    Update(UpdateArgs),
    /// Delete a entitlement.
    Delete(DeleteArgs),
}

/// Run a command of this resource: not available yet, always a user error
/// saying so.
pub fn dispatch(ctx: &Context, cmd: Cmd) -> (r: Result<(), Error>)
    ensures
        r matches Err(Error::User(m)) && m@ == "entitlement commands not yet implemented (CRUD scaffolding)"@,
{
    Err(Error::user("entitlement commands not yet implemented (CRUD scaffolding)"))
}

} // verus!
