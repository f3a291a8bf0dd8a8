//! Resource: machine component.

use vstd::prelude::*;
use crate::cli::context::Context;
use crate::error::Error;
use crate::resources::common::{CreateArgs, DeleteArgs, GetArgs, ListArgs, UpdateArgs};

verus! {

/// The `keygen component` subcommands.
#[derive(Debug)]
pub enum Cmd {
    /// List machine component.
    List(ListArgs),
    /// Get a machine component by id.
    Get(GetArgs),
    /// Create a machine component.
    Create(CreateArgs),
    /// Update a machine component.
    Update(UpdateArgs),
    /// Delete a machine component.
    Delete(DeleteArgs),
}

/// Run a command of this resource: not available yet, always a user error
/// saying so.
pub fn dispatch(ctx: &Context, cmd: Cmd) -> (r: Result<(), Error>)
    ensures
        r matches Err(Error::User(m)) && m@ == "component commands not yet implemented (CRUD scaffolding)"@,
{
    Err(Error::user("component commands not yet implemented (CRUD scaffolding)"))
}

} // verus!
