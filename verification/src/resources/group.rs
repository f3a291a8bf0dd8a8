//! Resource: group.

use vstd::prelude::*;
use crate::cli::context::Context;
use crate::error::Error;
use crate::resources::common::{CreateArgs, DeleteArgs, GetArgs, ListArgs, UpdateArgs};

verus! {

/// The `keygen group` subcommands.
#[derive(Debug)]
pub enum Cmd {
    /// List group.
    List(ListArgs),
    /// Get a group by id.
    Get(GetArgs),
    /// Create a group.
    Create(CreateArgs),
    /// Update a group.
    Update(UpdateArgs),
    /// Delete a group.
    Delete(DeleteArgs),
}

/// Run a command of this resource: not available yet, always a user error
/// saying so.
pub fn dispatch(ctx: &Context, cmd: Cmd) -> (r: Result<(), Error>)
    ensures
        r matches Err(Error::User(m)) && m@ == "group commands not yet implemented (CRUD scaffolding)"@,
{
    Err(Error::user("group commands not yet implemented (CRUD scaffolding)"))
}

} // verus!
