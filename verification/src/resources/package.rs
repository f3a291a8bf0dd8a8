//! Resource: release package.

use vstd::prelude::*;
use crate::cli::context::Context;
use crate::error::Error;
use crate::resources::common::{CreateArgs, DeleteArgs, GetArgs, ListArgs, UpdateArgs};

verus! {

/// The `keygen package` subcommands.
#[derive(Debug)]
pub enum Cmd {
    /// List release package.
    List(ListArgs),
    /// Get a release package by id.
    Get(GetArgs),
    /// Create a release package.
    Create(CreateArgs),
    /// Update a release package.
    Update(UpdateArgs),
    /// Delete a release package.
    Delete(DeleteArgs),
}

/// Run a command of this resource: not available yet, always a user error
/// saying so.
pub fn dispatch(ctx: &Context, cmd: Cmd) -> (r: Result<(), Error>)
    ensures
        r matches Err(Error::User(m)) && m@ == "package commands not yet implemented (CRUD scaffolding)"@,
{
    Err(Error::user("package commands not yet implemented (CRUD scaffolding)"))
}

} // verus!
