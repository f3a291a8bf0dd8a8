//! Resource: event log.

use vstd::prelude::*;
use crate::cli::context::Context;
use crate::error::Error;
use crate::resources::common::{CreateArgs, DeleteArgs, GetArgs, ListArgs, UpdateArgs};

verus! {

/// The `keygen event-log` subcommands.
#[derive(Debug)]
pub enum Cmd {
    /// List event log.
    List(ListArgs),
    /// Get a event log by id.
    Get(GetArgs),
    /// Create a event log.
    Create(CreateArgs),
    /// Update a event log.
    Update(UpdateArgs),
    /// Delete a event log.
    Delete(DeleteArgs),
}

/// Run a command of this resource: not available yet, always a user error
/// saying so.
pub fn dispatch(ctx: &Context, cmd: Cmd) -> (r: Result<(), Error>)
    ensures
        r matches Err(Error::User(m)) && m@ == "event_log commands not yet implemented (CRUD scaffolding)"@,
{
    Err(Error::user("event_log commands not yet implemented (CRUD scaffolding)"))
}

} // verus!
