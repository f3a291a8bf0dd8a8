//! Resource: API token.

use vstd::prelude::*;
use crate::cli::context::Context;
use crate::error::Error;
use crate::resources::common::{CreateArgs, DeleteArgs, GetArgs, ListArgs, UpdateArgs};

verus! {

/// The `keygen token` subcommands.
#[derive(Debug)]
pub enum Cmd {
    /// List tokens.
    List(ListArgs),
    /// Get a token.
    Get(GetArgs),
    /// Create a token.
    Create(CreateArgs),
    /// Update a token.
    Update(UpdateArgs),
    /// Delete a token.
    Delete(DeleteArgs),
    /// Regenerate a token (revokes the old secret).
    Regenerate { id: String },
}

/// Run a command of this resource: not available yet, always a user error
/// saying so.
pub fn dispatch(ctx: &Context, cmd: Cmd) -> (r: Result<(), Error>)
    ensures
        r matches Err(Error::User(m)) && m@ == "token commands not yet implemented (CRUD scaffolding)"@,
{
    Err(Error::user("token commands not yet implemented (CRUD scaffolding)"))
}

} // verus!
