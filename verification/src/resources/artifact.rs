//! Resource: release artifact.

use vstd::prelude::*;
use crate::cli::context::Context;
use crate::error::Error;
use crate::resources::common::{DeleteArgs, GetArgs, ListArgs};

verus! {

/// The `keygen artifact` subcommands.
#[derive(Debug)]
pub enum Cmd {
    List(ListArgs),
    Get(GetArgs),
    Delete(DeleteArgs),
    /// Upload a binary to a release.
    Upload {
        release: String,
        file: String,
        platform: Option<String>,
        arch: Option<String>,
    },
    /// Download a binary by id.
    Download {
        id: String,
        out: Option<String>,
    },
    /// Yank an artifact.
    Yank {
        id: String,
        yes: bool,
    },
}

/// Run a command of this resource: not available yet, always a user error
/// saying so.
pub fn dispatch(ctx: &Context, cmd: Cmd) -> (r: Result<(), Error>)
    ensures
        r matches Err(Error::User(m)) && m@ == "artifact commands not yet implemented (CRUD + actions scaffolding)"@,
{
    Err(Error::user("artifact commands not yet implemented (CRUD + actions scaffolding)"))
}

} // verus!
