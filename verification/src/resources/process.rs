//! Resource: machine process.

use vstd::prelude::*;
use crate::cli::context::Context;
use crate::error::Error;
use crate::resources::common::{GetArgs, ListArgs};

verus! {

/// The `keygen process` subcommands.
#[derive(Debug)]
pub enum Cmd {
    List(ListArgs),
    Get(GetArgs),
    /// Spawn a new process for a machine.
    Spawn {
        machine: String,
        pid: String,
    },
    /// Kill (delete) a process.
    Kill {
        id: String,
        yes: bool,
    },
    /// Send a heartbeat ping for a process.
    Ping {
        id: String,
    },
}

/// Run a command of this resource: not available yet, always a user error
/// saying so.
pub fn dispatch(ctx: &Context, cmd: Cmd) -> (r: Result<(), Error>)
    ensures
        r matches Err(Error::User(m)) && m@ == "process commands not yet implemented (CRUD + actions scaffolding)"@,
{
    Err(Error::user("process commands not yet implemented (CRUD + actions scaffolding)"))
}

} // verus!
