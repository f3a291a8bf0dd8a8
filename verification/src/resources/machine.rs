//! Resource: machine (license activation).

use vstd::prelude::*;
use crate::cli::context::Context;
use crate::error::Error;
use crate::resources::common::{GetArgs, ListArgs, UpdateArgs};

verus! {

/// The `keygen machine` subcommands.
#[derive(Debug)]
pub enum Cmd {
    List(ListArgs),
    Get(GetArgs),
    /// Activate (create) a machine for a license.
    Activate {
        license: String,
        fingerprint: String,
        platform: Option<String>,
        metadata: Vec<String>,
    },
    /// Deactivate (delete) a machine.
    Deactivate {
        id: String,
        yes: bool,
    },
    Update(UpdateArgs),
    /// Send a heartbeat ping.
    Ping {
        id: String,
    },
    /// Reset the machine's heartbeat counter.
    Reset {
        id: String,
    },
    /// Check out a machine for offline use.
    CheckOut {
        id: String,
        out: Option<String>,
    },
}

/// Run a command of this resource: not available yet, always a user error
/// saying so.
pub fn dispatch(ctx: &Context, cmd: Cmd) -> (r: Result<(), Error>)
    ensures
        r matches Err(Error::User(m)) && m@ == "machine commands not yet implemented (CRUD + actions scaffolding)"@,
{
    Err(Error::user("machine commands not yet implemented (CRUD + actions scaffolding)"))
}

} // verus!
