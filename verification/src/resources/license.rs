//! Resource: license.

use vstd::prelude::*;
use crate::cli::context::Context;
use crate::error::Error;
use crate::resources::common::{CreateArgs, DeleteArgs, GetArgs, ListArgs, UpdateArgs};

verus! {

/// The `keygen license` subcommands.
#[derive(Debug)]
pub enum Cmd {
    List(ListArgs),
    Get(GetArgs),
    Create(CreateArgs),
    Update(UpdateArgs),
    Delete(DeleteArgs),
    /// Validate a license by id.
    Validate {
        id: String,
    },
    /// Validate a license by its key.
    ValidateKey {
        key: String,
        fingerprint: Option<String>,
    },
    /// Suspend a license.
    Suspend {
        id: String,
    },
    /// Reinstate a suspended license.
    Reinstate {
        id: String,
    },
    /// Renew a license.
    Renew {
        id: String,
    },
    /// Revoke a license.
    Revoke {
        id: String,
        yes: bool,
    },
    /// Check out a signed `.lic` blob (offline verification).
    CheckOut {
        id: String,
        out: Option<String>,
        includes: Vec<String>,
    },
    /// Cancel an outstanding check-out.
    CheckIn {
        id: String,
    },
    /// Manage license usage counters.
    Usage(LicenseUsageCmd),
    /// List tokens scoped to a license.
    Tokens {
        id: String,
    },
    /// Transfer a license to a different user or policy.
    Transfer {
        id: String,
        to_user: Option<String>,
        to_policy: Option<String>,
    },
}

/// Nested subcommands.
#[derive(Debug)]
pub enum LicenseUsageCmd {
    Incr {
        id: String,
        amount: u64,
    },
    Decr {
        id: String,
        amount: u64,
    },
    Reset {
        id: String,
    },
}

/// Run a command of this resource: not available yet, always a user error
/// saying so.
pub fn dispatch(ctx: &Context, cmd: Cmd) -> (r: Result<(), Error>)
    ensures
        r matches Err(Error::User(m)) && m@ == "license commands not yet implemented (CRUD + actions scaffolding)"@,
{
    Err(Error::user("license commands not yet implemented (CRUD + actions scaffolding)"))
}

} // verus!
