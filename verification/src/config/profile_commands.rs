//! `keygen profile ...` subcommands.

use vstd::prelude::*;
use crate::cli::context::Context;
use crate::error::Error;

verus! {

/// The `keygen profile` subcommands.
#[derive(Debug)]
pub enum ProfileCmd {
    /// List all profiles.
    List,
    /// Mark a profile as the default.
    Use { name: String },
    /// Add a new profile interactively.
    Add { name: String },
    /// Remove a profile (does not touch keyring entries).
    Remove { name: String },
}

/// `keygen profile ...`: not available yet; always a user error saying so.
pub fn dispatch(ctx: &Context, cmd: ProfileCmd) -> (r: Result<(), Error>)
    ensures
        r matches Err(Error::User(m)) && m@ == "profile commands not yet implemented (step 1 placeholder)"@,
{
    Err(Error::user("profile commands not yet implemented (step 1 placeholder)"))
}

} // verus!
