//! `keygen doctor`.

use vstd::prelude::*;
use crate::cli::context::Context;
use crate::error::Error;

verus! {

/// `keygen doctor`: not available yet; always a user error saying so.
pub fn run(ctx: &Context) -> (r: Result<(), Error>)
    ensures
        r matches Err(Error::User(m)) && m@ == "doctor not yet implemented (step 4 placeholder)"@,
{
    Err(Error::user("doctor not yet implemented (step 4 placeholder)"))
}

} // verus!
