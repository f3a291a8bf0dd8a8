//! `keygen login`, `keygen logout` and `keygen whoami`.

use vstd::prelude::*;
use crate::cli::context::Context;
use crate::error::Error;

verus! {

/// Options of `keygen login`.
#[derive(Debug)]
pub struct LoginArgs {
    /// Use the supplied token instead of running the interactive flow.
    pub token: Option<String>,
    /// Token kind hint (admin / product / user / environment / license).
    pub kind: Option<String>,
}

/// Options of `keygen logout`.
#[derive(Debug)]
pub struct LogoutArgs {
    /// Profile to clear. Defaults to the active profile.
    pub profile: Option<String>,
}

/// `keygen login`: not available yet; always a user error saying so.
pub fn login(ctx: &Context, args: LoginArgs) -> (r: Result<(), Error>)
    ensures
        r matches Err(Error::User(m)) && m@ == "login flow not yet implemented (step 3 placeholder)"@,
{
    Err(Error::user("login flow not yet implemented (step 3 placeholder)"))
}

/// `keygen logout`: not available yet; always a user error saying so.
pub fn logout(ctx: &Context, args: LogoutArgs) -> (r: Result<(), Error>)
    ensures
        r matches Err(Error::User(m)) && m@ == "logout not yet implemented (step 3 placeholder)"@,
{
    Err(Error::user("logout not yet implemented (step 3 placeholder)"))
}

/// `keygen whoami`: not available yet; always a user error saying so.
pub fn whoami(ctx: &Context) -> (r: Result<(), Error>)
    ensures
        r matches Err(Error::User(m)) && m@ == "whoami not yet implemented (step 3 placeholder)"@,
{
    Err(Error::user("whoami not yet implemented (step 3 placeholder)"))
}

} // verus!
