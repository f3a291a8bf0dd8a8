//! `keygen schema` options.

use vstd::prelude::*;
use crate::cli::context::Context;
use crate::error::Error;

verus! {

/// Options of `keygen schema`.
#[derive(Debug)]
pub struct SchemaArgs {
    /// Schema output format.
    pub format: SchemaFormat,
}

/// Output format of the schema.
#[derive(Debug, Clone, Copy, PartialEq, Eq, Structural)]
pub enum SchemaFormat {
    Json,
    Yaml,
}

impl Default for SchemaArgs {
    /// JSON is the default format.
    fn default() -> (r: SchemaArgs)
        ensures
            r.format == SchemaFormat::Json,
    {
        SchemaArgs { format: SchemaFormat::Json }
    }
}

/// `keygen schema`: not available yet; always a user error saying so.
pub fn dump(ctx: &Context, args: SchemaArgs) -> (r: Result<(), Error>)
    ensures
        r matches Err(Error::User(m)) && m@ == "schema export not yet implemented (step 13 placeholder)"@,
{
    Err(Error::user("schema export not yet implemented (step 13 placeholder)"))
}

} // verus!
