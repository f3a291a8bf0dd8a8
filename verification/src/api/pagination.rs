//! JSON:API pagination parameters.

use vstd::prelude::*;

verus! {

/// A page request: page number and page size, each optional.
#[derive(Debug, Default, Clone, Copy)]
pub struct Page {
    pub number: Option<u64>,
    pub size: Option<u64>,
}

} // verus!
