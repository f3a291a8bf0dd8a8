//! JSON:API resource objects as the command layer sees them.

use vstd::prelude::*;
use crate::json::{Json, JsonV};

verus! {

/// A JSON:API resource object: `{ id, type, attributes, relationships? }`.
#[derive(Debug)]
pub struct Resource {
    pub id: String,
    pub resource_type: String,
    pub attributes: Json,
    pub relationships: Option<Json>,
}

/// A JSON:API document: primary data plus optional `included`, `meta` and
/// `links` members.
#[derive(Debug)]
pub struct Document<T> {
    pub data: T,
    pub included: Option<Vec<Resource>>,
    pub meta: Option<Json>,
    pub links: Option<Json>,
}

/// The view of an optional relationships member.
pub open spec fn rels_view(r: Option<Json>) -> Option<JsonV> {
    match r {
        Some(j) => Some(j@),
        None => None,
    }
}

} // verus!
