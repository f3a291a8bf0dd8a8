//! The JSON envelope types of AI mode.

use vstd::prelude::*;

verus! {

/// `{ "ok": true, "data": ..., "meta"?: ... }`.
#[derive(Debug)]
pub struct Envelope<T> {
    pub ok: bool,
    pub data: T,
    pub meta: Option<Meta>,
}

/// Pagination metadata of a list envelope.
#[derive(Debug, Clone, Copy)]
pub struct Meta {
    pub page: Option<u64>,
    pub limit: Option<u64>,
    pub total: Option<u64>,
}

} // verus!
