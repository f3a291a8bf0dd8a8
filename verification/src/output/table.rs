//! Column descriptions of fixed-layout tables.

use vstd::prelude::*;

verus! {

/// A table column: the field it shows and its header.
#[derive(Debug, Clone, Copy)]
pub struct Column {
    pub key: &'static str,
    pub title: &'static str,
}

} // verus!
