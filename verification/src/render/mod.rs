//! Terminal rendering helpers.

pub mod status;
