//! `keygen explain error <code>`: turn opaque keygen.sh error codes into a
//! diagnosis with cause and fix.

pub mod catalog;
pub mod commands;

pub use catalog::{lookup, ErrorEntry};
