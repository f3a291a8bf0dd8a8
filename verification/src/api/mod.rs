//! The keygen.sh JSON:API surface: documents, errors and filters.

pub mod auth;
pub mod client;
pub mod error;
pub mod filter_audit;
pub mod jsonapi;
pub mod pagination;
pub mod request;
