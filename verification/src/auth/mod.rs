//! Authentication: login decisions and token kinds.

pub mod commands;
pub mod login;
pub mod store;
pub mod token;
