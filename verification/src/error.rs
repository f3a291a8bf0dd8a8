//! The crate-wide error type.
//!
//! Each variant maps to a stable exit code (see [`crate::exit::ExitKind::from_error`])
//! and to a deterministic JSON shape (see [`crate::output::format_ai`]).

use vstd::prelude::*;
use crate::text::{concat, concat3, decimal, to_decimal};

verus! {

/// Top-level error. Causes that come from outside crates (network, disk,
/// parsers) are carried as their rendered message.
#[derive(Debug)]
pub enum Error {
    User(String),
    Auth(String),
    Network(String),
    Api {
        status: u16,
        code: Option<String>,
        title: String,
        detail: Option<String>,
        pointer: Option<String>,
        request_id: Option<String>,
        hint: Option<String>,
    },
    Capability(String),
    Config(String),
    Io(String),
    Serde(String),
    Other(String),
}

impl Error {
    /// A user error carrying `msg`.
    pub fn user(msg: &str) -> (e: Error)
        ensures
            e matches Error::User(m) && m@ == msg@,
    {
        Error::User(String::from_str(msg))
    }

    /// An authentication error carrying `msg`.
    pub fn auth(msg: &str) -> (e: Error)
        ensures
            e matches Error::Auth(m) && m@ == msg@,
    {
        Error::Auth(String::from_str(msg))
    }

    /// A configuration error carrying `msg`.
    pub fn config(msg: &str) -> (e: Error)
        ensures
            e matches Error::Config(m) && m@ == msg@,
    {
        Error::Config(String::from_str(msg))
    }

    /// A capability error carrying `msg`.
    pub fn capability(msg: &str) -> (e: Error)
        ensures
            e matches Error::Capability(m) && m@ == msg@,
    {
        Error::Capability(String::from_str(msg))
    }

    /// The human-readable rendering of the error.
    pub open spec fn message_spec(&self) -> Seq<char> {
        match self {
            Error::User(m) => "user error: "@ + m@,
            Error::Auth(m) => "authentication error: "@ + m@,
            Error::Network(m) => "network error: "@ + m@,
            Error::Api { status, title, .. } => "api error ("@ + decimal(*status as nat) + "): "@
                + title@,
            Error::Capability(m) => "capability not supported on this deployment: "@ + m@,
            Error::Config(m) => "config error: "@ + m@,
            Error::Io(m) => "io error: "@ + m@,
            Error::Serde(m) => "serde error: "@ + m@,
            Error::Other(m) => m@,
        }
    }

    /// The human-readable rendering of the error (what `Display` prints).
    pub fn message(&self) -> (r: String)
        ensures
            r@ == self.message_spec(),
    {
        match self {
            Error::User(m) => concat("user error: ", m.as_str()),
            Error::Auth(m) => concat("authentication error: ", m.as_str()),
            Error::Network(m) => concat("network error: ", m.as_str()),
            Error::Api { status, title, .. } => {
                let digits = to_decimal(*status as u64);
                let head = concat3("api error (", digits.as_str(), "): ");
                concat(head.as_str(), title.as_str())
            },
            Error::Capability(m) => concat(
                "capability not supported on this deployment: ",
                m.as_str(),
            ),
            Error::Config(m) => concat("config error: ", m.as_str()),
            Error::Io(m) => concat("io error: ", m.as_str()),
            Error::Serde(m) => concat("serde error: ", m.as_str()),
            Error::Other(m) => String::from_str(m.as_str()),
        }
    }
}

} // verus!
