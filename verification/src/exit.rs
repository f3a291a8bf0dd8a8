//! Stable process exit codes, documented in the AI schema so callers can
//! branch on the failure mode without parsing strings.

use vstd::prelude::*;
use crate::error::Error;

verus! {

/// Exit status of the command-line tool.
#[derive(Debug, Clone, Copy, PartialEq, Eq, Structural)]
pub enum ExitKind {
    Success,
    UserError,
    ServerError,
    NetworkError,
    AuthError,
    Capability,
}

/// The exit kind that an error maps to.
pub open spec fn exit_kind_of(err: Error) -> ExitKind {
    match err {
        Error::User(_) | Error::Config(_) | Error::Serde(_) | Error::Io(_) | Error::Other(_) => {
            ExitKind::UserError
        },
        Error::Auth(_) => ExitKind::AuthError,
        Error::Network(_) => ExitKind::NetworkError,
        Error::Capability(_) => ExitKind::Capability,
        Error::Api { status, .. } => {
            if 500 <= status < 600 {
                ExitKind::ServerError
            } else if status == 401 || status == 403 {
                ExitKind::AuthError
            } else {
                ExitKind::UserError
            }
        },
    }
}

/// The numeric process status of an exit kind.
pub open spec fn exit_code_of(kind: ExitKind) -> u8 {
    match kind {
        ExitKind::Success => 0,
        ExitKind::UserError => 1,
        ExitKind::ServerError => 2,
        ExitKind::NetworkError => 3,
        ExitKind::AuthError => 4,
        ExitKind::Capability => 5,
    }
}

impl ExitKind {
    /// Classify an error into its exit kind.
    pub fn from_error(err: &Error) -> (k: ExitKind)
        ensures
            k == exit_kind_of(*err),
    {
        match err {
            Error::User(_) | Error::Config(_) | Error::Serde(_) | Error::Io(_) | Error::Other(_) => {
                ExitKind::UserError
            },
            Error::Auth(_) => ExitKind::AuthError,
            Error::Network(_) => ExitKind::NetworkError,
            Error::Capability(_) => ExitKind::Capability,
            Error::Api { status, .. } => {
                if 500 <= *status && *status < 600 {
                    ExitKind::ServerError
                } else if *status == 401 || *status == 403 {
                    ExitKind::AuthError
                } else {
                    ExitKind::UserError
                }
            },
        }
    }

    /// The numeric process status (`0` ok, `1` user, `2` server, `3` network,
    /// `4` auth, `5` capability).
    pub fn code(self) -> (c: u8)
        ensures
            c == exit_code_of(self),
    {
        match self {
            ExitKind::Success => 0,
            ExitKind::UserError => 1,
            ExitKind::ServerError => 2,
            ExitKind::NetworkError => 3,
            ExitKind::AuthError => 4,
            ExitKind::Capability => 5,
        }
    }
}

/// Exit codes are distinct per kind: a caller can recover the failure mode
/// from the process status alone.
pub proof fn exit_codes_are_distinct(a: ExitKind, b: ExitKind)
    ensures
        exit_code_of(a) == exit_code_of(b) <==> a == b,
{
}

/// Every error exits with a non-zero status, and the status says what failed:
/// an API answer exits 2 exactly when it is a 5xx, 4 exactly when it is a
/// 401 or 403, and 1 for every other status (404, 422, ...); a network
/// failure exits 3, a capability refusal exits 5, authentication failures
/// exit 4, and user, configuration, parse, I/O and other errors exit 1.
pub proof fn error_exit_codes(err: Error)
    ensures
        exit_code_of(exit_kind_of(err)) != 0,
        err matches Error::Api { status, .. } ==> (500 <= status < 600 <==> exit_code_of(
            exit_kind_of(err),
        ) == 2),
        err matches Error::Api { status, .. } ==> (status == 401 || status == 403 ==> exit_code_of(
            exit_kind_of(err),
        ) == 4),
        err matches Error::Api { status, .. } ==> (status == 401 || status == 403 <==> exit_code_of(
            exit_kind_of(err),
        ) == 4),
        err matches Error::Api { status, .. } ==> (!(500 <= status < 600) && status != 401 && status
            != 403 <==> exit_code_of(exit_kind_of(err)) == 1),
        err is User || err is Config || err is Serde || err is Io || err is Other ==> exit_code_of(
            exit_kind_of(err),
        ) == 1,
        err is Network <==> exit_code_of(exit_kind_of(err)) == 3,
        err is Capability <==> exit_code_of(exit_kind_of(err)) == 5,
        err is Auth ==> exit_code_of(exit_kind_of(err)) == 4,
{
}

} // verus!
