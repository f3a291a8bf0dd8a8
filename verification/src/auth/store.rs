//! Tokens kept in the OS keyring, one entry per profile. The keyring calls
//! themselves are made by the binary; this module decides what their
//! outcomes mean.

use vstd::prelude::*;
use crate::error::Error;
use crate::text::concat;

verus! {

/// The keyring service every token is stored under.
pub const SERVICE: &'static str = "sh.keygen.cli";

/// A failed keyring operation: no entry for the profile, or any other
/// failure with its rendered message.
#[derive(Debug)]
pub enum KeyringFailure {
    NoEntry,
    Other(String),
}

/// Whether `e` is the authentication error `keyring <step>: <msg>`.
pub open spec fn is_keyring_error(e: Error, step: Seq<char>, msg: Seq<char>) -> bool {
    e matches Error::Auth(m) && m@ == "keyring "@ + step + ": "@ + msg
}

/// The error of a keyring entry that could not be opened.
pub fn init_failed(msg: &str) -> (e: Error)
    ensures
        is_keyring_error(e, "init"@, msg@),
{
    let r = Error::Auth(concat("keyring init: ", msg));
    proof {
        reveal_strlit("keyring init: ");
        reveal_strlit("keyring ");
        reveal_strlit("init");
        reveal_strlit(": ");
        assert("keyring init: "@ =~= "keyring "@ + "init"@ + ": "@);
    }
    r
}

/// Storing a token: a failure is an authentication error.
pub fn save_outcome(r: Result<(), String>) -> (out: Result<(), Error>)
    ensures
        match r {
            Ok(()) => out is Ok,
            Err(m) => out matches Err(e) && is_keyring_error(e, "write"@, m@),
        },
{
    match r {
        Ok(()) => Ok(()),
        Err(m) => {
            let e = Error::Auth(concat("keyring write: ", m.as_str()));
            proof {
                reveal_strlit("keyring write: ");
                reveal_strlit("keyring ");
                reveal_strlit("write");
                reveal_strlit(": ");
                assert("keyring write: "@ =~= "keyring "@ + "write"@ + ": "@);
            }
            Err(e)
        },
    }
}

/// Reading a token: a missing entry means no stored token; any other
/// failure is an authentication error.
pub fn load_outcome(r: Result<String, KeyringFailure>) -> (out: Result<Option<String>, Error>)
    ensures
        match r {
            Ok(t) => out matches Ok(Some(u)) && u@ == t@,
            Err(KeyringFailure::NoEntry) => out matches Ok(None),
            Err(KeyringFailure::Other(m)) => out matches Err(e) && is_keyring_error(e, "read"@, m@),
        },
{
    match r {
        Ok(t) => Ok(Some(t)),
        Err(KeyringFailure::NoEntry) => Ok(None),
        Err(KeyringFailure::Other(m)) => {
            let e = Error::Auth(concat("keyring read: ", m.as_str()));
            proof {
                reveal_strlit("keyring read: ");
                reveal_strlit("keyring ");
                reveal_strlit("read");
                reveal_strlit(": ");
                assert("keyring read: "@ =~= "keyring "@ + "read"@ + ": "@);
            }
            Err(e)
        },
    }
}

/// Deleting a token: a missing entry counts as deleted; any other failure is
/// an authentication error.
pub fn delete_outcome(r: Result<(), KeyringFailure>) -> (out: Result<(), Error>)
    ensures
        match r {
            Ok(()) | Err(KeyringFailure::NoEntry) => out is Ok,
            Err(KeyringFailure::Other(m)) => out matches Err(e) && is_keyring_error(e, "delete"@, m@),
        },
{
    match r {
        Ok(()) => Ok(()),
        Err(KeyringFailure::NoEntry) => Ok(()),
        Err(KeyringFailure::Other(m)) => {
            let e = Error::Auth(concat("keyring delete: ", m.as_str()));
            proof {
                reveal_strlit("keyring delete: ");
                reveal_strlit("keyring ");
                reveal_strlit("delete");
                reveal_strlit(": ");
                assert("keyring delete: "@ =~= "keyring "@ + "delete"@ + ": "@);
            }
            Err(e)
        },
    }
}

} // verus!
