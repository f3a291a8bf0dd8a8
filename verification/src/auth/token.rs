//! The kinds of API tokens keygen.sh issues.

use vstd::prelude::*;
use crate::text::str_eq;

verus! {

/// The bearer of an API token.
#[derive(Debug, Clone, Copy, PartialEq, Eq, Structural)]
pub enum TokenKind {
    Admin,
    Environment,
    Product,
    User,
    License,
    Activation,
}

/// The token kind of a JSON:API resource type (token or bearer type).
pub open spec fn token_kind_spec(t: Seq<char>) -> Option<TokenKind> {
    if t == "admin-tokens"@ || t == "admins"@ {
        Some(TokenKind::Admin)
    } else if t == "environment-tokens"@ || t == "environments"@ {
        Some(TokenKind::Environment)
    } else if t == "product-tokens"@ || t == "products"@ {
        Some(TokenKind::Product)
    } else if t == "user-tokens"@ || t == "users"@ {
        Some(TokenKind::User)
    } else if t == "license-tokens"@ || t == "licenses"@ {
        Some(TokenKind::License)
    } else if t == "activation-tokens"@ {
        Some(TokenKind::Activation)
    } else {
        None
    }
}

impl TokenKind {
    /// The token kind of a JSON:API type such as `admin-tokens` or `users`.
    pub fn from_jsonapi_type(t: &str) -> (r: Option<TokenKind>)
        ensures
            r == token_kind_spec(t@),
    {
        if str_eq(t, "admin-tokens") || str_eq(t, "admins") {
            Some(TokenKind::Admin)
        } else if str_eq(t, "environment-tokens") || str_eq(t, "environments") {
            Some(TokenKind::Environment)
        } else if str_eq(t, "product-tokens") || str_eq(t, "products") {
            Some(TokenKind::Product)
        } else if str_eq(t, "user-tokens") || str_eq(t, "users") {
            Some(TokenKind::User)
        } else if str_eq(t, "license-tokens") || str_eq(t, "licenses") {
            Some(TokenKind::License)
        } else if str_eq(t, "activation-tokens") {
            Some(TokenKind::Activation)
        } else {
            None
        }
    }
}

} // verus!
