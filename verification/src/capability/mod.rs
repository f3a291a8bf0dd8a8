//! Which optional features a deployment offers.

pub mod detect;
pub mod doctor;
pub mod env_commands;

use vstd::prelude::*;

verus! {

/// Optional features of a keygen.sh deployment.
#[derive(Debug, Clone, Copy, PartialEq, Eq, Structural)]
pub struct Capabilities {
    pub environments: bool,
    pub event_logs: bool,
    pub request_logs: bool,
    pub sso: bool,
    pub oci_registry: bool,
    pub import_export: bool,
}

/// Every optional feature set to `on`.
pub open spec fn all_caps(on: bool) -> Capabilities {
    Capabilities {
        environments: on,
        event_logs: on,
        request_logs: on,
        sso: on,
        oci_registry: on,
        import_export: on,
    }
}

impl Default for Capabilities {
    /// No optional feature.
    fn default() -> (c: Capabilities)
        ensures
            c == all_caps(false),
    {
        Capabilities {
            environments: false,
            event_logs: false,
            request_logs: false,
            sso: false,
            oci_registry: false,
            import_export: false,
        }
    }
}

} // verus!
