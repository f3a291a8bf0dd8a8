//! The resource sub-trees of the command line.

use vstd::prelude::*;
use crate::resources::{
    artifact, component, entitlement, event_log, group, license, machine, package, policy, process,
    product, release, request_log, token, user, webhook,
};

verus! {

/// Resource sub-trees. Each resource has its own CRUD + action subcommand
/// surface defined in `crate::resources::<name>`.
#[derive(Debug)]
pub enum ResourceCommand {
    /// API tokens.
    Token(token::Cmd),
    /// Products.
    Product(product::Cmd),
    /// Policies.
    Policy(policy::Cmd),
    /// Licenses.
    License(license::Cmd),
    /// Entitlements.
    Entitlement(entitlement::Cmd),
    /// Users.
    User(user::Cmd),
    /// Groups.
    Group(group::Cmd),
    /// Machines (license activations).
    Machine(machine::Cmd),
    /// Machine components (hardware fingerprints).
    Component(component::Cmd),
    /// Machine processes (heartbeats).
    Process(process::Cmd),
    /// Releases.
    Release(release::Cmd),
    /// Release artifacts (binaries).
    Artifact(artifact::Cmd),
    /// Release packages.
    Package(package::Cmd),
    /// Webhook endpoints + events.
    Webhook(webhook::Cmd),
    /// EE-only: request logs.
    RequestLog(request_log::Cmd),
    /// EE-only: event logs.
    EventLog(event_log::Cmd),
}

} // verus!
