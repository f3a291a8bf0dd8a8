//! Static catalogue of keygen.sh error codes with their causes and fixes.
//!
//! Used by `keygen explain error <code>` and by the per-error hints surfaced
//! inside [`crate::error::Error::Api`].

use vstd::prelude::*;
use crate::text::{upper_eq, upper_seq};

verus! {

/// One catalogued error code.
#[derive(Debug, Clone, Copy)]
pub struct ErrorEntry {
    pub code: &'static str,
    pub title: &'static str,
    pub cause: &'static [&'static str],
    pub fix: &'static [&'static str],
    pub see_also: &'static [&'static str],
}

/// The mathematical content of a catalogue entry.
pub struct EntryView {
    pub code: Seq<char>,
    pub title: Seq<char>,
    pub cause: Seq<Seq<char>>,
    pub fix: Seq<Seq<char>>,
    pub see_also: Seq<Seq<char>>,
}

impl View for ErrorEntry {
    type V = EntryView;

    open spec fn view(&self) -> EntryView {
        EntryView {
            code: self.code@,
            title: self.title@,
            cause: self.cause@.map_values(|s: &str| s@),
            fix: self.fix@.map_values(|s: &str| s@),
            see_also: self.see_also@.map_values(|s: &str| s@),
        }
    }
}

/// The catalogue, in the order `keygen explain error --list` shows it.
pub open spec fn catalog_spec() -> Seq<EntryView> {
    seq![
        EntryView {
            code: "LICENSE_SUSPENDED"@,
            title: "License has been administratively suspended."@,
            cause: seq!["An admin called `keygen license suspend <id>`."@, "A webhook integration auto-suspended on a billing event."@],
            fix: seq!["keygen license reinstate <id>"@],
            see_also: seq!["license.suspended attribute"@],
        },
        EntryView {
            code: "LICENSE_EXPIRED"@,
            title: "License is past its expiry date."@,
            cause: seq!["The license's `expiry` is in the past."@],
            fix: seq!["keygen license renew <id>          # if the policy allows renewal"@, "issue a new license under a longer-duration policy"@],
            see_also: seq!["license.expiry, policy.duration"@],
        },
        EntryView {
            code: "LICENSE_NOT_ACTIVATED"@,
            title: "License has no active machines."@,
            cause: seq!["The user has not yet activated a machine for this license."@],
            fix: seq!["keygen machine activate --license <lid> --fingerprint <fp>"@],
            see_also: seq!["machine activate, machine fingerprint"@],
        },
        EntryView {
            code: "LICENSE_TOO_MANY_MACHINES"@,
            title: "License has reached its machine cap."@,
            cause: seq!["policy.maxMachines reached."@, "Old hardware is still registered (deactivation needed)."@],
            fix: seq!["keygen machine list --filter license=<lid>"@, "keygen machine deactivate <id>          # remove old hardware"@, "raise policy.maxMachines on the license's policy"@],
            see_also: seq!["policy.maxMachines, machine deactivate"@],
        },
        EntryView {
            code: "MACHINE_LIMIT_EXCEEDED"@,
            title: "Machine cap exceeded for this license / policy."@,
            cause: seq!["A new activation would exceed policy.maxMachines."@],
            fix: seq!["deactivate an old machine: keygen machine deactivate <id>"@, "raise policy.maxMachines"@],
            see_also: seq!["policy.maxMachines"@],
        },
        EntryView {
            code: "MACHINE_HEARTBEAT_DEAD"@,
            title: "Machine missed its heartbeat window."@,
            cause: seq!["policy.requireHeartbeat=true and policy.heartbeatDuration elapsed without a `machine ping`."@],
            fix: seq!["keygen machine ping <id>"@, "set policy.requireHeartbeat=false if heartbeats are not desired"@],
            see_also: seq!["machine ping, policy.heartbeatDuration"@],
        },
        EntryView {
            code: "FINGERPRINT_TAKEN"@,
            title: "Fingerprint already registered to a different machine."@,
            cause: seq!["Two activations using the same hardware fingerprint."@],
            fix: seq!["deactivate the previous machine before re-activating"@, "use a unique fingerprint per device"@],
            see_also: seq!["machine.fingerprint"@],
        },
        EntryView {
            code: "TOKEN_INVALID"@,
            title: "Bearer token is malformed or unknown."@,
            cause: seq!["Token was revoked or rotated."@, "Wrong account / environment context (token was issued for another account)."@],
            fix: seq!["keygen login"@, "ensure KEYGEN_TOKEN, KEYGEN_ACCOUNT, KEYGEN_HOST match the deployment"@],
            see_also: seq!["keygen login, profile config"@],
        },
        EntryView {
            code: "TOKEN_EXPIRED"@,
            title: "Bearer token has expired."@,
            cause: seq!["Token reached its `expiry` timestamp."@],
            fix: seq!["keygen login"@, "keygen token regenerate <id>"@],
            see_also: seq!["token.expiry"@],
        },
        EntryView {
            code: "TOKEN_FORBIDDEN"@,
            title: "Token does not have permission for this action."@,
            cause: seq!["Product token used for an admin-only endpoint."@, "User token without sufficient permissions."@],
            fix: seq!["use an admin or product token with the right scopes"@],
            see_also: seq!["token.permissions, role"@],
        },
        EntryView {
            code: "FORBIDDEN"@,
            title: "Active credentials cannot perform this operation."@,
            cause: seq!["Token role / permissions don't allow this operation."@],
            fix: seq!["log in with an admin token"@, "request the operator to grant the missing scope"@],
            see_also: seq!["token, role, permissions"@],
        },
        EntryView {
            code: "UNAUTHORIZED"@,
            title: "Request did not include valid credentials."@,
            cause: seq!["Missing Authorization header."@, "Wrong scheme (Bearer vs License)."@],
            fix: seq!["keygen login"@, "set KEYGEN_TOKEN before invoking"@],
            see_also: seq!["auth"@],
        },
        EntryView {
            code: "NOT_FOUND"@,
            title: "Resource id does not exist (or is in another environment)."@,
            cause: seq!["Wrong id."@, "Wrong environment for an EE deployment."@],
            fix: seq!["keygen <resource> list  # find the right id"@, "keygen env switch <id>  # if on EE"@],
            see_also: seq!["env, account"@],
        },
        EntryView {
            code: "VALIDATION_FAILED"@,
            title: "Request body failed schema validation."@,
            cause: seq!["Required attribute missing."@, "Wrong type for a field."@],
            fix: seq!["keygen <resource> <action> --json --dry-run  # to inspect what's sent"@, "consult the keygen.sh docs for the resource's required fields"@],
            see_also: seq!["request body, --set"@],
        },
        EntryView {
            code: "RATE_LIMIT_EXCEEDED"@,
            title: "Too many requests in a short window."@,
            cause: seq!["The keygen.sh per-account or per-IP rate limit was hit."@],
            fix: seq!["back off and retry after the `Retry-After` window"@, "batch operations where possible"@],
            see_also: seq!["rate limit headers"@],
        },
        EntryView {
            code: "POLICY_PROTECTED"@,
            title: "Cannot modify a protected policy."@,
            cause: seq!["policy.protected=true blocks attribute changes."@],
            fix: seq!["set protected=false on the policy first"@, "use a different policy"@],
            see_also: seq!["policy.protected"@],
        },
        EntryView {
            code: "USER_BANNED"@,
            title: "User account is banned."@,
            cause: seq!["An admin banned the user with `keygen user ban`."@],
            fix: seq!["keygen user unban <id>"@],
            see_also: seq!["user ban / unban"@],
        },
        EntryView {
            code: "USER_NOT_VERIFIED"@,
            title: "User has not verified their email."@,
            cause: seq!["The user signed up but never confirmed via email."@],
            fix: seq!["resend the verification email; complete the verification flow"@],
            see_also: seq!["user.verified"@],
        },
        EntryView {
            code: "GROUP_USER_LIMIT_EXCEEDED"@,
            title: "Group has reached its maxUsers cap."@,
            cause: seq!["group.maxUsers reached."@],
            fix: seq!["increase group.maxUsers"@, "remove an existing member"@],
            see_also: seq!["group.maxUsers"@],
        },
        EntryView {
            code: "ENTITLEMENT_CONSTRAINT_FAILED"@,
            title: "License doesn't satisfy required entitlement constraints."@,
            cause: seq!["Validation scope listed an entitlement the license lacks."@],
            fix: seq!["keygen policy entitlements list <pid>"@, "keygen policy entitlements attach <pid> --entitlement <eid>"@],
            see_also: seq!["entitlements, validate scope"@],
        },
        EntryView {
            code: "ARTIFACT_NOT_UPLOADED"@,
            title: "Release artifact is missing its binary."@,
            cause: seq!["The artifact resource exists but `keygen artifact upload` was never run."@],
            fix: seq!["keygen artifact upload <id> --file <path>"@],
            see_also: seq!["artifact upload"@],
        },
        EntryView {
            code: "RELEASE_YANKED"@,
            title: "Release was yanked and cannot be re-published."@,
            cause: seq!["A yanked release is read-only."@],
            fix: seq!["create a new release"@, "consult: keygen release get <id>"@],
            see_also: seq!["release.yanked"@],
        },
        EntryView {
            code: "PRODUCT_NOT_FOUND"@,
            title: "Referenced product does not exist in this account."@,
            cause: seq!["Wrong product id."@, "Wrong account context."@],
            fix: seq!["keygen product list"@, "verify KEYGEN_ACCOUNT or active profile"@],
            see_also: seq!["account, product list"@],
        },
        EntryView {
            code: "ACCOUNT_BILLING_DELINQUENT"@,
            title: "Account has an outstanding billing issue."@,
            cause: seq!["Card on file failed."@, "Subscription lapsed."@],
            fix: seq!["update billing info on keygen.sh dashboard"@],
            see_also: seq!["billing"@],
        },
        EntryView {
            code: "WEBHOOK_DELIVERY_FAILED"@,
            title: "Webhook endpoint did not return 2xx."@,
            cause: seq!["Endpoint URL is down or returning errors."@],
            fix: seq!["keygen webhook events retry <eid>"@, "verify the endpoint is reachable and accepting POST"@],
            see_also: seq!["webhook events retry"@],
        },
        EntryView {
            code: "FILESIZE_EXCEEDS_LIMIT"@,
            title: "Uploaded file exceeds the artifact size cap."@,
            cause: seq!["The binary is larger than your plan allows."@],
            fix: seq!["compress / split the binary"@, "upgrade plan"@],
            see_also: seq!["artifact upload"@],
        },
        EntryView {
            code: "INVALID_FILTER"@,
            title: "Filter key not recognized for this resource."@,
            cause: seq!["Misspelled filter param."@, "Filter not supported on this resource."@],
            fix: seq!["consult the keygen.sh docs for valid filter keys"@, "remove the offending --filter k=v"@],
            see_also: seq!["list filters"@],
        },
        EntryView {
            code: "FILTER_UNSUPPORTED"@,
            title: "Server ignored a filter parameter and returned an unfiltered collection."@,
            cause: seq!["Keygen.sh uses top-level query params (e.g. `?policy=<id>`), not the JSON:API `filter[<key>]` namespace; CLI < 0.3.1 wrapped every `--filter k=v` in `filter[]`, which the server silently dropped."@, "An older CLI is talking to a current Keygen deployment, or a typo / unknown key slipped through, so the server returned the full collection."@],
            fix: seq!["upgrade `keygen-cli` to 0.3.1+ — it sends `?<key>=<value>` directly"@, "verify the filter key against the resource's docs (`keygen <res> list --help`)"@, "`keygen doctor` shows whether the active deployment honors relation filters"@],
            see_also: seq!["doctor"@, "list filters"@],
        },
        EntryView {
            code: "VALIDATION_FINGERPRINT_REQUIRED"@,
            title: "License validation requires a fingerprint scope."@,
            cause: seq!["policy.requireFingerprintScope=true."@],
            fix: seq!["keygen license validate <id> --fingerprint <fp>"@],
            see_also: seq!["license validate"@],
        },
        EntryView {
            code: "PROCESS_HEARTBEAT_DEAD"@,
            title: "Process missed its heartbeat window."@,
            cause: seq!["Process was not pinged within heartbeat duration."@],
            fix: seq!["keygen process ping <id>"@],
            see_also: seq!["process heartbeat"@],
        },
        EntryView {
            code: "ENV_FORBIDDEN"@,
            title: "Active token does not have access to this environment."@,
            cause: seq!["EE-only: token was issued for a different environment."@],
            fix: seq!["keygen env list"@, "keygen env switch <id>"@],
            see_also: seq!["env (EE)"@],
        },
        EntryView {
            code: "CHECKOUT_REQUIRED"@,
            title: "Policy requires a check-out before validation."@,
            cause: seq!["policy.requireCheckIn=true and last check-out has expired."@],
            fix: seq!["keygen license check-out <id>"@],
            see_also: seq!["license check-out"@],
        },
    ]
}

/// Index of the first catalogue entry whose code is `code` upper-cased.
pub open spec fn catalog_index(code: Seq<char>) -> Option<int> {
    if exists|i: int| 0 <= i < catalog_spec().len() && catalog_spec()[i].code == upper_seq(code) {
        Some(
            choose|i: int|
                0 <= i < catalog_spec().len() && catalog_spec()[i].code == upper_seq(code) && forall|
                    j: int,
                | 0 <= j < i ==> catalog_spec()[j].code != upper_seq(code),
        )
    } else {
        None
    }
}

/// The full catalogue.
#[verifier::rlimit(50)]
pub fn catalog() -> (r: Vec<ErrorEntry>)
    ensures
        r@.len() == catalog_spec().len(),
        forall|i: int| 0 <= i < r@.len() ==> #[trigger] r@[i]@ == catalog_spec()[i],
{
    let v = vec![
        ErrorEntry {
            code: "LICENSE_SUSPENDED",
            title: "License has been administratively suspended.",
            cause: &["An admin called `keygen license suspend <id>`.", "A webhook integration auto-suspended on a billing event."],
            fix: &["keygen license reinstate <id>"],
            see_also: &["license.suspended attribute"],
        },
        ErrorEntry {
            code: "LICENSE_EXPIRED",
            title: "License is past its expiry date.",
            cause: &["The license's `expiry` is in the past."],
            fix: &["keygen license renew <id>          # if the policy allows renewal", "issue a new license under a longer-duration policy"],
            see_also: &["license.expiry, policy.duration"],
        },
        ErrorEntry {
            code: "LICENSE_NOT_ACTIVATED",
            title: "License has no active machines.",
            cause: &["The user has not yet activated a machine for this license."],
            fix: &["keygen machine activate --license <lid> --fingerprint <fp>"],
            see_also: &["machine activate, machine fingerprint"],
        },
        ErrorEntry {
            code: "LICENSE_TOO_MANY_MACHINES",
            title: "License has reached its machine cap.",
            cause: &["policy.maxMachines reached.", "Old hardware is still registered (deactivation needed)."],
            fix: &["keygen machine list --filter license=<lid>", "keygen machine deactivate <id>          # remove old hardware", "raise policy.maxMachines on the license's policy"],
            see_also: &["policy.maxMachines, machine deactivate"],
        },
        ErrorEntry {
            code: "MACHINE_LIMIT_EXCEEDED",
            title: "Machine cap exceeded for this license / policy.",
            cause: &["A new activation would exceed policy.maxMachines."],
            fix: &["deactivate an old machine: keygen machine deactivate <id>", "raise policy.maxMachines"],
            see_also: &["policy.maxMachines"],
        },
        ErrorEntry {
            code: "MACHINE_HEARTBEAT_DEAD",
            title: "Machine missed its heartbeat window.",
            cause: &["policy.requireHeartbeat=true and policy.heartbeatDuration elapsed without a `machine ping`."],
            fix: &["keygen machine ping <id>", "set policy.requireHeartbeat=false if heartbeats are not desired"],
            see_also: &["machine ping, policy.heartbeatDuration"],
        },
        ErrorEntry {
            code: "FINGERPRINT_TAKEN",
            title: "Fingerprint already registered to a different machine.",
            cause: &["Two activations using the same hardware fingerprint."],
            fix: &["deactivate the previous machine before re-activating", "use a unique fingerprint per device"],
            see_also: &["machine.fingerprint"],
        },
        ErrorEntry {
            code: "TOKEN_INVALID",
            title: "Bearer token is malformed or unknown.",
            cause: &["Token was revoked or rotated.", "Wrong account / environment context (token was issued for another account)."],
            fix: &["keygen login", "ensure KEYGEN_TOKEN, KEYGEN_ACCOUNT, KEYGEN_HOST match the deployment"],
            see_also: &["keygen login, profile config"],
        },
        ErrorEntry {
            code: "TOKEN_EXPIRED",
            title: "Bearer token has expired.",
            cause: &["Token reached its `expiry` timestamp."],
            fix: &["keygen login", "keygen token regenerate <id>"],
            see_also: &["token.expiry"],
        },
        ErrorEntry {
            code: "TOKEN_FORBIDDEN",
            title: "Token does not have permission for this action.",
            cause: &["Product token used for an admin-only endpoint.", "User token without sufficient permissions."],
            fix: &["use an admin or product token with the right scopes"],
            see_also: &["token.permissions, role"],
        },
        ErrorEntry {
            code: "FORBIDDEN",
            title: "Active credentials cannot perform this operation.",
            cause: &["Token role / permissions don't allow this operation."],
            fix: &["log in with an admin token", "request the operator to grant the missing scope"],
            see_also: &["token, role, permissions"],
        },
        ErrorEntry {
            code: "UNAUTHORIZED",
            title: "Request did not include valid credentials.",
            cause: &["Missing Authorization header.", "Wrong scheme (Bearer vs License)."],
            fix: &["keygen login", "set KEYGEN_TOKEN before invoking"],
            see_also: &["auth"],
        },
        ErrorEntry {
            code: "NOT_FOUND",
            title: "Resource id does not exist (or is in another environment).",
            cause: &["Wrong id.", "Wrong environment for an EE deployment."],
            fix: &["keygen <resource> list  # find the right id", "keygen env switch <id>  # if on EE"],
            see_also: &["env, account"],
        },
        ErrorEntry {
            code: "VALIDATION_FAILED",
            title: "Request body failed schema validation.",
            cause: &["Required attribute missing.", "Wrong type for a field."],
            fix: &["keygen <resource> <action> --json --dry-run  # to inspect what's sent", "consult the keygen.sh docs for the resource's required fields"],
            see_also: &["request body, --set"],
        },
        ErrorEntry {
            code: "RATE_LIMIT_EXCEEDED",
            title: "Too many requests in a short window.",
            cause: &["The keygen.sh per-account or per-IP rate limit was hit."],
            fix: &["back off and retry after the `Retry-After` window", "batch operations where possible"],
            see_also: &["rate limit headers"],
        },
        ErrorEntry {
            code: "POLICY_PROTECTED",
            title: "Cannot modify a protected policy.",
            cause: &["policy.protected=true blocks attribute changes."],
            fix: &["set protected=false on the policy first", "use a different policy"],
            see_also: &["policy.protected"],
        },
        ErrorEntry {
            code: "USER_BANNED",
            title: "User account is banned.",
            cause: &["An admin banned the user with `keygen user ban`."],
            fix: &["keygen user unban <id>"],
            see_also: &["user ban / unban"],
        },
        ErrorEntry {
            code: "USER_NOT_VERIFIED",
            title: "User has not verified their email.",
            cause: &["The user signed up but never confirmed via email."],
            fix: &["resend the verification email; complete the verification flow"],
            see_also: &["user.verified"],
        },
        ErrorEntry {
            code: "GROUP_USER_LIMIT_EXCEEDED",
            title: "Group has reached its maxUsers cap.",
            cause: &["group.maxUsers reached."],
            fix: &["increase group.maxUsers", "remove an existing member"],
            see_also: &["group.maxUsers"],
        },
        ErrorEntry {
            code: "ENTITLEMENT_CONSTRAINT_FAILED",
            title: "License doesn't satisfy required entitlement constraints.",
            cause: &["Validation scope listed an entitlement the license lacks."],
            fix: &["keygen policy entitlements list <pid>", "keygen policy entitlements attach <pid> --entitlement <eid>"],
            see_also: &["entitlements, validate scope"],
        },
        ErrorEntry {
            code: "ARTIFACT_NOT_UPLOADED",
            title: "Release artifact is missing its binary.",
            cause: &["The artifact resource exists but `keygen artifact upload` was never run."],
            fix: &["keygen artifact upload <id> --file <path>"],
            see_also: &["artifact upload"],
        },
        ErrorEntry {
            code: "RELEASE_YANKED",
            title: "Release was yanked and cannot be re-published.",
            cause: &["A yanked release is read-only."],
            fix: &["create a new release", "consult: keygen release get <id>"],
            see_also: &["release.yanked"],
        },
        ErrorEntry {
            code: "PRODUCT_NOT_FOUND",
            title: "Referenced product does not exist in this account.",
            cause: &["Wrong product id.", "Wrong account context."],
            fix: &["keygen product list", "verify KEYGEN_ACCOUNT or active profile"],
            see_also: &["account, product list"],
        },
        ErrorEntry {
            code: "ACCOUNT_BILLING_DELINQUENT",
            title: "Account has an outstanding billing issue.",
            cause: &["Card on file failed.", "Subscription lapsed."],
            fix: &["update billing info on keygen.sh dashboard"],
            see_also: &["billing"],
        },
        ErrorEntry {
            code: "WEBHOOK_DELIVERY_FAILED",
            title: "Webhook endpoint did not return 2xx.",
            cause: &["Endpoint URL is down or returning errors."],
            fix: &["keygen webhook events retry <eid>", "verify the endpoint is reachable and accepting POST"],
            see_also: &["webhook events retry"],
        },
        ErrorEntry {
            code: "FILESIZE_EXCEEDS_LIMIT",
            title: "Uploaded file exceeds the artifact size cap.",
            cause: &["The binary is larger than your plan allows."],
            fix: &["compress / split the binary", "upgrade plan"],
            see_also: &["artifact upload"],
        },
        ErrorEntry {
            code: "INVALID_FILTER",
            title: "Filter key not recognized for this resource.",
            cause: &["Misspelled filter param.", "Filter not supported on this resource."],
            fix: &["consult the keygen.sh docs for valid filter keys", "remove the offending --filter k=v"],
            see_also: &["list filters"],
        },
        ErrorEntry {
            code: "FILTER_UNSUPPORTED",
            title: "Server ignored a filter parameter and returned an unfiltered collection.",
            cause: &["Keygen.sh uses top-level query params (e.g. `?policy=<id>`), not the JSON:API `filter[<key>]` namespace; CLI < 0.3.1 wrapped every `--filter k=v` in `filter[]`, which the server silently dropped.", "An older CLI is talking to a current Keygen deployment, or a typo / unknown key slipped through, so the server returned the full collection."],
            fix: &["upgrade `keygen-cli` to 0.3.1+ — it sends `?<key>=<value>` directly", "verify the filter key against the resource's docs (`keygen <res> list --help`)", "`keygen doctor` shows whether the active deployment honors relation filters"],
            see_also: &["doctor", "list filters"],
        },
        ErrorEntry {
            code: "VALIDATION_FINGERPRINT_REQUIRED",
            title: "License validation requires a fingerprint scope.",
            cause: &["policy.requireFingerprintScope=true."],
            fix: &["keygen license validate <id> --fingerprint <fp>"],
            see_also: &["license validate"],
        },
        ErrorEntry {
            code: "PROCESS_HEARTBEAT_DEAD",
            title: "Process missed its heartbeat window.",
            cause: &["Process was not pinged within heartbeat duration."],
            fix: &["keygen process ping <id>"],
            see_also: &["process heartbeat"],
        },
        ErrorEntry {
            code: "ENV_FORBIDDEN",
            title: "Active token does not have access to this environment.",
            cause: &["EE-only: token was issued for a different environment."],
            fix: &["keygen env list", "keygen env switch <id>"],
            see_also: &["env (EE)"],
        },
        ErrorEntry {
            code: "CHECKOUT_REQUIRED",
            title: "Policy requires a check-out before validation.",
            cause: &["policy.requireCheckIn=true and last check-out has expired."],
            fix: &["keygen license check-out <id>"],
            see_also: &["license check-out"],
        },
    ];
    assert(v@[0]@.cause =~= seq!["An admin called `keygen license suspend <id>`."@, "A webhook integration auto-suspended on a billing event."@]);
    assert(v@[0]@.fix =~= seq!["keygen license reinstate <id>"@]);
    assert(v@[0]@.see_also =~= seq!["license.suspended attribute"@]);
    assert(v@[1]@.cause =~= seq!["The license's `expiry` is in the past."@]);
    assert(v@[1]@.fix =~= seq!["keygen license renew <id>          # if the policy allows renewal"@, "issue a new license under a longer-duration policy"@]);
    assert(v@[1]@.see_also =~= seq!["license.expiry, policy.duration"@]);
    assert(v@[2]@.cause =~= seq!["The user has not yet activated a machine for this license."@]);
    assert(v@[2]@.fix =~= seq!["keygen machine activate --license <lid> --fingerprint <fp>"@]);
    assert(v@[2]@.see_also =~= seq!["machine activate, machine fingerprint"@]);
    assert(v@[3]@.cause =~= seq!["policy.maxMachines reached."@, "Old hardware is still registered (deactivation needed)."@]);
    assert(v@[3]@.fix =~= seq!["keygen machine list --filter license=<lid>"@, "keygen machine deactivate <id>          # remove old hardware"@, "raise policy.maxMachines on the license's policy"@]);
    assert(v@[3]@.see_also =~= seq!["policy.maxMachines, machine deactivate"@]);
    assert(v@[4]@.cause =~= seq!["A new activation would exceed policy.maxMachines."@]);
    assert(v@[4]@.fix =~= seq!["deactivate an old machine: keygen machine deactivate <id>"@, "raise policy.maxMachines"@]);
    assert(v@[4]@.see_also =~= seq!["policy.maxMachines"@]);
    assert(v@[5]@.cause =~= seq!["policy.requireHeartbeat=true and policy.heartbeatDuration elapsed without a `machine ping`."@]);
    assert(v@[5]@.fix =~= seq!["keygen machine ping <id>"@, "set policy.requireHeartbeat=false if heartbeats are not desired"@]);
    assert(v@[5]@.see_also =~= seq!["machine ping, policy.heartbeatDuration"@]);
    assert(v@[6]@.cause =~= seq!["Two activations using the same hardware fingerprint."@]);
    assert(v@[6]@.fix =~= seq!["deactivate the previous machine before re-activating"@, "use a unique fingerprint per device"@]);
    assert(v@[6]@.see_also =~= seq!["machine.fingerprint"@]);
    assert(v@[7]@.cause =~= seq!["Token was revoked or rotated."@, "Wrong account / environment context (token was issued for another account)."@]);
    assert(v@[7]@.fix =~= seq!["keygen login"@, "ensure KEYGEN_TOKEN, KEYGEN_ACCOUNT, KEYGEN_HOST match the deployment"@]);
    assert(v@[7]@.see_also =~= seq!["keygen login, profile config"@]);
    assert(v@[8]@.cause =~= seq!["Token reached its `expiry` timestamp."@]);
    assert(v@[8]@.fix =~= seq!["keygen login"@, "keygen token regenerate <id>"@]);
    assert(v@[8]@.see_also =~= seq!["token.expiry"@]);
    assert(v@[9]@.cause =~= seq!["Product token used for an admin-only endpoint."@, "User token without sufficient permissions."@]);
    assert(v@[9]@.fix =~= seq!["use an admin or product token with the right scopes"@]);
    assert(v@[9]@.see_also =~= seq!["token.permissions, role"@]);
    assert(v@[10]@.cause =~= seq!["Token role / permissions don't allow this operation."@]);
    assert(v@[10]@.fix =~= seq!["log in with an admin token"@, "request the operator to grant the missing scope"@]);
    assert(v@[10]@.see_also =~= seq!["token, role, permissions"@]);
    assert(v@[11]@.cause =~= seq!["Missing Authorization header."@, "Wrong scheme (Bearer vs License)."@]);
    assert(v@[11]@.fix =~= seq!["keygen login"@, "set KEYGEN_TOKEN before invoking"@]);
    assert(v@[11]@.see_also =~= seq!["auth"@]);
    assert(v@[12]@.cause =~= seq!["Wrong id."@, "Wrong environment for an EE deployment."@]);
    assert(v@[12]@.fix =~= seq!["keygen <resource> list  # find the right id"@, "keygen env switch <id>  # if on EE"@]);
    assert(v@[12]@.see_also =~= seq!["env, account"@]);
    assert(v@[13]@.cause =~= seq!["Required attribute missing."@, "Wrong type for a field."@]);
    assert(v@[13]@.fix =~= seq!["keygen <resource> <action> --json --dry-run  # to inspect what's sent"@, "consult the keygen.sh docs for the resource's required fields"@]);
    assert(v@[13]@.see_also =~= seq!["request body, --set"@]);
    assert(v@[14]@.cause =~= seq!["The keygen.sh per-account or per-IP rate limit was hit."@]);
    assert(v@[14]@.fix =~= seq!["back off and retry after the `Retry-After` window"@, "batch operations where possible"@]);
    assert(v@[14]@.see_also =~= seq!["rate limit headers"@]);
    assert(v@[15]@.cause =~= seq!["policy.protected=true blocks attribute changes."@]);
    assert(v@[15]@.fix =~= seq!["set protected=false on the policy first"@, "use a different policy"@]);
    assert(v@[15]@.see_also =~= seq!["policy.protected"@]);
    assert(v@[16]@.cause =~= seq!["An admin banned the user with `keygen user ban`."@]);
    assert(v@[16]@.fix =~= seq!["keygen user unban <id>"@]);
    assert(v@[16]@.see_also =~= seq!["user ban / unban"@]);
    assert(v@[17]@.cause =~= seq!["The user signed up but never confirmed via email."@]);
    assert(v@[17]@.fix =~= seq!["resend the verification email; complete the verification flow"@]);
    assert(v@[17]@.see_also =~= seq!["user.verified"@]);
    assert(v@[18]@.cause =~= seq!["group.maxUsers reached."@]);
    assert(v@[18]@.fix =~= seq!["increase group.maxUsers"@, "remove an existing member"@]);
    assert(v@[18]@.see_also =~= seq!["group.maxUsers"@]);
    assert(v@[19]@.cause =~= seq!["Validation scope listed an entitlement the license lacks."@]);
    assert(v@[19]@.fix =~= seq!["keygen policy entitlements list <pid>"@, "keygen policy entitlements attach <pid> --entitlement <eid>"@]);
    assert(v@[19]@.see_also =~= seq!["entitlements, validate scope"@]);
    assert(v@[20]@.cause =~= seq!["The artifact resource exists but `keygen artifact upload` was never run."@]);
    assert(v@[20]@.fix =~= seq!["keygen artifact upload <id> --file <path>"@]);
    assert(v@[20]@.see_also =~= seq!["artifact upload"@]);
    assert(v@[21]@.cause =~= seq!["A yanked release is read-only."@]);
    assert(v@[21]@.fix =~= seq!["create a new release"@, "consult: keygen release get <id>"@]);
    assert(v@[21]@.see_also =~= seq!["release.yanked"@]);
    assert(v@[22]@.cause =~= seq!["Wrong product id."@, "Wrong account context."@]);
    assert(v@[22]@.fix =~= seq!["keygen product list"@, "verify KEYGEN_ACCOUNT or active profile"@]);
    assert(v@[22]@.see_also =~= seq!["account, product list"@]);
    assert(v@[23]@.cause =~= seq!["Card on file failed."@, "Subscription lapsed."@]);
    assert(v@[23]@.fix =~= seq!["update billing info on keygen.sh dashboard"@]);
    assert(v@[23]@.see_also =~= seq!["billing"@]);
    assert(v@[24]@.cause =~= seq!["Endpoint URL is down or returning errors."@]);
    assert(v@[24]@.fix =~= seq!["keygen webhook events retry <eid>"@, "verify the endpoint is reachable and accepting POST"@]);
    assert(v@[24]@.see_also =~= seq!["webhook events retry"@]);
    assert(v@[25]@.cause =~= seq!["The binary is larger than your plan allows."@]);
    assert(v@[25]@.fix =~= seq!["compress / split the binary"@, "upgrade plan"@]);
    assert(v@[25]@.see_also =~= seq!["artifact upload"@]);
    assert(v@[26]@.cause =~= seq!["Misspelled filter param."@, "Filter not supported on this resource."@]);
    assert(v@[26]@.fix =~= seq!["consult the keygen.sh docs for valid filter keys"@, "remove the offending --filter k=v"@]);
    assert(v@[26]@.see_also =~= seq!["list filters"@]);
    assert(v@[27]@.cause =~= seq!["Keygen.sh uses top-level query params (e.g. `?policy=<id>`), not the JSON:API `filter[<key>]` namespace; CLI < 0.3.1 wrapped every `--filter k=v` in `filter[]`, which the server silently dropped."@, "An older CLI is talking to a current Keygen deployment, or a typo / unknown key slipped through, so the server returned the full collection."@]);
    assert(v@[27]@.fix =~= seq!["upgrade `keygen-cli` to 0.3.1+ — it sends `?<key>=<value>` directly"@, "verify the filter key against the resource's docs (`keygen <res> list --help`)"@, "`keygen doctor` shows whether the active deployment honors relation filters"@]);
    assert(v@[27]@.see_also =~= seq!["doctor"@, "list filters"@]);
    assert(v@[28]@.cause =~= seq!["policy.requireFingerprintScope=true."@]);
    assert(v@[28]@.fix =~= seq!["keygen license validate <id> --fingerprint <fp>"@]);
    assert(v@[28]@.see_also =~= seq!["license validate"@]);
    assert(v@[29]@.cause =~= seq!["Process was not pinged within heartbeat duration."@]);
    assert(v@[29]@.fix =~= seq!["keygen process ping <id>"@]);
    assert(v@[29]@.see_also =~= seq!["process heartbeat"@]);
    assert(v@[30]@.cause =~= seq!["EE-only: token was issued for a different environment."@]);
    assert(v@[30]@.fix =~= seq!["keygen env list"@, "keygen env switch <id>"@]);
    assert(v@[30]@.see_also =~= seq!["env (EE)"@]);
    assert(v@[31]@.cause =~= seq!["policy.requireCheckIn=true and last check-out has expired."@]);
    assert(v@[31]@.fix =~= seq!["keygen license check-out <id>"@]);
    assert(v@[31]@.see_also =~= seq!["license check-out"@]);
    assert(v@.map_values(|e: ErrorEntry| e@) =~= catalog_spec());
    assert forall|i: int| 0 <= i < v@.len() implies #[trigger] v@[i]@ == catalog_spec()[i] by {
        assert(v@.map_values(|e: ErrorEntry| e@)[i] == v@[i]@);
    }
    v
}


proof fn lemma_catalog_index_first(code: Seq<char>, k: int)
    requires
        0 <= k < catalog_spec().len(),
        catalog_spec()[k].code == upper_seq(code),
        forall|j: int| 0 <= j < k ==> catalog_spec()[j].code != upper_seq(code),
    ensures
        catalog_index(code) == Some(k),
{
    let i = choose|i: int|
        0 <= i < catalog_spec().len() && catalog_spec()[i].code == upper_seq(code) && forall|j: int|
            0 <= j < i ==> catalog_spec()[j].code != upper_seq(code);
    assert(0 <= i < catalog_spec().len() && catalog_spec()[i].code == upper_seq(code));
    if i < k {
        assert(catalog_spec()[i].code != upper_seq(code));
    } else if i > k {
        assert(catalog_spec()[k].code != upper_seq(code));
    }
}

proof fn lemma_catalog_index_bounds(code: Seq<char>)
    ensures
        catalog_index(code) matches Some(i) ==> 0 <= i < catalog_spec().len()
            && catalog_spec()[i].code == upper_seq(code),
{
    if exists|i: int| 0 <= i < catalog_spec().len() && catalog_spec()[i].code == upper_seq(code) {
        let w = choose|i: int| 0 <= i < catalog_spec().len() && catalog_spec()[i].code == upper_seq(code);
        lemma_least_match(code, w);
    }
}

proof fn lemma_least_match(code: Seq<char>, w: int)
    requires
        0 <= w < catalog_spec().len(),
        catalog_spec()[w].code == upper_seq(code),
    ensures
        exists|i: int|
            0 <= i < catalog_spec().len() && catalog_spec()[i].code == upper_seq(code) && forall|j: int|
                0 <= j < i ==> catalog_spec()[j].code != upper_seq(code),
    decreases w,
{
    if exists|j: int| 0 <= j < w && catalog_spec()[j].code == upper_seq(code) {
        let j = choose|j: int| 0 <= j < w && catalog_spec()[j].code == upper_seq(code);
        lemma_least_match(code, j);
    } else {
        assert(0 <= w < catalog_spec().len() && catalog_spec()[w].code == upper_seq(code) && forall|
            j: int,
        | 0 <= j < w ==> catalog_spec()[j].code != upper_seq(code));
    }
}

/// Look an error code up, ignoring ASCII letter case.
pub fn lookup(code: &str) -> (r: Option<ErrorEntry>)
    ensures
        match r {
            Some(e) => catalog_index(code@) matches Some(i) && e@ == catalog_spec()[i],
            None => catalog_index(code@) is None,
        },
{
    let cat = catalog();
    let n = cat.len();
    let mut i: usize = 0;
    while i < n
        invariant
            n == cat@.len(),
            n == catalog_spec().len(),
            i <= n,
            forall|k: int| 0 <= k < n ==> #[trigger] cat@[k]@ == catalog_spec()[k],
            forall|j: int| 0 <= j < i ==> catalog_spec()[j].code != upper_seq(code@),
        decreases n - i,
    {
        let e = cat[i];
        assert(cat@[i as int]@ == catalog_spec()[i as int]);
        if upper_eq(code, e.code) {
            proof {
                lemma_catalog_index_first(code@, i as int);
            }
            return Some(e);
        }
        i = i + 1;
    }
    None
}

/// The codes of every catalogued error, in catalogue order.
pub fn list_codes() -> (r: Vec<&'static str>)
    ensures
        r@.len() == catalog_spec().len(),
        forall|i: int| 0 <= i < r@.len() ==> #[trigger] r@[i]@ == catalog_spec()[i].code,
        forall|i: int|
            0 <= i < r@.len() ==> (catalog_index(#[trigger] r@[i]@) matches Some(k)
                && catalog_spec()[k].code == r@[i]@),
{
    let cat = catalog();
    let n = cat.len();
    let mut out: Vec<&'static str> = Vec::new();
    let mut i: usize = 0;
    while i < n
        invariant
            n == cat@.len(),
            n == catalog_spec().len(),
            i <= n,
            out@.len() == i,
            forall|k: int| 0 <= k < n ==> #[trigger] cat@[k]@ == catalog_spec()[k],
            forall|k: int| 0 <= k < i ==> #[trigger] out@[k]@ == catalog_spec()[k].code,
        decreases n - i,
    {
        assert(cat@[i as int]@ == catalog_spec()[i as int]);
        out.push(cat[i].code);
        i = i + 1;
    }
    proof {
        assert forall|i: int| 0 <= i < out@.len() implies (catalog_index(#[trigger] out@[i]@) matches Some(k)
            && catalog_spec()[k].code == out@[i]@) by {
            listed_codes_are_found(i);
        }
    }
    out
}

proof fn lemma_upper_idempotent(s: Seq<char>)
    ensures
        upper_seq(upper_seq(s)) == upper_seq(s),
{
    assert(upper_seq(upper_seq(s)) =~= upper_seq(s));
}

#[verifier::rlimit(50)]
proof fn lemma_codes_upper_case()
    ensures
        forall|i: int|
            0 <= i < catalog_spec().len() ==> upper_seq(#[trigger] catalog_spec()[i].code)
                == catalog_spec()[i].code,
{
    reveal_strlit("LICENSE_SUSPENDED");
    assert(upper_seq("LICENSE_SUSPENDED"@) =~= "LICENSE_SUSPENDED"@);
    reveal_strlit("LICENSE_EXPIRED");
    assert(upper_seq("LICENSE_EXPIRED"@) =~= "LICENSE_EXPIRED"@);
    reveal_strlit("LICENSE_NOT_ACTIVATED");
    assert(upper_seq("LICENSE_NOT_ACTIVATED"@) =~= "LICENSE_NOT_ACTIVATED"@);
    reveal_strlit("LICENSE_TOO_MANY_MACHINES");
    assert(upper_seq("LICENSE_TOO_MANY_MACHINES"@) =~= "LICENSE_TOO_MANY_MACHINES"@);
    reveal_strlit("MACHINE_LIMIT_EXCEEDED");
    assert(upper_seq("MACHINE_LIMIT_EXCEEDED"@) =~= "MACHINE_LIMIT_EXCEEDED"@);
    reveal_strlit("MACHINE_HEARTBEAT_DEAD");
    assert(upper_seq("MACHINE_HEARTBEAT_DEAD"@) =~= "MACHINE_HEARTBEAT_DEAD"@);
    reveal_strlit("FINGERPRINT_TAKEN");
    assert(upper_seq("FINGERPRINT_TAKEN"@) =~= "FINGERPRINT_TAKEN"@);
    reveal_strlit("TOKEN_INVALID");
    assert(upper_seq("TOKEN_INVALID"@) =~= "TOKEN_INVALID"@);
    reveal_strlit("TOKEN_EXPIRED");
    assert(upper_seq("TOKEN_EXPIRED"@) =~= "TOKEN_EXPIRED"@);
    reveal_strlit("TOKEN_FORBIDDEN");
    assert(upper_seq("TOKEN_FORBIDDEN"@) =~= "TOKEN_FORBIDDEN"@);
    reveal_strlit("FORBIDDEN");
    assert(upper_seq("FORBIDDEN"@) =~= "FORBIDDEN"@);
    reveal_strlit("UNAUTHORIZED");
    assert(upper_seq("UNAUTHORIZED"@) =~= "UNAUTHORIZED"@);
    reveal_strlit("NOT_FOUND");
    assert(upper_seq("NOT_FOUND"@) =~= "NOT_FOUND"@);
    reveal_strlit("VALIDATION_FAILED");
    assert(upper_seq("VALIDATION_FAILED"@) =~= "VALIDATION_FAILED"@);
    reveal_strlit("RATE_LIMIT_EXCEEDED");
    assert(upper_seq("RATE_LIMIT_EXCEEDED"@) =~= "RATE_LIMIT_EXCEEDED"@);
    reveal_strlit("POLICY_PROTECTED");
    assert(upper_seq("POLICY_PROTECTED"@) =~= "POLICY_PROTECTED"@);
    reveal_strlit("USER_BANNED");
    assert(upper_seq("USER_BANNED"@) =~= "USER_BANNED"@);
    reveal_strlit("USER_NOT_VERIFIED");
    assert(upper_seq("USER_NOT_VERIFIED"@) =~= "USER_NOT_VERIFIED"@);
    reveal_strlit("GROUP_USER_LIMIT_EXCEEDED");
    assert(upper_seq("GROUP_USER_LIMIT_EXCEEDED"@) =~= "GROUP_USER_LIMIT_EXCEEDED"@);
    reveal_strlit("ENTITLEMENT_CONSTRAINT_FAILED");
    assert(upper_seq("ENTITLEMENT_CONSTRAINT_FAILED"@) =~= "ENTITLEMENT_CONSTRAINT_FAILED"@);
    reveal_strlit("ARTIFACT_NOT_UPLOADED");
    assert(upper_seq("ARTIFACT_NOT_UPLOADED"@) =~= "ARTIFACT_NOT_UPLOADED"@);
    reveal_strlit("RELEASE_YANKED");
    assert(upper_seq("RELEASE_YANKED"@) =~= "RELEASE_YANKED"@);
    reveal_strlit("PRODUCT_NOT_FOUND");
    assert(upper_seq("PRODUCT_NOT_FOUND"@) =~= "PRODUCT_NOT_FOUND"@);
    reveal_strlit("ACCOUNT_BILLING_DELINQUENT");
    assert(upper_seq("ACCOUNT_BILLING_DELINQUENT"@) =~= "ACCOUNT_BILLING_DELINQUENT"@);
    reveal_strlit("WEBHOOK_DELIVERY_FAILED");
    assert(upper_seq("WEBHOOK_DELIVERY_FAILED"@) =~= "WEBHOOK_DELIVERY_FAILED"@);
    reveal_strlit("FILESIZE_EXCEEDS_LIMIT");
    assert(upper_seq("FILESIZE_EXCEEDS_LIMIT"@) =~= "FILESIZE_EXCEEDS_LIMIT"@);
    reveal_strlit("INVALID_FILTER");
    assert(upper_seq("INVALID_FILTER"@) =~= "INVALID_FILTER"@);
    reveal_strlit("FILTER_UNSUPPORTED");
    assert(upper_seq("FILTER_UNSUPPORTED"@) =~= "FILTER_UNSUPPORTED"@);
    reveal_strlit("VALIDATION_FINGERPRINT_REQUIRED");
    assert(upper_seq("VALIDATION_FINGERPRINT_REQUIRED"@) =~= "VALIDATION_FINGERPRINT_REQUIRED"@);
    reveal_strlit("PROCESS_HEARTBEAT_DEAD");
    assert(upper_seq("PROCESS_HEARTBEAT_DEAD"@) =~= "PROCESS_HEARTBEAT_DEAD"@);
    reveal_strlit("ENV_FORBIDDEN");
    assert(upper_seq("ENV_FORBIDDEN"@) =~= "ENV_FORBIDDEN"@);
    reveal_strlit("CHECKOUT_REQUIRED");
    assert(upper_seq("CHECKOUT_REQUIRED"@) =~= "CHECKOUT_REQUIRED"@);
}

/// Lookup ignores letter case: a code and its upper-cased form find the same
/// entry.
pub proof fn lookup_ignores_case(code: Seq<char>)
    ensures
        catalog_index(code) == catalog_index(upper_seq(code)),
{
    lemma_upper_idempotent(code);
}

/// Every listed code is found by lookup, and the entry found carries that
/// code.
pub proof fn listed_codes_are_found(i: int)
    requires
        0 <= i < catalog_spec().len(),
    ensures
        catalog_index(catalog_spec()[i].code) matches Some(k) && catalog_spec()[k].code
            == catalog_spec()[i].code,
{
    lemma_codes_upper_case();
    let c = catalog_spec()[i].code;
    assert(upper_seq(c) == c);
    lemma_least_match(c, i);
    lemma_catalog_index_bounds(c);
}

} // verus!
