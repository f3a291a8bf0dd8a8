//! Account-scoped base URLs of the JSON:API.

use vstd::prelude::*;
use crate::cli::context::Context;
use crate::cli::globals::GlobalArgs;
use crate::config::file::ConfigFile;
use crate::config::profile::{resolve_spec, AccountMode, Profile};
use crate::error::Error;
use crate::text::{copy_str, opt_view};
use crate::urls::{parsed_from, segments_view, url_with_segments, url_with_segments_result};

verus! {

/// The path segments appended to the host: `v1`, then `accounts/<account>`
/// in multiplayer mode.
pub open spec fn base_segments(mode: AccountMode, account: Seq<char>) -> Seq<Seq<char>> {
    match mode {
        AccountMode::Multiplayer => seq!["v1"@, "accounts"@, account],
        AccountMode::Singleplayer => seq!["v1"@],
    }
}

/// The JSON:API base URL of a profile:
/// - Official: `https://api.keygen.sh/v1/accounts/<account>`
/// - self-hosted multiplayer: `https://<host>/v1/accounts/<account>`
/// - self-hosted singleplayer: `https://<host>/v1`
pub open spec fn base_url_spec(p: Profile, r: Result<String, Error>) -> bool {
    if !p.host.can_be_base {
        r matches Err(Error::Config(m)) && m@ == "host URL cannot be a base"@
    } else if p.mode == AccountMode::Multiplayer && p.account is None {
        r matches Err(Error::Config(m)) && m@
            == "multiplayer/Official deployment requires --account or KEYGEN_ACCOUNT"@
    } else {
        r matches Ok(u) && u@ == url_with_segments_result(
            p.host.input@,
            base_segments(
                p.mode,
                match opt_view(p.account) {
                    Some(a) => a,
                    None => Seq::empty(),
                },
            ),
        )
    }
}

/// Compute the JSON:API base URL of a profile whose host was parsed from its
/// input.
pub fn base_url(profile: &Profile) -> (r: Result<String, Error>)
    requires
        parsed_from(profile.host, profile.host.input@),
    ensures
        base_url_spec(*profile, r),
{
    if !profile.host.can_be_base {
        return Err(Error::config("host URL cannot be a base"));
    }
    let mut segs: Vec<String> = Vec::new();
    segs.push(String::from_str("v1"));
    match profile.mode {
        AccountMode::Multiplayer => {
            match &profile.account {
                Some(a) => {
                    segs.push(String::from_str("accounts"));
                    segs.push(copy_str(a));
                },
                None => {
                    return Err(
                        Error::config(
                            "multiplayer/Official deployment requires --account or KEYGEN_ACCOUNT",
                        ),
                    );
                },
            }
        },
        AccountMode::Singleplayer => {},
    }
    proof {
        let acc = match opt_view(profile.account) {
            Some(a) => a,
            None => Seq::empty(),
        };
        assert(segments_view(segs@) =~= base_segments(profile.mode, acc));
    }
    Ok(url_with_segments(profile.host.input.as_str(), &segs))
}

/// Resolve the runtime context from the flags and the configuration file,
/// then compute the base URL of its profile.
pub fn api_base_url(globals: &GlobalArgs, cfg: &ConfigFile) -> (r: Result<String, Error>)
    requires
        cfg.wf(),
    ensures
        match r {
            Ok(_) => exists|p: Profile| resolve_spec(*globals, *cfg, Ok(p)) && base_url_spec(p, r),
            Err(e) => resolve_spec(*globals, *cfg, Err(e)) || exists|p: Profile|
                resolve_spec(*globals, *cfg, Ok(p)) && base_url_spec(p, r),
        },
{
    let ctx = match Context::from_globals(globals, cfg) {
        Ok(c) => c,
        Err(e) => return Err(e),
    };
    let r = base_url(ctx.profile());
    assert(resolve_spec(*globals, *cfg, Ok(ctx.inner.profile)) && base_url_spec(ctx.inner.profile, r));
    r
}

} // verus!
