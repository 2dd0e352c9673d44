//! Score submission logic of the Takure hook: decoding the game's property
//! fields, picking the stage to submit and building the Tachi import, plus
//! the start-up decisions of the hook.
pub mod configuration;
pub mod endpoints;
pub mod handlers;
pub mod helpers;
pub mod sys;
pub mod takure;
pub mod text;
pub mod types;

use vstd::prelude::*;
use crate::text::{contains_char, same_text, starts_with_char};

verus! {

/// The start-up banner for a build described by `describe` (a git
/// description such as `v1.2.0`) of package version `version`.
pub open spec fn banner(describe: Seq<char>, version: Seq<char>) -> Seq<char> {
    if describe.len() > 0 && describe[0] == 'v' {
        "Starting Takure "@ + describe + " by auxbh"@
    } else {
        "Starting Takure v"@ + version + "-"@ + describe + " by auxbh"@
    }
}

/// The lines logged at start-up: the banner, then the build date where known.
pub fn print_infos(describe: &str, version: &str, build_date: Option<&str>) -> (res: Vec<String>)
    ensures
        res@.len() == if build_date is Some { 2int } else { 1int },
        res@[0]@ == banner(describe@, version@),
        describe@.len() > 0 && describe@[0] == 'v' ==> res@[0]@ == "Starting Takure "@ + describe@
            + " by auxbh"@,
        !(describe@.len() > 0 && describe@[0] == 'v') ==> res@[0]@ == "Starting Takure v"@
            + version@ + "-"@ + describe@ + " by auxbh"@,
        build_date matches Some(d) ==> res@[1]@ == "Build date: "@ + d@,
{
    let mut first = String::new();
    if starts_with_char(describe, 'v') {
        first.append("Starting Takure ");
        first.append(describe);
        first.append(" by auxbh");
    } else {
        first.append("Starting Takure v");
        first.append(version);
        first.append("-");
        first.append(describe);
        first.append(" by auxbh");
    }
    let mut lines: Vec<String> = Vec::new();
    lines.push(first);
    match build_date {
        Some(d) => {
            let mut second = String::from_str("Build date: ");
            second.append(d);
            lines.push(second);
        },
        None => {},
    }
    lines
}

/// A build from a release tag: its description holds no `-` (a description
/// such as `v1.2.0-3-gabc` is a development build). Only such builds look
/// for newer releases.
pub fn is_tagged_release(describe: &str) -> (res: bool)
    ensures
        res == !describe@.contains('-'),
{
    !contains_char(describe, '-')
}

/// Whether to announce a newer release: the latest release tag differs from
/// this build's description, outside debug builds.
pub fn newer_release_available(describe: &str, latest_tag: &str, debug_build: bool) -> (res: bool)
    ensures
        res == (describe@ != latest_tag@ && !debug_build),
{
    !same_text(describe, latest_tag) && !debug_build
}

/// What the hook sets up when it is loaded.
#[derive(Debug, Clone, Copy, PartialEq, Eq, Structural)]
pub struct AttachPlan {
    /// Look for a newer release and only report it.
    pub check_for_update: bool,
    /// Detour the game's boot routine.
    pub enable_boot_hook: bool,
    /// Start from the game information cached before a self-update reload.
    pub restore_cached_info: bool,
    /// Update the hook in place once the game has booted.
    pub self_update: bool,
}

/// The set-up for a load of the hook. Without self-update support in the
/// build nothing counts as a reload; a reload after a self-update starts from
/// cached information and hooks nothing; otherwise the configured
/// `auto_update` chooses between updating in place and only reporting.
pub open spec fn attach_plan_of(self_update_built: bool, reloaded_after_update: bool, auto_update: bool) -> AttachPlan {
    let reloaded = self_update_built && reloaded_after_update;
    let updating = self_update_built && !reloaded && auto_update;
    AttachPlan {
        check_for_update: !reloaded && !updating,
        enable_boot_hook: !reloaded,
        restore_cached_info: reloaded,
        self_update: updating,
    }
}

/// Decides the set-up for a load of the hook.
pub fn attach_plan(self_update_built: bool, reloaded_after_update: bool, auto_update: bool) -> (res: AttachPlan)
    ensures
        res == attach_plan_of(self_update_built, reloaded_after_update, auto_update),
        !self_update_built ==> res == (AttachPlan {
            check_for_update: true,
            enable_boot_hook: true,
            restore_cached_info: false,
            self_update: false,
        }),
        self_update_built && reloaded_after_update ==> res == (AttachPlan {
            check_for_update: false,
            enable_boot_hook: false,
            restore_cached_info: true,
            self_update: false,
        }),
        self_update_built && !reloaded_after_update ==> res == (AttachPlan {
            check_for_update: !auto_update,
            enable_boot_hook: true,
            restore_cached_info: false,
            self_update: auto_update,
        }),
{
    let reloaded = self_update_built && reloaded_after_update;
    let updating = self_update_built && !reloaded && auto_update;
    AttachPlan {
        check_for_update: !reloaded && !updating,
        enable_boot_hook: !reloaded,
        restore_cached_info: reloaded,
        self_update: updating,
    }
}

/// Exactly one of reporting a newer release, updating in place and resuming
/// after an update happens at each load.
pub proof fn one_update_path_per_load(self_update_built: bool, reloaded_after_update: bool, auto_update: bool)
    ensures
        ({
            let p = attach_plan_of(self_update_built, reloaded_after_update, auto_update);
            &&& (p.check_for_update || p.self_update || p.restore_cached_info)
            &&& !(p.check_for_update && p.self_update)
            &&& !(p.check_for_update && p.restore_cached_info)
            &&& !(p.self_update && p.restore_cached_info)
            &&& p.enable_boot_hook == !p.restore_cached_info
        }),
{
}

} // verus!
