//! The decision logic of the privilege grant.
//!
//! Granting the core binary its elevated network rights interleaves outside
//! work — resolving the binary's path, reading its metadata, spawning a
//! privileged child process — with decisions. The decisions live here as
//! pure functions: `plan_grant` turns the observed facts into the one
//! privileged command to run (or into an error, or into nothing when the
//! grant is already in place), and `interpret_output` turns the child
//! process's exit into the caller's result. The surrounding program
//! performs the outside work and feeds its observations in as plain values.

use vstd::prelude::*;
use crate::command::choose_elevator;
use crate::command::elevator_spec;
use crate::command::osascript_command;
use crate::command::osascript_command_spec;
use crate::command::setcap_script;
use crate::command::setcap_script_spec;

verus! {

/// The platform families the grant distinguishes.
#[derive(Clone, Copy, PartialEq, Eq, Structural, Debug)]
pub enum Platform {
    /// BSD-lineage Unix: grant by setuid/setgid through an administrator
    /// prompt.
    MacLike,
    /// Other Unix: grant by `setcap` through `pkexec` or `sudo`.
    LinuxLike,
    /// Anything else: no supported elevation mechanism.
    Other,
}

/// The file metadata the fast-path check reads: owner id, group id and
/// permission bits of the core binary.
#[derive(Clone, Copy, PartialEq, Eq, Structural, Debug)]
pub struct FileMeta {
    pub uid: u32,
    pub gid: u32,
    pub mode: u32,
}

/// Whether metadata already shows the grant: owner root, group admin
/// (group id 80), and both the setuid and the setgid bit set.
pub open spec fn meta_granted(m: FileMeta) -> bool {
    m.uid == 0 && m.gid == 80 && m.mode & 0o4000 != 0 && m.mode & 0o2000 != 0
}

/// Checks the fast path: true exactly when the metadata already shows the
/// grant, so that no privileged command need run.
pub fn already_granted(m: &FileMeta) -> (r: bool)
    ensures
        r == meta_granted(*m),
{
    m.uid == 0 && m.gid == 80 && m.mode & 0o4000 != 0 && m.mode & 0o2000 != 0
}

/// Why a grant failed.
#[derive(Debug)]
pub enum GrantError {
    /// The core binary could not be resolved to an existing canonical path.
    Resolution,
    /// The platform offers no supported elevation mechanism.
    Unsupported,
    /// The privileged child process exited with nonzero status; carries the
    /// captured standard-error text.
    CommandFailed(String),
}

/// What the caller must run to perform the grant.
#[derive(Debug)]
pub enum GrantPlan {
    /// The binary already carries the grant: run nothing.
    Nothing,
    /// Run `osascript -e <command>` and hand back its exit.
    Osascript { command: String },
    /// Run `<elevator> sh -c <script>` and hand back its exit.
    ShellScript { elevator: String, script: String },
}

/// The view of the optional resolved path as a sequence of characters.
pub open spec fn path_view(resolved: Option<&str>) -> Option<Seq<char>> {
    match resolved {
        Option::Some(p) => Option::Some(p@),
        Option::None => Option::None,
    }
}

/// The view of the optional metadata as a plain value.
pub open spec fn meta_view(meta: Option<&FileMeta>) -> Option<FileMeta> {
    match meta {
        Option::Some(m) => Option::Some(*m),
        Option::None => Option::None,
    }
}

/// What the grant plan must be, given the observed facts: the platform, the
/// resolved path (`None` when resolution failed), the metadata of the
/// target (`None` when it could not be read), and whether `pkexec` is
/// available.
pub open spec fn plan_ok(
    platform: Platform,
    path: Option<Seq<char>>,
    meta: Option<FileMeta>,
    pkexec_available: bool,
    r: Result<GrantPlan, GrantError>,
) -> bool {
    match platform {
        Platform::Other => r matches Err(GrantError::Unsupported),
        Platform::MacLike => match path {
            Option::None => r matches Err(GrantError::Resolution),
            Option::Some(p) => if meta matches Option::Some(m) && meta_granted(m) {
                r matches Ok(GrantPlan::Nothing)
            } else {
                r matches Ok(GrantPlan::Osascript { command }) && command@
                    == osascript_command_spec(p)
            },
        },
        Platform::LinuxLike => match path {
            Option::None => r matches Err(GrantError::Resolution),
            Option::Some(p) => r matches Ok(GrantPlan::ShellScript { elevator, script })
                && elevator@ == elevator_spec(pkexec_available) && script@
                == setcap_script_spec(p),
        },
    }
}

/// Decides the grant: which privileged command to run, if any.
///
/// Resolution failure is reported before anything else on both Unix
/// families, so no command is ever planned for an unresolved binary; an
/// already-granted binary (BSD lineage) plans nothing; an unsupported
/// platform is rejected outright.
pub fn plan_grant(
    platform: Platform,
    resolved: Option<&str>,
    meta: Option<&FileMeta>,
    pkexec_available: bool,
) -> (r: Result<GrantPlan, GrantError>)
    ensures
        plan_ok(platform, path_view(resolved), meta_view(meta), pkexec_available, r),
{
    match platform {
        Platform::Other => Err(GrantError::Unsupported),
        Platform::MacLike => match resolved {
            Option::None => Err(GrantError::Resolution),
            Option::Some(path) => {
                let granted_now = match meta {
                    Option::Some(m) => already_granted(m),
                    Option::None => false,
                };
                if granted_now {
                    Ok(GrantPlan::Nothing)
                } else {
                    Ok(GrantPlan::Osascript { command: osascript_command(path) })
                }
            },
        },
        Platform::LinuxLike => match resolved {
            Option::None => Err(GrantError::Resolution),
            Option::Some(path) => Ok(
                GrantPlan::ShellScript {
                    elevator: choose_elevator(pkexec_available),
                    script: setcap_script(path),
                },
            ),
        },
    }
}

/// Turns the privileged child process's exit into the caller's result: a
/// successful exit is a successful grant, and a nonzero exit carries the
/// captured standard-error text as the failure message.
pub fn interpret_output(success: bool, stderr: String) -> (r: Result<(), GrantError>)
    ensures
        success ==> r is Ok,
        !success ==> (r matches Err(GrantError::CommandFailed(m)) && m@ == stderr@),
{
    if success {
        Ok(())
    } else {
        Err(GrantError::CommandFailed(stderr))
    }
}

impl GrantError {
    /// The single textual message surfaced to the caller. For a failed
    /// privileged command it is exactly the captured standard-error text.
    pub fn message(&self) -> (r: String)
        ensures
            self matches GrantError::CommandFailed(m) ==> r@ == m@,
            self matches GrantError::Resolution ==> r@ == "failed to resolve the core binary path"@,
            self matches GrantError::Unsupported ==> r@ == "Unsupported target"@,
    {
        match self {
            GrantError::Resolution => String::from_str("failed to resolve the core binary path"),
            GrantError::Unsupported => String::from_str("Unsupported target"),
            GrantError::CommandFailed(m) => m.clone(),
        }
    }
}

/// Law: the grant is idempotent. A call that observes metadata already
/// carrying the grant — owner root, group admin, setuid and setgid both set
/// — plans no privileged command and succeeds; in particular, the call
/// after a successful grant is a no-op.
pub proof fn lemma_grant_idempotent(
    path: Seq<char>,
    m: FileMeta,
    pkexec_available: bool,
    r: Result<GrantPlan, GrantError>,
)
    requires
        meta_granted(m),
        plan_ok(
            Platform::MacLike,
            Option::Some(path),
            Option::Some(m),
            pkexec_available,
            r,
        ),
    ensures
        r matches Ok(GrantPlan::Nothing),
{
}

/// Law: a binary that fails path resolution fails the grant before any
/// privileged command is planned, on either Unix family.
pub proof fn lemma_resolution_failure_runs_nothing(
    platform: Platform,
    meta: Option<FileMeta>,
    pkexec_available: bool,
    r: Result<GrantPlan, GrantError>,
)
    requires
        platform != Platform::Other,
        plan_ok(platform, Option::None, meta, pkexec_available, r),
    ensures
        r matches Err(GrantError::Resolution),
{
}

} // verus!
