//! The spawn specification and its failure modes.
//!
//! The supervisor makes one best-effort attempt to start the sidecar: it
//! resolves the executable by a stable identifier, injects the working
//! directory into the child's environment when one was resolved, and
//! reports failures once, without retrying. Building the specification
//! and wording the diagnostics is decided here; looking the executable up
//! and launching it is host-side work.

use vstd::prelude::*;
use vstd::string::StringExecFns;
use crate::path_resolver::Platform;

verus! {

/// The stable identifier under which the packaging layer makes the
/// sidecar binary discoverable.
pub open spec fn sidecar_identifier() -> Seq<char> {
    "backend_api"@
}

/// Environment variable through which the child learns its data
/// directory.
pub open spec fn work_dir_env_var() -> Seq<char> {
    "APP_WORK_DIR"@
}

/// Dynamic-library search-path variable, injected only on the platform
/// family that needs it.
pub open spec fn library_path_env_var() -> Seq<char> {
    "DYLD_LIBRARY_PATH"@
}

/// Why the single spawn attempt failed: the sidecar identifier could not
/// be resolved to a command, or the OS-level launch itself failed.
pub enum SpawnError {
    NotFound,
    LaunchFailed(String),
}

/// Everything the host needs to launch the sidecar: the executable
/// identity, the working directory ("" meaning no override), and the
/// environment variables to inject.
pub struct SpawnSpec {
    pub program: String,
    pub working_directory: String,
    pub environment: Vec<(String, String)>,
}

impl SpawnSpec {
    /// Environment keys are unique: no variable is injected twice.
    pub open spec fn wf(self) -> bool {
        forall|i: int, j: int|
            0 <= i < j < self.environment@.len() ==> self.environment@[i].0@ != self.environment@[j].0@
    }
}

/// Builds the spawn specification for one supervision session. An empty
/// working directory injects nothing, so the child runs with the
/// process-default environment; a non-empty one is injected as the data
/// directory, plus the library search path on the platform family that
/// requires it.
pub fn build_spawn_spec(platform: Platform, work_dir: String) -> (r: SpawnSpec)
    ensures
        r.wf(),
        r.program@ == sidecar_identifier(),
        r.working_directory@ == work_dir@,
        work_dir@.len() == 0 ==> r.environment@.len() == 0,
        work_dir@.len() > 0 ==> {
            &&& r.environment@[0].0@ == work_dir_env_var()
            &&& r.environment@[0].1@ == work_dir@
            &&& (platform == Platform::MacOs ==> {
                &&& r.environment@.len() == 2
                &&& r.environment@[1].0@ == library_path_env_var()
                &&& r.environment@[1].1@ == work_dir@
            })
            &&& (platform == Platform::Other ==> r.environment@.len() == 1)
        },
{
    let mut environment: Vec<(String, String)> = Vec::new();
    if !work_dir.as_str().is_empty() {
        environment.push(("APP_WORK_DIR".to_owned(), work_dir.clone()));
        if platform == Platform::MacOs {
            environment.push(("DYLD_LIBRARY_PATH".to_owned(), work_dir.clone()));
        }
    }
    proof {
        reveal_strlit("APP_WORK_DIR");
        reveal_strlit("DYLD_LIBRARY_PATH");
        assert(work_dir_env_var().len() != library_path_env_var().len());
    }
    SpawnSpec { program: "backend_api".to_owned(), working_directory: work_dir, environment }
}

/// The diagnostic record written when the single spawn attempt fails:
/// one line naming the failure, resolution failures and launch failures
/// worded apart, the launch failure carrying the OS reason.
pub open spec fn failure_line_spec(e: SpawnError) -> Seq<char> {
    match e {
        SpawnError::NotFound => "Failed to create sidecar command: sidecar not found"@,
        SpawnError::LaunchFailed(reason) => "Failed to spawn sidecar: "@ + reason@,
    }
}

/// Renders the diagnostic record for a failed spawn attempt.
pub fn failure_line(e: &SpawnError) -> (r: String)
    ensures
        r@ == failure_line_spec(*e),
{
    match e {
        SpawnError::NotFound => "Failed to create sidecar command: sidecar not found".to_owned(),
        SpawnError::LaunchFailed(reason) => {
            "Failed to spawn sidecar: ".to_owned().concat(reason.as_str())
        },
    }
}

/// The diagnostic record confirming a successful spawn and the working
/// directory the session resolved.
pub open spec fn spawn_confirmation_spec(work_dir: Seq<char>) -> Seq<char> {
    "Sidecar spawned successfully; work dir: "@ + work_dir
}

/// Renders the spawn-confirmation record.
pub fn spawn_confirmation_line(work_dir: &str) -> (r: String)
    ensures
        r@ == spawn_confirmation_spec(work_dir@),
{
    "Sidecar spawned successfully; work dir: ".to_owned().concat(work_dir)
}

/// The closing diagnostic record, written once the event channel closes.
pub open spec fn termination_line_spec() -> Seq<char> {
    "Sidecar process terminated."@
}

/// Renders the closing diagnostic record.
pub fn termination_line() -> (r: String)
    ensures
        r@ == termination_line_spec(),
{
    "Sidecar process terminated.".to_owned()
}

} // verus!
