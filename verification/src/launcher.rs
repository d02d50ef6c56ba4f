//! The command line of the backend process.
//!
//! The backend is a script run by an interpreter. It lives in a directory of
//! its own beneath the working directory of the application and is started
//! from there. Spawning is left to the caller; what is spawned is fixed here.

use vstd::prelude::*;

verus! {

/// The platform family the application runs on, as far as launching is
/// concerned.
#[derive(Clone, Copy, Debug, PartialEq, Eq, Structural)]
pub enum Platform {
    /// Executables carry the `.exe` suffix.
    Windows,
    /// Every other platform: executables carry no suffix.
    Other,
}

/// The directory of the backend, relative to the working directory of the
/// application.
pub const BACKEND_DIRECTORY: &'static str = "backend";

/// The entry script of the backend, relative to the backend's directory.
pub const ENTRY_SCRIPT: &'static str = "dist/cli/node.js";

/// What to spawn, and where.
#[derive(Clone, Copy, Debug, PartialEq, Eq)]
pub struct LaunchPlan {
    /// The executable, looked up as the platform looks up a bare name.
    pub program: &'static str,
    /// The single argument handed to the executable.
    pub argument: &'static str,
    /// The working directory of the new process, relative to the working
    /// directory of the application.
    pub directory: &'static str,
}

/// The name of the interpreter's executable on `platform`.
pub open spec fn interpreter_of(platform: Platform) -> Seq<char> {
    match platform {
        Platform::Windows => "node.exe"@,
        Platform::Other => "node"@,
    }
}

/// Picks the interpreter's executable name for `platform`.
pub fn interpreter_name(platform: Platform) -> (name: &'static str)
    ensures
        name@ == interpreter_of(platform),
{
    match platform {
        Platform::Windows => "node.exe",
        Platform::Other => "node",
    }
}

/// The launch of the backend on `platform`: the interpreter, run on the entry
/// script, inside the backend's directory.
pub fn launch_plan(platform: Platform) -> (plan: LaunchPlan)
    ensures
        plan.program@ == interpreter_of(platform),
        plan.argument@ == ENTRY_SCRIPT@,
        plan.directory@ == BACKEND_DIRECTORY@,
{
    LaunchPlan {
        program: interpreter_name(platform),
        argument: ENTRY_SCRIPT,
        directory: BACKEND_DIRECTORY,
    }
}

} // verus!
