//! Probing external programs for their version.
//!
//! The pass runs each needed program with its version flag and reads the
//! outcome: captured output, "not on the search path", or a spawn failure.
//! Running the program happens outside the library; this module says what
//! each outcome means. Output — with any exit code, since some tools exit
//! nonzero on their version flag — means the tool is installed, and its
//! trimmed output is the detected version. A missing program is a gap that
//! a caller may remedy; any other spawn failure signals an environment too
//! broken to provision in and aborts the whole pass.

use vstd::prelude::*;

use crate::text::{trimmed, trim_str};

verus! {

/// What running `<program> <version flag>` produced.
#[derive(Debug)]
pub enum ProbeOutcome {
    /// The program ran and this is its captured standard output. The exit
    /// code does not matter: presence of output is sufficient.
    Output(String),
    /// The program could not be located on the search path.
    NotFound,
    /// Spawning failed for another reason.
    SpawnFailure,
}

/// A fatal condition: the provisioning pass must stop.
#[derive(Clone, Copy, Debug, PartialEq, Eq, Structural)]
pub enum ProvisionError {
    /// The toolchain manager is not installed. It is never auto-installed;
    /// the user must act first.
    ManagerNotFound,
    /// The build frontend is not installed.
    FrontendNotFound,
    /// A probe failed to spawn for a reason other than the program being
    /// absent.
    SpawnFailure,
    /// An installer subcommand exited nonzero.
    InstallFailed,
}

/// A probed tool: its name, the version its output reported, and whether it
/// is installed. Created fresh on every pass, never persisted.
#[derive(Debug)]
pub struct ToolStatus {
    pub name: String,
    pub detected_version: Option<String>,
    pub installed: bool,
}

/// Turns a probe outcome into the tool's status: output means installed,
/// with the trimmed output as the version; a missing program means not
/// installed; any other spawn failure is fatal.
pub fn tool_status(name: String, outcome: &ProbeOutcome) -> (r: Result<ToolStatus, ProvisionError>)
    ensures
        match outcome {
            ProbeOutcome::Output(o) => r matches Ok(ts) && ts.name == name && ts.installed
                && (ts.detected_version matches Some(v) && v@ == trimmed(o@)),
            ProbeOutcome::NotFound => r matches Ok(ts) && ts.name == name && !ts.installed
                && ts.detected_version is None,
            ProbeOutcome::SpawnFailure => r matches Err(e) && e is SpawnFailure,
        },
{
    match outcome {
        ProbeOutcome::Output(o) => Ok(ToolStatus {
            name,
            detected_version: Some(trim_str(o.as_str())),
            installed: true,
        }),
        ProbeOutcome::NotFound => Ok(ToolStatus { name, detected_version: None, installed: false }),
        ProbeOutcome::SpawnFailure => Err(ProvisionError::SpawnFailure),
    }
}

/// Whether a helper tool must be installed after probing it: a missing
/// program is the recoverable gap that an install remedies; output means
/// nothing to do; any other spawn failure is fatal.
pub fn install_needed_after_probe(outcome: &ProbeOutcome) -> (r: Result<bool, ProvisionError>)
    ensures
        match outcome {
            ProbeOutcome::Output(_) => r matches Ok(b) && !b,
            ProbeOutcome::NotFound => r matches Ok(b) && b,
            ProbeOutcome::SpawnFailure => r matches Err(e) && e is SpawnFailure,
        },
{
    match outcome {
        ProbeOutcome::Output(_) => Ok(false),
        ProbeOutcome::NotFound => Ok(true),
        ProbeOutcome::SpawnFailure => Err(ProvisionError::SpawnFailure),
    }
}

/// Escalates a nonzero installer exit to a fatal error: a gap the installer
/// could not remedy leaves the environment unusable.
pub fn classify_install_exit(success: bool) -> (r: Result<(), ProvisionError>)
    ensures
        success <==> r is Ok,
        !success ==> (r matches Err(e) && e is InstallFailed),
{
    if success {
        Ok(())
    } else {
        Err(ProvisionError::InstallFailed)
    }
}

} // verus!
