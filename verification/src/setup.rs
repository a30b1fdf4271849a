//! Application-setup decisions: the conditional install of the debug logging
//! facility — the only operation whose failure aborts startup — and the fixed
//! configuration of the spawn call.

use vstd::prelude::*;
use vstd::string::StringExecFns;

verus! {

/// The one failure that is fatal to application startup: in a debug build the
/// logging facility could not be installed. A failed spawn, by contrast, is
/// recovered locally and never surfaces here.
pub enum SetupError {
    LoggingInstallFailure(String),
}

impl SetupError {
    /// The error's text, naming what failed, for the host to surface when it
    /// aborts the launch.
    pub fn message(&self) -> (m: String)
        ensures
            self matches SetupError::LoggingInstallFailure(t) ==> m@ == "failed to install logging: "@
                + t@,
    {
        match self {
            SetupError::LoggingInstallFailure(t) => "failed to install logging: ".to_owned().concat(
                t.as_str(),
            ),
        }
    }
}

/// What the logging step decides. `attempt` is the result of installing the
/// logging facility, or `None` where no install was attempted — production
/// builds skip it entirely. Only an attempted install that failed aborts
/// startup.
pub open spec fn spec_logging_step(attempt: Option<Result<(), String>>) -> Result<
    (),
    SetupError,
> {
    match attempt {
        Some(Err(m)) => Err(SetupError::LoggingInstallFailure(m)),
        _ => Ok(()),
    }
}

/// Turns the logging-install attempt into the setup decision: a failed install
/// (debug builds only, since only they attempt one) is surfaced and aborts
/// application launch; a skipped or successful install lets startup proceed.
pub fn logging_step(attempt: Option<Result<(), String>>) -> (r: Result<(), SetupError>)
    ensures
        r == spec_logging_step(attempt),
        r is Err <==> attempt matches Some(Err(_)),
{
    match attempt {
        Some(Err(m)) => Err(SetupError::LoggingInstallFailure(m)),
        _ => Ok(()),
    }
}

/// The fixed, platform-specific absolute path of the backend executable; the
/// spawn call receives it with no arguments and no stream redirection.
pub fn backend_path() -> (p: &'static str)
    ensures
        p@ == "C:/Program Files/biyo/biyo-backend.exe"@,
{
    "C:/Program Files/biyo/biyo-backend.exe"
}

/// The process-creation flag that suppresses the console window for a
/// console-mode child, passed on the windowing system that would otherwise
/// pop one up for the spawned backend.
pub const CREATE_NO_WINDOW: u32 = 0x08000000;

} // verus!
