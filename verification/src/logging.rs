//! The logging subsystem's decision logic: an explicit one-time
//! initialization guard, the log file's canonical location, and the filter
//! that keeps the terminal UI library's own records out of the log.
//!
//! Opening the log file and installing the global logger are the caller's
//! side of the bargain: it asks the guard whether this call performs the
//! initialization, and carries the setup out only when the answer is yes.

use vstd::prelude::*;

verus! {

use vstd::string::StringExecFns;
use crate::text::{ends_with, starts_with, starts_with_str, lemma_ends_with_concat};

/// Explicit state for a process-wide one-time initialization: it records
/// whether the initialization has been claimed, so callers can tell the
/// first call's side effects from later idempotent no-ops.
pub struct InitGuard {
    initialized: bool,
}

impl InitGuard {
    /// Whether some call has already claimed the initialization.
    pub closed spec fn is_initialized(&self) -> bool {
        self.initialized
    }

    /// A fresh guard: nothing is initialized yet.
    pub fn new() -> (r: InitGuard)
        ensures
            !r.is_initialized(),
    {
        InitGuard { initialized: false }
    }
}

/// Decides whether this call performs the logging initialization: true
/// exactly on the first call against a given guard, and the guard is marked
/// either way, so every later call is a no-op.
pub fn init_logging(guard: &mut InitGuard) -> (performed: bool)
    ensures
        final(guard).is_initialized(),
        performed == !old(guard).is_initialized(),
{
    let first = !guard.initialized;
    guard.initialized = true;
    first
}

/// Errors that can occur while setting up the logging subsystem.
#[derive(Debug)]
pub enum InitLogError {
    Io(String),
    SetLogger(String),
}

impl InitLogError {
    /// Human-readable description of the failure.
    pub fn message(&self) -> (r: String)
        ensures
            r@ == match *self {
                InitLogError::Io(e) => "I/O error initializing logger: "@ + e@,
                InitLogError::SetLogger(e) => "Failed to set global logger: "@ + e@,
            },
    {
        match self {
            InitLogError::Io(e) => "I/O error initializing logger: ".to_owned().concat(e.as_str()),
            InitLogError::SetLogger(e) => "Failed to set global logger: ".to_owned().concat(
                e.as_str(),
            ),
        }
    }
}

/// Path of the log file: in the same directory as the configuration file.
pub fn log_file_path() -> (r: String)
    ensures
        ends_with(r@, "/rustm/rustm.log"@),
{
    let d = crate::config::app_config_dir();
    let r = d.concat("/rustm.log");
    proof {
        lemma_ends_with_concat(d@, "/rustm.log"@, "/rustm"@);
        reveal_strlit("/rustm");
        reveal_strlit("/rustm.log");
        reveal_strlit("/rustm/rustm.log");
        assert("/rustm"@ + "/rustm.log"@ =~= "/rustm/rustm.log"@);
    }
    r
}

/// Whether a log record from the given target is let through: the terminal
/// UI library's own records are filtered out of the application log.
pub fn log_target_allowed(target: &str) -> (r: bool)
    ensures
        r == !starts_with(target@, "cursive_core"@),
{
    !starts_with_str(target, "cursive_core")
}

} // verus!
