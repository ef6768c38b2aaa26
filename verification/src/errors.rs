//! Error kinds surfaced by the supervisor and the health probe.

use vstd::prelude::*;
use vstd::string::StringExecFns;

verus! {

/// Why a supervisor or probe operation failed. Every failure is reported as
/// a descriptive message to the caller, never silently swallowed.
#[derive(Debug, Clone, PartialEq, Eq)]
pub enum SupervisorError {
    /// The OS could not create the backend process.
    Spawn(String),
    /// The OS rejected the request to terminate the backend process.
    Kill(String),
    /// No runnable command could be determined for the active launch mode.
    Resolution(String),
    /// The external tool could not be launched at all.
    Probe(String),
}

impl SupervisorError {
    /// The full message for this error: a prefix naming what failed,
    /// followed by the carried detail text.
    pub open spec fn spec_message(&self) -> Seq<char> {
        match self {
            SupervisorError::Spawn(m) => "failed to start backend: "@ + m@,
            SupervisorError::Kill(m) => "failed to stop backend: "@ + m@,
            SupervisorError::Resolution(m) => "failed to resolve backend command: "@ + m@,
            SupervisorError::Probe(m) => "failed to check external tool: "@ + m@,
        }
    }

    /// Render the error as a line of text for the host to display.
    pub fn message(&self) -> (out: String)
        ensures
            out@ == self.spec_message(),
    {
        match self {
            SupervisorError::Spawn(m) => {
                let mut s = "failed to start backend: ".to_owned();
                s.append(m.as_str());
                s
            },
            SupervisorError::Kill(m) => {
                let mut s = "failed to stop backend: ".to_owned();
                s.append(m.as_str());
                s
            },
            SupervisorError::Resolution(m) => {
                let mut s = "failed to resolve backend command: ".to_owned();
                s.append(m.as_str());
                s
            },
            SupervisorError::Probe(m) => {
                let mut s = "failed to check external tool: ".to_owned();
                s.append(m.as_str());
                s
            },
        }
    }
}

} // verus!
