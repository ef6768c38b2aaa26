//! Supervision of a single long-running backend server process.
//!
//! The library is the decision core of a host application that owns at most
//! one backend process at a time. It chooses the command line for the active
//! launch mode, enforces single-instance start/stop semantics over one state
//! slot, drains a process's output events for an observer, and interprets a
//! one-shot health probe of a separate external tool. The host performs the
//! actual spawning, killing and stream reading and feeds the outcomes back in
//! as plain values.

use vstd::prelude::*;

pub mod errors;
pub mod probe;
pub mod relay;
pub mod strategy;
pub mod supervisor;

verus! {

/// Static build metadata reported to the host; no state interaction.
pub fn get_version() -> (v: String)
    ensures
        v@ == "0.1.0"@,
{
    "0.1.0".to_owned()
}

} // verus!
