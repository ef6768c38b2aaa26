//! Interpretation of the one-shot health probe of the external tool.

use vstd::prelude::*;

use crate::errors::SupervisorError;

verus! {

/// The report the probe owes the host for a given invocation outcome. The
/// host runs the fixed external command to completion and hands back either
/// `Err(detail)` when the tool could not be launched at all, or
/// `Ok(success)` with the exit status's success flag when it ran.
pub open spec fn probe_report(
    outcome: &Result<bool, String>,
    r: &Result<bool, SupervisorError>,
) -> bool {
    match outcome {
        Ok(success) => r matches Ok(available) && available == success,
        Err(m) => r matches Err(e) && (e matches SupervisorError::Probe(d) && d@ == m@),
    }
}

/// Decide availability of the external tool from one probe invocation.
/// A tool that ran and itself reported failure is `Ok(false)`; a tool that
/// could not be run at all is an error — the two are never conflated, so
/// installation problems do not hide behind ordinary negative results.
pub fn check_external_tool(outcome: Result<bool, String>) -> (r: Result<bool, SupervisorError>)
    ensures
        probe_report(&outcome, &r),
{
    match outcome {
        Ok(success) => Ok(success),
        Err(m) => Err(SupervisorError::Probe(m)),
    }
}

/// Probe distinction: an absent tool yields an error, never `false`; a tool
/// that ran yields its success flag, never an error.
pub proof fn lemma_probe_distinction(
    outcome: &Result<bool, String>,
    r: &Result<bool, SupervisorError>,
)
    requires
        probe_report(outcome, r),
    ensures
        outcome is Err ==> r is Err,
        outcome matches Ok(success) ==> (r matches Ok(available) && available == success),
{
}

} // verus!
