//! The stateful core: one process slot, start/stop, single-instance policy.

use vstd::prelude::*;

use crate::errors::SupervisorError;
use crate::strategy::{CommandSpec, LaunchStrategy, resolves_to};

verus! {

/// An opaque token for one spawned backend process. The host keeps the
/// OS-level resources (kill capability, output channel) keyed by this
/// token; the supervisor only records ownership of it.
#[derive(Clone, Copy, Debug, PartialEq, Eq, Structural)]
pub struct ProcessHandle {
    pub pid: u64,
}

/// The informational outcome of a start or stop request. The two no-op
/// outcomes, `AlreadyRunning` and `NotRunning`, are statuses, not errors.
#[derive(Clone, Copy, Debug, PartialEq, Eq, Structural)]
pub enum Status {
    Started,
    AlreadyRunning,
    Stopped,
    NotRunning,
}

impl Status {
    /// The status string reported to the host for this outcome.
    pub open spec fn spec_message(&self) -> Seq<char> {
        match self {
            Status::Started => "started"@,
            Status::AlreadyRunning => "already running"@,
            Status::Stopped => "stopped"@,
            Status::NotRunning => "not running"@,
        }
    }

    pub fn message(&self) -> (out: String)
        ensures
            out@ == self.spec_message(),
    {
        match self {
            Status::Started => "started".to_owned(),
            Status::AlreadyRunning => "already running".to_owned(),
            Status::Stopped => "stopped".to_owned(),
            Status::NotRunning => "not running".to_owned(),
        }
    }
}

/// What a start request demands of the host: nothing, or exactly one spawn.
#[derive(Debug, Clone, PartialEq, Eq)]
pub enum StartPlan {
    /// A backend is already owned; nothing may be spawned.
    AlreadyRunning,
    /// No backend is owned; the host must spawn exactly this command and
    /// report the outcome through `complete_start`.
    Spawn(CommandSpec),
}

/// The supervisor owns at most one backend process at a time: exactly one
/// slot holding an optional handle. Exclusive access (`&mut self`) plays
/// the role of a mutual-exclusion guard around the slot, so concurrent
/// start requests cannot race into two spawned processes.
pub struct Supervisor {
    pub strategy: LaunchStrategy,
    pub slot: Option<ProcessHandle>,
}

/// One supervisor operation, abstracted to what decides the next state:
/// for a start, only whether the spawn (if one happens) succeeds; a stop
/// empties the slot whatever the kill outcome is.
pub enum SupervisorOp {
    Start { spawn_ok: bool },
    Stop,
}

/// The two-state machine: `running` is whether the slot holds a handle.
/// A start on a running supervisor is an identity transition; a start on a
/// stopped one runs the spawn; a stop always leaves the slot empty.
pub open spec fn step_running(running: bool, op: SupervisorOp) -> bool {
    match op {
        SupervisorOp::Start { spawn_ok } => running || spawn_ok,
        SupervisorOp::Stop => false,
    }
}

/// The state after a whole sequence of operations, from the initial
/// (stopped) state.
pub open spec fn run_ops(ops: Seq<SupervisorOp>) -> bool
    decreases ops.len(),
{
    if ops.len() == 0 {
        false
    } else {
        step_running(run_ops(ops.drop_last()), ops.last())
    }
}

impl Supervisor {
    /// Whether the slot holds a process handle.
    pub open spec fn is_running(&self) -> bool {
        self.slot is Some
    }

    /// A fresh supervisor owns no process: the initial state is stopped.
    pub fn new(strategy: LaunchStrategy) -> (s: Supervisor)
        ensures
            !s.is_running(),
            s.strategy == strategy,
    {
        Supervisor { strategy, slot: None }
    }

    pub fn running(&self) -> (r: bool)
        ensures
            r == self.is_running(),
    {
        self.slot.is_some()
    }

    /// Decide a start request. Never spawns and never changes state: when a
    /// handle is already owned the answer is `AlreadyRunning` (a deliberate
    /// no-op, not an error), otherwise the strategy's resolution decides the
    /// command the host must spawn.
    pub fn prepare_start(&self) -> (r: Result<StartPlan, SupervisorError>)
        ensures
            self.is_running() <==> (r matches Ok(p) && p is AlreadyRunning),
            !self.is_running() ==> match r {
                Ok(p) => p matches StartPlan::Spawn(c) && resolves_to(&self.strategy, &Ok(c)),
                Err(e) => resolves_to(&self.strategy, &Err(e)),
            },
    {
        if self.slot.is_some() {
            Ok(StartPlan::AlreadyRunning)
        } else {
            match self.strategy.resolve() {
                Ok(c) => Ok(StartPlan::Spawn(c)),
                Err(e) => Err(e),
            }
        }
    }

    /// Record the outcome of the spawn that `prepare_start` demanded. On
    /// success the new handle occupies the slot and the status is
    /// `Started`; on failure the slot stays empty and the spawn error
    /// carries the host's detail message.
    pub fn complete_start(&mut self, outcome: Result<ProcessHandle, String>) -> (r: Result<
        Status,
        SupervisorError,
    >)
        requires
            !old(self).is_running(),
        ensures
            final(self).strategy == old(self).strategy,
            final(self).is_running() == step_running(
                old(self).is_running(),
                SupervisorOp::Start { spawn_ok: outcome is Ok },
            ),
            outcome matches Ok(h) ==> final(self).slot == Some(h) && (r matches Ok(st)
                && st is Started),
            outcome matches Err(m) ==> final(self).slot is None && (r matches Err(e)
                && (e matches SupervisorError::Spawn(d) && d@ == m@)),
    {
        match outcome {
            Ok(h) => {
                self.slot = Some(h);
                Ok(Status::Started)
            },
            Err(m) => Err(SupervisorError::Spawn(m)),
        }
    }

    /// Begin a stop request: the slot is emptied whatever follows, and the
    /// removed handle, if any, is handed to the host for the kill request.
    /// A failed kill must not leave the supervisor believing it still owns
    /// a live handle, so the transition does not wait on the kill outcome.
    pub fn prepare_stop(&mut self) -> (taken: Option<ProcessHandle>)
        ensures
            final(self).strategy == old(self).strategy,
            final(self).is_running() == step_running(old(self).is_running(), SupervisorOp::Stop),
            taken == old(self).slot,
    {
        let taken = self.slot;
        self.slot = None;
        taken
    }

    /// Report a stop request's outcome. `kill_outcome` is `None` when
    /// `prepare_stop` handed out no handle (nothing to kill): the status is
    /// `NotRunning`, an informational no-op. A kill the OS accepted reports
    /// `Stopped`; one it rejected reports a kill error with the host's
    /// detail message.
    pub fn conclude_stop(kill_outcome: Option<Result<(), String>>) -> (r: Result<
        Status,
        SupervisorError,
    >)
        ensures
            kill_outcome is None ==> (r matches Ok(st) && st is NotRunning),
            kill_outcome matches Some(k) ==> match k {
                Ok(_) => r matches Ok(st) && st is Stopped,
                Err(m) => r matches Err(e) && (e matches SupervisorError::Kill(d) && d@ == m@),
            },
    {
        match kill_outcome {
            None => Ok(Status::NotRunning),
            Some(Ok(_)) => Ok(Status::Stopped),
            Some(Err(m)) => Err(SupervisorError::Kill(m)),
        }
    }
}

/// The operation at position `i` is a start whose spawn succeeded.
pub open spec fn successful_start_at(ops: Seq<SupervisorOp>, i: int) -> bool {
    ops[i] matches SupervisorOp::Start { spawn_ok } && spawn_ok
}

/// No stop follows position `i`.
pub open spec fn no_stop_after(ops: Seq<SupervisorOp>, i: int) -> bool {
    forall|j: int| i < j < ops.len() ==> !((#[trigger] ops[j]) is Stop)
}

/// Some successful start is not followed by any stop.
pub open spec fn started_and_kept(ops: Seq<SupervisorOp>) -> bool {
    exists|i: int|
        0 <= i < ops.len() && #[trigger] successful_start_at(ops, i) && no_stop_after(ops, i)
}

/// State invariant: after any sequence of start/stop operations, the slot
/// holds a process handle if and only if the most recent state-changing
/// operation was a successful start not yet followed by a stop.
pub proof fn lemma_running_iff_started_and_kept(ops: Seq<SupervisorOp>)
    ensures
        run_ops(ops) == started_and_kept(ops),
    decreases ops.len(),
{
    if ops.len() == 0 {
        assert(!started_and_kept(ops));
    } else {
        let prefix = ops.drop_last();
        let last: int = ops.len() - 1;
        lemma_running_iff_started_and_kept(prefix);
        match ops.last() {
            SupervisorOp::Stop => {
                assert(!run_ops(ops));
                if started_and_kept(ops) {
                    let i = choose|i: int|
                        0 <= i < ops.len() && #[trigger] successful_start_at(ops, i)
                            && no_stop_after(ops, i);
                    assert(ops[last] is Stop);
                    assert(false);
                }
            },
            SupervisorOp::Start { spawn_ok } => {
                if spawn_ok {
                    assert(run_ops(ops));
                    assert(successful_start_at(ops, last));
                    assert(no_stop_after(ops, last));
                    assert(started_and_kept(ops));
                } else {
                    assert(run_ops(ops) == run_ops(prefix));
                    if started_and_kept(prefix) {
                        let i = choose|i: int|
                            0 <= i < prefix.len() && #[trigger] successful_start_at(prefix, i)
                                && no_stop_after(prefix, i);
                        assert(prefix[i] == ops[i]);
                        assert(successful_start_at(ops, i));
                        assert forall|j: int| i < j < ops.len() implies !((#[trigger] ops[j])
                            is Stop) by {
                            if j < last {
                                assert(ops[j] == prefix[j]);
                            }
                        }
                        assert(started_and_kept(ops));
                    }
                    if started_and_kept(ops) {
                        let i = choose|i: int|
                            0 <= i < ops.len() && #[trigger] successful_start_at(ops, i)
                                && no_stop_after(ops, i);
                        assert(i < last);
                        assert(prefix[i] == ops[i]);
                        assert(successful_start_at(prefix, i));
                        assert forall|j: int| i < j < prefix.len() implies !((#[trigger] prefix[j])
                            is Stop) by {
                            assert(prefix[j] == ops[j]);
                        }
                        assert(started_and_kept(prefix));
                    }
                }
            },
        }
    }
}

/// Idempotent start: once the supervisor is running, a further start
/// request is an identity transition — the state after it is unchanged,
/// and the single slot still holds the one handle it held before.
pub proof fn lemma_start_idempotent(ops: Seq<SupervisorOp>, retry_spawn_ok: bool)
    requires
        run_ops(ops),
    ensures
        run_ops(ops.push(SupervisorOp::Start { spawn_ok: retry_spawn_ok })) == run_ops(ops),
{
    let ops2 = ops.push(SupervisorOp::Start { spawn_ok: retry_spawn_ok });
    assert(ops2.drop_last() =~= ops);
}

/// Idempotent stop: stopping an already stopped supervisor is an identity
/// transition, reported as a status and never as an error.
pub proof fn lemma_stop_idempotent(ops: Seq<SupervisorOp>)
    requires
        !run_ops(ops),
    ensures
        run_ops(ops.push(SupervisorOp::Stop)) == run_ops(ops),
{
    let ops2 = ops.push(SupervisorOp::Stop);
    assert(ops2.drop_last() =~= ops);
}

} // verus!
