//! The output relay: forwarding a process's events to an observer.

use vstd::prelude::*;

verus! {

/// One event produced while draining a backend process's output streams.
/// Ordering within one stream is preserved by the channel; interleaving
/// between stdout and stderr is not guaranteed.
#[derive(Debug, Clone, PartialEq, Eq)]
pub enum ProcessEvent {
    /// A line from the process's standard output.
    StdoutLine(String),
    /// A line from the process's standard error.
    StderrLine(String),
    /// A failure reported by the stream machinery itself.
    Error(String),
    /// The terminal event. The exit code is absent when the process was
    /// killed rather than exited normally.
    Terminated(Option<i32>),
}

/// What the observer receives from a received event sequence: every event
/// up to and including the first terminal one, in order; everything when
/// no terminal event arrives before the channel closes.
pub open spec fn relayed_prefix(events: Seq<ProcessEvent>) -> Seq<ProcessEvent>
    decreases events.len(),
{
    if events.len() == 0 {
        Seq::empty()
    } else if events.first() is Terminated {
        seq![events.first()]
    } else {
        seq![events.first()] + relayed_prefix(events.drop_first())
    }
}

/// The relay's sole termination decision: it ends only on the terminal
/// event (or, in the receive loop, on channel closure) and never early.
pub fn relay_decide(event: &ProcessEvent) -> (done: bool)
    ensures
        done == (event is Terminated),
{
    match event {
        ProcessEvent::Terminated(_) => true,
        _ => false,
    }
}

/// Drain a received event sequence in order, as the relay's receive loop
/// does: forward every event to the returned observer log and stop after
/// the first terminal event or when the events are exhausted.
pub fn run_relay(events: Vec<ProcessEvent>) -> (log: Vec<ProcessEvent>)
    ensures
        log@ == relayed_prefix(events@),
{
    let ghost orig: Seq<ProcessEvent> = events@;
    let mut remaining = events;
    let mut log: Vec<ProcessEvent> = Vec::new();
    let mut done = false;
    while !done && remaining.len() > 0
        invariant
            !done ==> relayed_prefix(orig) == log@ + relayed_prefix(remaining@),
            done ==> relayed_prefix(orig) == log@,
        decreases remaining.len(),
    {
        let ghost before = remaining@;
        let event = remaining.remove(0);
        proof {
            assert(before.remove(0) =~= before.drop_first());
        }
        done = relay_decide(&event);
        log.push(event);
        proof {
            if done {
                assert(relayed_prefix(before) =~= seq![before.first()]);
            } else {
                assert(log@ + relayed_prefix(remaining@) =~= (log@.drop_last() + (seq![
                    before.first(),
                ] + relayed_prefix(before.drop_first()))));
            }
        }
    }
    proof {
        if !done {
            assert(relayed_prefix(remaining@) =~= Seq::<ProcessEvent>::empty());
            assert(log@ + relayed_prefix(remaining@) =~= log@);
        }
    }
    log
}

/// Nothing is dropped before the first terminal event: when no terminal
/// event stands anywhere but possibly last, the whole sequence reaches
/// the observer unchanged.
pub proof fn lemma_relay_forwards_all(events: Seq<ProcessEvent>)
    requires
        forall|k: int| 0 <= k < events.len() - 1 ==> !((#[trigger] events[k]) is Terminated),
    ensures
        relayed_prefix(events) == events,
    decreases events.len(),
{
    if events.len() == 0 {
        assert(relayed_prefix(events) =~= events);
    } else if events.len() == 1 {
        assert(relayed_prefix(events.drop_first()) =~= Seq::<ProcessEvent>::empty());
        assert(relayed_prefix(events) =~= events);
    } else {
        let rest = events.drop_first();
        assert(!(events[0] is Terminated));
        assert forall|k: int| 0 <= k < rest.len() - 1 implies !((#[trigger] rest[k])
            is Terminated) by {
            assert(rest[k] == events[k + 1]);
        }
        lemma_relay_forwards_all(rest);
        assert(relayed_prefix(events) =~= events);
    }
}

/// Relay completeness: a process that emits its standard-output lines and
/// then exits normally has every line forwarded to the observer, in
/// emission order, followed by exactly one terminal event carrying the
/// real exit code.
pub proof fn lemma_relay_completeness(lines: Seq<ProcessEvent>, code: i32)
    requires
        forall|k: int| 0 <= k < lines.len() ==> (#[trigger] lines[k]) is StdoutLine,
    ensures
        relayed_prefix(lines.push(ProcessEvent::Terminated(Some(code)))) == lines.push(
            ProcessEvent::Terminated(Some(code)),
        ),
{
    let events = lines.push(ProcessEvent::Terminated(Some(code)));
    assert forall|k: int| 0 <= k < events.len() - 1 implies !((#[trigger] events[k])
        is Terminated) by {
        assert(events[k] == lines[k]);
        assert(lines[k] is StdoutLine);
    }
    lemma_relay_forwards_all(events);
}

} // verus!
