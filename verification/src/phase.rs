//! The lifecycle phases of one service instance and the events that move
//! it between them. A started service runs until it observes the shutdown
//! signal or a fatal loop error, drains its in-flight connections, and
//! stops; the stopped phase is terminal — serving again takes a new
//! instance.

use vstd::prelude::*;

verus! {

/// The phase one service instance is in.
#[derive(PartialEq, Eq, Structural, Clone, Copy, Debug)]
pub enum ServicePhase {
    /// No start was requested yet.
    Idle,
    /// Start was requested; the listener is not bound yet.
    Starting,
    /// The accept loop runs and accepts new connections.
    Running,
    /// The shutdown signal was observed or the loop failed; no new
    /// connections are accepted, in-flight ones may finish.
    Draining,
    /// The serve loop has returned; terminal.
    Stopped,
}

/// An event the lifecycle reacts to.
#[derive(PartialEq, Eq, Structural, Clone, Copy, Debug)]
pub enum ServiceEvent {
    /// A caller asked for the service to start.
    StartRequested,
    /// The listener bound its address and the accept loop began.
    BindSucceeded,
    /// The serve loop observed the one-shot shutdown signal.
    ShutdownObserved,
    /// The serve loop hit an unrecoverable error; it ends exactly as a
    /// shutdown would.
    LoopFailed,
    /// The last in-flight connection finished; the loop returned.
    DrainFinished,
}

/// The transition relation of the lifecycle. An event that does not apply
/// to the current phase leaves the phase unchanged.
pub open spec fn spec_step(p: ServicePhase, e: ServiceEvent) -> ServicePhase {
    match p {
        ServicePhase::Idle => if e is StartRequested {
            ServicePhase::Starting
        } else {
            ServicePhase::Idle
        },
        ServicePhase::Starting => if e is BindSucceeded {
            ServicePhase::Running
        } else {
            ServicePhase::Starting
        },
        ServicePhase::Running => if e is ShutdownObserved || e is LoopFailed {
            ServicePhase::Draining
        } else {
            ServicePhase::Running
        },
        ServicePhase::Draining => if e is DrainFinished {
            ServicePhase::Stopped
        } else {
            ServicePhase::Draining
        },
        ServicePhase::Stopped => ServicePhase::Stopped,
    }
}

/// Whether a service in phase `p` accepts new connections.
pub open spec fn accepts_new(p: ServicePhase) -> bool {
    p is Running
}

/// Whether `p` lies at or past the point where shutdown was observed.
pub open spec fn drained(p: ServicePhase) -> bool {
    p is Draining || p is Stopped
}

/// The phase reached from `p` after the events of `events`, in order.
pub open spec fn run(p: ServicePhase, events: Seq<ServiceEvent>) -> ServicePhase
    decreases events.len(),
{
    if events.len() == 0 {
        p
    } else {
        run(spec_step(p, events.first()), events.drop_first())
    }
}

/// Advances the lifecycle by one event.
pub fn step(p: ServicePhase, e: ServiceEvent) -> (r: ServicePhase)
    ensures
        r == spec_step(p, e),
{
    match p {
        ServicePhase::Idle => match e {
            ServiceEvent::StartRequested => ServicePhase::Starting,
            _ => ServicePhase::Idle,
        },
        ServicePhase::Starting => match e {
            ServiceEvent::BindSucceeded => ServicePhase::Running,
            _ => ServicePhase::Starting,
        },
        ServicePhase::Running => match e {
            ServiceEvent::ShutdownObserved => ServicePhase::Draining,
            ServiceEvent::LoopFailed => ServicePhase::Draining,
            _ => ServicePhase::Running,
        },
        ServicePhase::Draining => match e {
            ServiceEvent::DrainFinished => ServicePhase::Stopped,
            _ => ServicePhase::Draining,
        },
        ServicePhase::Stopped => ServicePhase::Stopped,
    }
}

/// Law: the stopped phase is terminal — no sequence of events leaves it.
pub proof fn lemma_stopped_terminal(events: Seq<ServiceEvent>)
    ensures
        run(ServicePhase::Stopped, events) == ServicePhase::Stopped,
    decreases events.len(),
{
    if events.len() > 0 {
        lemma_stopped_terminal(events.drop_first());
    }
}

/// Law: once the shutdown signal (or a fatal loop error) has been
/// observed, the service never accepts a new connection again, whatever
/// events follow — every reachable phase is still draining or stopped.
pub proof fn lemma_no_accept_after_drain(p: ServicePhase, events: Seq<ServiceEvent>)
    requires
        drained(p),
    ensures
        drained(run(p, events)),
        !accepts_new(run(p, events)),
    decreases events.len(),
{
    if events.len() > 0 {
        lemma_no_accept_after_drain(spec_step(p, events.first()), events.drop_first());
    }
}

/// Law: a running service that observes the shutdown signal and finishes
/// its drain reaches the stopped phase — the path a prompt shutdown takes.
pub proof fn lemma_shutdown_runs_to_stopped()
    ensures
        run(
            ServicePhase::Running,
            seq![ServiceEvent::ShutdownObserved, ServiceEvent::DrainFinished],
        ) == ServicePhase::Stopped,
{
    let events = seq![ServiceEvent::ShutdownObserved, ServiceEvent::DrainFinished];
    let rest = events.drop_first();
    assert(events.first() == ServiceEvent::ShutdownObserved);
    assert(rest =~= seq![ServiceEvent::DrainFinished]);
    assert(rest.first() == ServiceEvent::DrainFinished);
    assert(rest.drop_first().len() == 0);
    assert(run(ServicePhase::Stopped, rest.drop_first()) == ServicePhase::Stopped);
    assert(run(ServicePhase::Draining, rest) == ServicePhase::Stopped);
    assert(run(ServicePhase::Running, events) == run(ServicePhase::Draining, rest));
}

} // verus!
