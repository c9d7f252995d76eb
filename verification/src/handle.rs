//! The service handle: the shared object that represents one running (or
//! stopped) server instance. It owns two one-shot slots — the shutdown
//! sender and the completion handle — and each slot is taken at most once.
//! Owners that share a handle guard it with mutual exclusion, so the slot
//! operations below are the serialized steps those owners take.

use vstd::prelude::*;
use crate::LifecycleError;

verus! {

/// The observable state of a [`ServiceHandle`]: which of its two one-shot
/// slots are still occupied.
#[derive(PartialEq, Eq, Structural, Clone, Copy, Debug)]
pub struct HandleState {
    /// The shutdown sender has not been consumed yet.
    pub stop_armed: bool,
    /// The completion handle has not been consumed yet.
    pub completion_pending: bool,
}

/// The state of a handle fresh out of a successful start: both slots occupied.
pub open spec fn fresh_state() -> HandleState {
    HandleState { stop_armed: true, completion_pending: true }
}

/// Whether a shutdown call on a handle in state `s` performs the action.
pub open spec fn shutdown_fires(s: HandleState) -> bool {
    s.stop_armed
}

/// The handle state after a shutdown call in state `s`: the signal slot is
/// empty, the completion slot is untouched.
pub open spec fn after_shutdown(s: HandleState) -> HandleState {
    HandleState { stop_armed: false, completion_pending: s.completion_pending }
}

/// Whether taking the completion handle succeeds in state `s`.
pub open spec fn await_succeeds(s: HandleState) -> bool {
    s.completion_pending
}

/// The handle state after taking the completion handle in state `s`: the
/// completion slot is empty, the signal slot is untouched.
pub open spec fn after_await(s: HandleState) -> HandleState {
    HandleState { stop_armed: s.stop_armed, completion_pending: false }
}

/// One running (or stopped) server instance: the one-shot shutdown sender
/// and the one-shot completion handle of its serve loop, each present until
/// consumed.
pub struct ServiceHandle {
    stop: Option<tokio::sync::oneshot::Sender<()>>,
    completion: Option<tokio::task::JoinHandle<()>>,
}

impl View for ServiceHandle {
    type V = HandleState;

    closed spec fn view(&self) -> HandleState {
        HandleState {
            stop_armed: self.stop is Some,
            completion_pending: self.completion is Some,
        }
    }
}

impl ServiceHandle {
    /// Packages the freshly created shutdown sender and the spawned serve
    /// loop's completion handle; both slots start occupied.
    pub fn new(
        stop: tokio::sync::oneshot::Sender<()>,
        completion: tokio::task::JoinHandle<()>,
    ) -> (h: ServiceHandle)
        ensures
            h@ == fresh_state(),
    {
        ServiceHandle { stop: Some(stop), completion: Some(completion) }
    }

    /// Requests graceful shutdown: takes the sender out of its slot, if it
    /// is still there, and fires it. Returns whether this call performed
    /// the action; a repeated call is a no-op. Returns immediately in
    /// either case — it never waits for the drain to finish.
    pub fn shutdown(&mut self) -> (fired: bool)
        ensures
            fired == shutdown_fires(old(self)@),
            final(self)@ == after_shutdown(old(self)@),
    {
        match self.stop.take() {
            Some(tx) => {
                let _ = crate::signal::fire(tx);
                true
            },
            None => false,
        }
    }

    /// Takes the completion handle out of its slot. Succeeds exactly once:
    /// a second take is a misuse error, never a stale success. Awaiting the
    /// returned handle is the only way to observe that shutdown has fully
    /// completed.
    pub fn take_completion(&mut self) -> (r: Result<
        tokio::task::JoinHandle<()>,
        LifecycleError,
    >)
        ensures
            r is Ok <==> await_succeeds(old(self)@),
            r is Err ==> r == Err::<tokio::task::JoinHandle<()>, LifecycleError>(
                LifecycleError::CompletionAlreadyTaken,
            ),
            final(self)@ == after_await(old(self)@),
    {
        match self.completion.take() {
            Some(task) => Ok(task),
            None => Err(LifecycleError::CompletionAlreadyTaken),
        }
    }
}

/// Law: shutting down twice, on the same or a cloned handle, has the same
/// effect as shutting down once — the second call changes nothing and does
/// not fire the signal.
pub proof fn lemma_shutdown_idempotent(s: HandleState)
    ensures
        after_shutdown(after_shutdown(s)) == after_shutdown(s),
        !shutdown_fires(after_shutdown(s)),
{
}

/// Law: of two shutdown calls serialized by the handle's guard — say, from
/// two owners of clones — exactly the first one fires, and neither is an
/// error.
pub proof fn lemma_shutdown_exactly_once(s: HandleState)
    requires
        s.stop_armed,
    ensures
        shutdown_fires(s),
        !shutdown_fires(after_shutdown(s)),
{
}

/// Law: awaiting completion a second time on the same logical service
/// fails — once the completion handle has been taken, no later take
/// succeeds, whatever happened to the signal slot in between.
pub proof fn lemma_second_await_fails(s: HandleState)
    ensures
        !await_succeeds(after_await(s)),
        !await_succeeds(after_shutdown(after_await(s))),
{
}

/// Law: on a fresh handle, shutdown fires and a following await of
/// completion still succeeds — shutdown consumes only the signal slot.
pub proof fn lemma_fresh_shutdown_then_await()
    ensures
        shutdown_fires(fresh_state()),
        await_succeeds(after_shutdown(fresh_state())),
        !shutdown_fires(after_shutdown(fresh_state())),
{
}

} // verus!
