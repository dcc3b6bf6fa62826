use vstd::prelude::*;
use crate::queue::Message;

verus! {

/// The life of a worker: it waits for a message, executes at most one job at
/// a time, and once terminated never does anything again.
#[derive(PartialEq, Eq, Structural, Clone, Copy, Debug)]
pub enum WorkerState {
    Waiting,
    Executing,
    Terminated,
}

/// What can happen to a worker: one of the two message kinds arrives while it
/// waits, or the job it is executing runs to completion.
#[derive(PartialEq, Eq, Structural, Clone, Copy, Debug)]
pub enum WorkerEvent {
    GotWork,
    GotShutdown,
    FinishedJob,
}

/// The worker's transition relation: Waiting goes to Executing on a job and
/// to Terminated on a shutdown signal; Executing returns to Waiting when the
/// job completes; Terminated absorbs everything. An event that the protocol
/// never produces in a state (a message while executing, completion while
/// waiting) leaves the state unchanged.
pub open spec fn next_state(s: WorkerState, e: WorkerEvent) -> WorkerState {
    match (s, e) {
        (WorkerState::Waiting, WorkerEvent::GotWork) => WorkerState::Executing,
        (WorkerState::Waiting, WorkerEvent::GotShutdown) => WorkerState::Terminated,
        (WorkerState::Executing, WorkerEvent::FinishedJob) => WorkerState::Waiting,
        (WorkerState::Terminated, _) => WorkerState::Terminated,
        (_, _) => s,
    }
}

/// Advance a worker's state by one event, exactly as [`next_state`] says.
pub fn step(s: WorkerState, e: WorkerEvent) -> (r: WorkerState)
    ensures
        r == next_state(s, e),
{
    match (s, e) {
        (WorkerState::Waiting, WorkerEvent::GotWork) => WorkerState::Executing,
        (WorkerState::Waiting, WorkerEvent::GotShutdown) => WorkerState::Terminated,
        (WorkerState::Executing, WorkerEvent::FinishedJob) => WorkerState::Waiting,
        (WorkerState::Terminated, _) => WorkerState::Terminated,
        (_, _) => s,
    }
}

/// Law: Terminated is absorbing — no event brings a terminated worker back.
pub proof fn lemma_terminated_absorbing(e: WorkerEvent)
    ensures
        next_state(WorkerState::Terminated, e) == WorkerState::Terminated,
{
}

/// Law: the only way into Terminated is observing a shutdown signal while
/// waiting, so a worker that terminates has observed exactly one such signal.
pub proof fn lemma_termination_needs_shutdown(s: WorkerState, e: WorkerEvent)
    requires
        s != WorkerState::Terminated,
        next_state(s, e) == WorkerState::Terminated,
    ensures
        s == WorkerState::Waiting && e == WorkerEvent::GotShutdown,
{
}

/// What a waiting worker does with the one message it received: a job is
/// handed back to be run to completion on the worker's thread; a shutdown
/// signal yields nothing and the worker's loop ends.
pub fn dispatch<J>(m: Message<J>) -> (r: Option<J>)
    ensures
        m is Work <==> r is Some,
        m matches Message::Work(job) ==> r == Some(job),
{
    match m {
        Message::Work(job) => Some(job),
        Message::Shutdown => None,
    }
}

/// A worker: a small integer id and a slot for the handle of its dedicated
/// thread. The slot starts populated and is emptied exactly once, during
/// shutdown, so the thread can never be joined twice.
pub struct Worker<H> {
    id: usize,
    state: WorkerState,
    handle: Option<H>,
}

impl<H> Worker<H> {
    /// The worker's identifier, fixed at construction.
    pub closed spec fn spec_id(&self) -> usize {
        self.id
    }

    /// Where the worker stands in its lifecycle.
    pub closed spec fn spec_state(&self) -> WorkerState {
        self.state
    }

    /// Whether the thread handle is still in its slot.
    pub closed spec fn handle_present(&self) -> bool {
        self.handle is Some
    }

    /// The slot's content.
    pub closed spec fn spec_handle(&self) -> Option<H> {
        self.handle
    }

    /// A fresh worker: it owns its thread handle and is already waiting for a
    /// message.
    pub fn new(id: usize, handle: H) -> (w: Worker<H>)
        ensures
            w.spec_id() == id,
            w.spec_state() == WorkerState::Waiting,
            w.handle_present(),
            w.spec_handle() == Some(handle),
    {
        Worker { id, state: WorkerState::Waiting, handle: Some(handle) }
    }

    /// The worker's identifier.
    pub fn id(&self) -> (r: usize)
        ensures
            r == self.spec_id(),
    {
        self.id
    }

    /// Where the worker stands in its lifecycle.
    pub fn state(&self) -> (r: WorkerState)
        ensures
            r == self.spec_state(),
    {
        self.state
    }

    /// Whether the thread handle is still in its slot.
    pub fn has_handle(&self) -> (r: bool)
        ensures
            r == self.handle_present(),
    {
        matches!(self.handle, Some(_))
    }

    /// Record one event against this worker.
    pub fn on_event(&mut self, e: WorkerEvent)
        ensures
            final(self).spec_id() == old(self).spec_id(),
            final(self).spec_handle() == old(self).spec_handle(),
            final(self).spec_state() == next_state(old(self).spec_state(), e),
            next_state(old(self).spec_state(), e) == old(self).spec_state() ==> *final(self)
                == *old(self),
    {
        self.state = step(self.state, e);
    }

    /// Empty the handle slot, handing the handle out the first time and
    /// nothing every time after: the handle is consumed at most once however
    /// often shutdown logic runs.
    pub fn take_handle(&mut self) -> (r: Option<H>)
        ensures
            final(self).spec_id() == old(self).spec_id(),
            final(self).spec_state() == old(self).spec_state(),
            !final(self).handle_present(),
            r == old(self).spec_handle(),
            r is Some <==> old(self).handle_present(),
            !old(self).handle_present() ==> *final(self) == *old(self),
    {
        self.handle.take()
    }
}

} // verus!
