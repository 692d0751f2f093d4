//! A handle that ties a running worker to the scope that owns it: whoever
//! ends the scope takes the worker out, once, and waits for it.

use vstd::prelude::*;

verus! {

/// Where a scoped worker stands.
pub enum WorkerState<H> {
    /// The worker has not been waited for; the handle to it is held.
    Running(H),
    /// The handle has been taken out to wait for the worker.
    Joined,
}

/// Holds the handle of a worker that was already started, until the owning
/// scope ends.
pub struct JoinHandle<H> {
    worker: Option<H>,
}

impl<H> JoinHandle<H> {
    /// Where the worker stands.
    pub closed spec fn state(&self) -> WorkerState<H> {
        match self.worker {
            Some(handle) => WorkerState::Running(handle),
            None => WorkerState::Joined,
        }
    }

    /// Takes charge of a worker that is running.
    pub fn new(handle: H) -> (held: Self)
        ensures
            held.state() == WorkerState::Running(handle),
    {
        JoinHandle { worker: Some(handle) }
    }

    /// Whether the worker still has to be waited for.
    pub fn is_running(&self) -> (running: bool)
        ensures
            running == (self.state() is Running),
    {
        self.worker.is_some()
    }

    /// Takes the handle out, to wait for the worker. This succeeds once:
    /// from then on the worker counts as joined and there is nothing to take.
    pub fn take(&mut self) -> (handle: Option<H>)
        ensures
            final(self).state() == joined(old(self).state()).0,
            handle == joined(old(self).state()).1,
    {
        self.worker.take()
    }
}

/// What taking the handle out does: the state it leaves, and the handle it
/// yields.
pub open spec fn joined<H>(state: WorkerState<H>) -> (WorkerState<H>, Option<H>) {
    match state {
        WorkerState::Running(handle) => (WorkerState::Joined, Some(handle)),
        WorkerState::Joined => (WorkerState::Joined, None),
    }
}

/// A worker is handed out to be waited for at most once: whatever the state
/// before, the state after is `Joined`, it stays so, and a second taking
/// yields nothing.
pub proof fn joined_once<H>(state: WorkerState<H>)
    ensures
        joined(state).0 == WorkerState::<H>::Joined,
        joined(joined(state).0) == (WorkerState::<H>::Joined, None::<H>),
        joined(state).1 is Some <==> state is Running,
{
}

} // verus!
