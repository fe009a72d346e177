//! A dispatcher in one piece: store, producer side and dispatch loop
//! behind a single value.

use crate::job::Dispatch;
use crate::job::QueueManager;
use crate::job::Store;
use vstd::prelude::*;

verus! {

/// A queue store that is its own producer handle and its own dispatch
/// loop. Its caller executes each launched job in place, before the next
/// cycle.
pub struct SimpleHandler<J> {
    store: QueueManager<J>,
}

impl<J> View for SimpleHandler<J> {
    type V = Store<J>;

    closed spec fn view(&self) -> Store<J> {
        self.store@
    }
}

impl<J> SimpleHandler<J> {
    /// A handler with nothing pending, open.
    pub fn new() -> (handler: SimpleHandler<J>)
        ensures
            handler@ == Store::<J>::empty(),
    {
        SimpleHandler { store: QueueManager::new() }
    }

    /// Adds `job` at the tail if the handler is open, and says whether it
    /// did; a closed handler is left as it was and the job is dropped.
    pub fn enqueue(&mut self, job: J) -> (accepted: bool)
        ensures
            accepted == !old(self)@.closed,
            final(self)@ == old(self)@.append(job),
    {
        self.store.append(job)
    }

    /// Closes the handler. The pending jobs stay.
    pub fn close(&mut self)
        ensures
            final(self)@ == old(self)@.close(),
    {
        self.store.close()
    }

    /// One cycle of the loop: stop when closed, wait when open and empty,
    /// else remove the oldest job and hand it out to be executed.
    pub fn listen(&mut self) -> (action: Dispatch<J>)
        ensures
            action == old(self)@.decision(),
            final(self)@ == old(self)@.cycle(),
    {
        self.store.dispatch()
    }

    /// Whether the handler has been closed.
    pub fn is_closed(&self) -> (closed: bool)
        ensures
            closed == self@.closed,
    {
        self.store.is_closed()
    }

    /// The number of pending jobs.
    pub fn pending_count(&self) -> (n: usize)
        ensures
            n == self@.pending.len(),
    {
        self.store.len()
    }
}

} // verus!
