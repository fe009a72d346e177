//! The queue store, its producer handle, its dispatch loop and the factory
//! that binds them together.
//!
//! Every operation is one atomic transition of the store. A program that
//! shares the store between threads guards the whole of it (pending
//! sequence and closed flag together) with one lock and performs one
//! operation per critical section; the contracts below then describe
//! exactly what each critical section does.

pub mod sample;
pub mod simple_handler;
pub mod trace;

use std::collections::VecDeque;
use vstd::prelude::*;

verus! {

/// A unit of work. `run` carries the work out and hands back the line
/// that the job reports; the dispatcher never looks at it.
pub trait JobInterface: Send + Sync {
    fn run(&self) -> String;
}

/// A job of any kind, as a store of mixed jobs owns it.
pub type Job = Box<dyn JobInterface>;

/// The mathematical state of a queue store: the pending jobs, oldest
/// first, and the closed flag.
pub ghost struct Store<J> {
    pub pending: Seq<J>,
    pub closed: bool,
}

/// What one cycle of the dispatch loop decides, and so what its caller
/// has to do next.
pub enum Dispatch<J> {
    /// The store is closed: leave the loop.
    Stop,
    /// The store is open and empty: pause for the polling interval, then
    /// cycle again.
    Wait,
    /// The oldest pending job was removed: execute it on a unit of its
    /// own, without waiting for it, and cycle again at once.
    Launch(J),
}

impl<J> Store<J> {
    /// The store as it is created: nothing pending, open.
    pub open spec fn empty() -> Self {
        Store { pending: Seq::empty(), closed: false }
    }

    /// An open store takes the job as its new tail; a closed store drops it.
    pub open spec fn append(self, job: J) -> Self {
        if self.closed {
            self
        } else {
            Store { pending: self.pending.push(job), closed: false }
        }
    }

    /// The job that `pop_front` hands out, if any.
    pub open spec fn front(self) -> Option<J> {
        if self.pending.len() > 0 {
            Some(self.pending[0])
        } else {
            None
        }
    }

    /// The store after `pop_front`.
    pub open spec fn pop_front(self) -> Self {
        if self.pending.len() > 0 {
            Store { pending: self.pending.drop_first(), closed: self.closed }
        } else {
            self
        }
    }

    /// The store after `close`: the flag is set, the pending jobs stay.
    pub open spec fn close(self) -> Self {
        Store { pending: self.pending, closed: true }
    }

    /// What one cycle of the dispatch loop decides in this state.
    pub open spec fn decision(self) -> Dispatch<J> {
        if self.closed {
            Dispatch::Stop
        } else if self.pending.len() == 0 {
            Dispatch::Wait
        } else {
            Dispatch::Launch(self.pending[0])
        }
    }

    /// The store after one cycle of the dispatch loop.
    pub open spec fn cycle(self) -> Self {
        if !self.closed && self.pending.len() > 0 {
            Store { pending: self.pending.drop_first(), closed: false }
        } else {
            self
        }
    }
}

/// The queue store: the pending jobs in the order of their arrival, and
/// a flag that, once set, stays set. `J` is the type of a job; a program
/// that mixes kinds of jobs takes `Job`.
pub struct QueueManager<J> {
    queue: VecDeque<J>,
    is_closed: bool,
}

impl<J> View for QueueManager<J> {
    type V = Store<J>;

    closed spec fn view(&self) -> Store<J> {
        Store { pending: self.queue@, closed: self.is_closed }
    }
}

impl<J> QueueManager<J> {
    /// A store with nothing pending, open.
    pub fn new() -> (store: QueueManager<J>)
        ensures
            store@ == Store::<J>::empty(),
    {
        QueueManager { queue: VecDeque::new(), is_closed: false }
    }

    /// Whether the store has been closed.
    pub fn is_closed(&self) -> (closed: bool)
        ensures
            closed == self@.closed,
    {
        self.is_closed
    }

    /// The number of pending jobs.
    pub fn len(&self) -> (n: usize)
        ensures
            n == self@.pending.len(),
    {
        self.queue.len()
    }

    /// Whether no job is pending.
    pub fn is_empty(&self) -> (empty: bool)
        ensures
            empty == (self@.pending.len() == 0),
    {
        self.queue.len() == 0
    }

    /// Adds `job` at the tail if the store is open, and says whether it
    /// did; a closed store is left as it was and the job is dropped.
    pub fn append(&mut self, job: J) -> (accepted: bool)
        ensures
            accepted == !old(self)@.closed,
            final(self)@ == old(self)@.append(job),
    {
        if self.is_closed {
            return false;
        }
        self.queue.push_back(job);
        true
    }

    /// Removes the oldest pending job and hands it out; `None` when
    /// nothing is pending.
    pub fn pop_front(&mut self) -> (job: Option<J>)
        ensures
            job == old(self)@.front(),
            final(self)@ == old(self)@.pop_front(),
    {
        self.queue.pop_front()
    }

    /// Closes the store. The pending jobs stay.
    pub fn close(&mut self)
        ensures
            final(self)@ == old(self)@.close(),
    {
        self.is_closed = true;
    }

    /// One cycle of the dispatch loop, as one atomic step: stop when
    /// closed, wait when open and empty, else remove the oldest job and
    /// hand it out for execution.
    pub fn dispatch(&mut self) -> (action: Dispatch<J>)
        ensures
            action == old(self)@.decision(),
            final(self)@ == old(self)@.cycle(),
    {
        if self.is_closed {
            return Dispatch::Stop;
        }
        match self.queue.pop_front() {
            Some(job) => Dispatch::Launch(job),
            None => Dispatch::Wait,
        }
    }
}

/// The capability to append jobs to one store and to close it.
pub struct Enqueuer<'a, J> {
    pub queue_manager: &'a mut QueueManager<J>,
}

impl<'a, J> Enqueuer<'a, J> {
    /// The store as this handle sees it.
    pub open spec fn store(&self) -> Store<J> {
        (*self.queue_manager)@
    }

    /// Forwards to the store's `append`. The handle stays bound to the
    /// store it was issued for.
    pub fn enqueue(&mut self, job: J) -> (accepted: bool)
        ensures
            accepted == !old(self).store().closed,
            final(self).store() == old(self).store().append(job),
            *final(final(self).queue_manager) == *final(old(self).queue_manager),
    {
        self.queue_manager.append(job)
    }

    /// Forwards to the store's `close`. The handle stays bound to the
    /// store it was issued for.
    pub fn close(&mut self)
        ensures
            final(self).store() == old(self).store().close(),
            *final(final(self).queue_manager) == *final(old(self).queue_manager),
    {
        self.queue_manager.close()
    }
}

/// The capability to drain one store, one cycle of the dispatch loop at
/// a time.
pub struct Listener<'a, J> {
    pub queue_manager: &'a mut QueueManager<J>,
}

impl<'a, J> Listener<'a, J> {
    /// The store as this handle sees it.
    pub open spec fn store(&self) -> Store<J> {
        (*self.queue_manager)@
    }

    /// One cycle of the dispatch loop. The caller repeats it until it
    /// answers `Stop`, pausing after `Wait` and starting the job's
    /// execution after `Launch`. The handle stays bound to the store it
    /// was issued for.
    pub fn listen(&mut self) -> (action: Dispatch<J>)
        ensures
            action == old(self).store().decision(),
            final(self).store() == old(self).store().cycle(),
            *final(final(self).queue_manager) == *final(old(self).queue_manager),
    {
        self.queue_manager.dispatch()
    }
}

/// The factory: owns one store and issues handles bound to it.
pub struct Handler<J> {
    queue_manager: QueueManager<J>,
}

impl<J> View for Handler<J> {
    type V = Store<J>;

    closed spec fn view(&self) -> Store<J> {
        self.queue_manager@
    }
}

impl<J> Handler<J> {
    /// A factory with a store of its own: nothing pending, open.
    pub fn new() -> (handler: Handler<J>)
        ensures
            handler@ == Store::<J>::empty(),
    {
        Handler { queue_manager: QueueManager::new() }
    }

    /// Whether the store has been closed.
    pub fn is_closed(&self) -> (closed: bool)
        ensures
            closed == self@.closed,
    {
        self.queue_manager.is_closed()
    }

    /// The number of pending jobs.
    pub fn pending_count(&self) -> (n: usize)
        ensures
            n == self@.pending.len(),
    {
        self.queue_manager.len()
    }

    /// A producer handle bound to this factory's store: it sees the store
    /// as it is now, and the factory's store is what the handle leaves.
    pub fn enqueuer(&mut self) -> (handle: Enqueuer<'_, J>)
        ensures
            handle.store() == old(self)@,
            final(self)@ == (*final(handle.queue_manager))@,
    {
        Enqueuer { queue_manager: &mut self.queue_manager }
    }

    /// A dispatch loop bound to this factory's store: it sees the store
    /// as it is now, and the factory's store is what the loop leaves.
    pub fn listener(&mut self) -> (handle: Listener<'_, J>)
        ensures
            handle.store() == old(self)@,
            final(self)@ == (*final(handle.queue_manager))@,
    {
        Listener { queue_manager: &mut self.queue_manager }
    }
}

} // verus!
