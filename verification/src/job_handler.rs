//! A plain job queue without a closed flag, and the rounds of a handler
//! that drains it and gives up after a number of idle rounds.

use crate::job::sample::greeting;
use crate::job::sample::greeting_line;
use crate::job::sample::sum_line;
use crate::job::sample::sum_report;
use std::collections::VecDeque;
use vstd::prelude::*;

verus! {

/// A unit of work. `run` carries the work out and hands back the line
/// that the job reports.
pub trait JobInterface: Send + Sync {
    fn run(&self) -> String;
}

/// A job that greets someone by name.
pub struct GreeterJob {
    name: String,
}

impl GreeterJob {
    pub closed spec fn name(&self) -> Seq<char> {
        self.name@
    }

    pub fn new(name: String) -> (job: GreeterJob)
        ensures
            job.name() == name@,
    {
        GreeterJob { name }
    }
}

impl JobInterface for GreeterJob {
    /// Reports the greeting.
    fn run(&self) -> (line: String)
        ensures
            line@ == greeting(self.name()),
    {
        greeting_line(self.name.as_str())
    }
}

/// A job that adds two integers.
pub struct SumJob {
    a: i32,
    b: i32,
}

impl SumJob {
    pub closed spec fn terms(&self) -> (i32, i32) {
        (self.a, self.b)
    }

    pub fn new(a: i32, b: i32) -> (job: SumJob)
        ensures
            job.terms() == (a, b),
    {
        SumJob { a, b }
    }
}

impl JobInterface for SumJob {
    /// Reports the two terms and their total.
    fn run(&self) -> (line: String)
        ensures
            line@ == sum_line(self.terms().0 as int, self.terms().1 as int),
    {
        sum_report(self.a, self.b)
    }
}

/// The number of idle rounds after which the handler gives up.
pub const IDLE_ROUNDS: u32 = 10;

/// Pending jobs, oldest first.
pub struct JobQueue<J> {
    queue: VecDeque<J>,
}

impl<J> View for JobQueue<J> {
    type V = Seq<J>;

    closed spec fn view(&self) -> Seq<J> {
        self.queue@
    }
}

/// What one round of the handler came to.
pub struct Round<J> {
    /// The job to execute on a unit of its own, if one was pending.
    pub launch: Option<J>,
    /// The idle rounds so far, this one included.
    pub idle: u32,
    /// Whether the handler gives up after this round.
    pub exit: bool,
}

impl<J> JobQueue<J> {
    /// An empty queue.
    pub fn new() -> (queue: JobQueue<J>)
        ensures
            queue@ == Seq::<J>::empty(),
    {
        JobQueue { queue: VecDeque::new() }
    }

    /// The number of pending jobs.
    pub fn len(&self) -> (n: usize)
        ensures
            n == self@.len(),
    {
        self.queue.len()
    }

    /// Adds `job` at the tail.
    pub fn enqueue(&mut self, job: J)
        ensures
            final(self)@ == old(self)@.push(job),
    {
        self.queue.push_back(job);
    }

    /// Removes the oldest pending job and hands it out to be executed on
    /// a unit of its own; `None`, and no change, when nothing is pending.
    pub fn dequeue_and_run(&mut self) -> (job: Option<J>)
        ensures
            old(self)@.len() == 0 ==> job.is_none() && final(self)@ == old(self)@,
            old(self)@.len() > 0 ==> job == Some(old(self)@[0]) && final(self)@
                == old(self)@.drop_first(),
    {
        self.queue.pop_front()
    }
}

/// One round of the handler: with nothing pending it is an idle round,
/// to be followed by a pause; else the oldest job leaves the queue to be
/// executed. The handler gives up once `IDLE_ROUNDS` rounds were idle.
pub fn run<J>(queue: &mut JobQueue<J>, idle: u32) -> (round: Round<J>)
    requires
        idle < u32::MAX,
    ensures
        old(queue)@.len() == 0 ==> {
            &&& round.launch.is_none()
            &&& round.idle == idle + 1
            &&& final(queue)@ == old(queue)@
        },
        old(queue)@.len() > 0 ==> {
            &&& round.launch == Some(old(queue)@[0])
            &&& round.idle == idle
            &&& final(queue)@ == old(queue)@.drop_first()
        },
        round.exit == (round.idle >= IDLE_ROUNDS),
{
    if queue.len() == 0 {
        Round { launch: None, idle: idle + 1, exit: idle + 1 >= IDLE_ROUNDS }
    } else {
        let job = queue.dequeue_and_run();
        Round { launch: job, idle, exit: idle >= IDLE_ROUNDS }
    }
}

} // verus!
