//! Histories of a queue store: what a sequence of operations takes in,
//! what it hands out, and what it leaves pending.
//!
//! A history lists the operations in the order in which they took effect
//! on the store. With several producers it is one interleaving of their
//! calls; the theorems below hold of every history, and so of every
//! interleaving.

use crate::job::Dispatch;
use crate::job::Store;
use vstd::math::min;
use vstd::prelude::*;

verus! {

/// One operation on a queue store.
pub ghost enum Op<J> {
    /// `append` of the job.
    Append(J),
    /// `pop_front`.
    PopFront,
    /// `close`.
    Close,
    /// One cycle of the dispatch loop.
    Cycle,
}

impl<J> Store<J> {
    /// The store after `op`.
    pub open spec fn apply(self, op: Op<J>) -> Self {
        match op {
            Op::Append(job) => self.append(job),
            Op::PopFront => self.pop_front(),
            Op::Close => self.close(),
            Op::Cycle => self.cycle(),
        }
    }

    /// The job that `op` takes into the store: the appended job where the
    /// store is open, else none.
    pub open spec fn taken_in(self, op: Op<J>) -> Seq<J> {
        match op {
            Op::Append(job) => if self.closed {
                Seq::empty()
            } else {
                seq![job]
            },
            _ => Seq::empty(),
        }
    }

    /// The job that `op` hands out of the store: the one a `pop_front`
    /// returns or a cycle launches, else none.
    pub open spec fn handed_out(self, op: Op<J>) -> Seq<J> {
        match op {
            Op::PopFront => match self.front() {
                Some(job) => seq![job],
                None => Seq::empty(),
            },
            Op::Cycle => match self.decision() {
                Dispatch::Launch(job) => seq![job],
                _ => Seq::empty(),
            },
            _ => Seq::empty(),
        }
    }

    /// The store after the operations of `ops`, in their order.
    pub open spec fn run(self, ops: Seq<Op<J>>) -> Self
        decreases ops.len(),
    {
        if ops.len() == 0 {
            self
        } else {
            self.apply(ops[0]).run(ops.drop_first())
        }
    }

    /// The jobs that `ops` take in, in the order of the calls.
    pub open spec fn accepted(self, ops: Seq<Op<J>>) -> Seq<J>
        decreases ops.len(),
    {
        if ops.len() == 0 {
            Seq::empty()
        } else {
            self.taken_in(ops[0]) + self.apply(ops[0]).accepted(ops.drop_first())
        }
    }

    /// The jobs that `ops` hand out, in the order of the calls.
    pub open spec fn dispatched(self, ops: Seq<Op<J>>) -> Seq<J>
        decreases ops.len(),
    {
        if ops.len() == 0 {
            Seq::empty()
        } else {
            self.handed_out(ops[0]) + self.apply(ops[0]).dispatched(ops.drop_first())
        }
    }

    /// The store after `n` calls of `close`.
    pub open spec fn close_times(self, n: nat) -> Self
        decreases n,
    {
        if n == 0 {
            self
        } else {
            self.close().close_times((n - 1) as nat)
        }
    }
}

/// First in, first out: whatever the operations and their order, the jobs
/// handed out so far, followed by the jobs still pending, are the jobs
/// that were pending at the start followed by the jobs taken in, each in
/// the order of its arrival.
pub proof fn lemma_first_in_first_out<J>(s: Store<J>, ops: Seq<Op<J>>)
    ensures
        s.dispatched(ops) + s.run(ops).pending == s.pending + s.accepted(ops),
    decreases ops.len(),
{
    if ops.len() == 0 {
        assert(s.dispatched(ops) + s.run(ops).pending =~= s.pending + s.accepted(ops));
    } else {
        let op = ops[0];
        let next = s.apply(op);
        let rest = ops.drop_first();
        lemma_first_in_first_out(next, rest);
        assert(s.handed_out(op) + next.pending =~= s.pending + s.taken_in(op));
        assert(s.dispatched(ops) + s.run(ops).pending =~= s.handed_out(op) + (next.dispatched(rest)
            + next.run(rest).pending));
        assert(s.pending + s.accepted(ops) =~= (s.pending + s.taken_in(op)) + next.accepted(rest));
        assert(s.handed_out(op) + (next.pending + next.accepted(rest)) =~= (s.handed_out(op)
            + next.pending) + next.accepted(rest));
    }
}

/// Each job leaves at most once, and in its turn: the job handed out in
/// place `k` is the one that arrived in place `k`, so no arrival is
/// handed out twice and none overtakes another.
pub proof fn lemma_dispatched_once_in_turn<J>(s: Store<J>, ops: Seq<Op<J>>, k: int)
    requires
        0 <= k < s.dispatched(ops).len(),
    ensures
        s.dispatched(ops).len() <= (s.pending + s.accepted(ops)).len(),
        s.dispatched(ops)[k] == (s.pending + s.accepted(ops))[k],
{
    lemma_first_in_first_out(s, ops);
    let out = s.dispatched(ops);
    let left = s.run(ops).pending;
    assert((out + left)[k] == out[k]);
    assert((out + left).len() == out.len() + left.len());
}

/// Jobs appended to an open, empty store and then popped come back in
/// the order in which they were appended.
pub proof fn lemma_appended_then_popped<J>(jobs: Seq<J>)
    ensures
        Store::<J>::empty().run(appends(jobs)).pending == jobs,
        Store::<J>::empty().run(appends(jobs)).run(pops(jobs.len())).pending.len() == 0,
        Store::<J>::empty().run(appends(jobs)).dispatched(pops(jobs.len())) == jobs,
{
    let s = Store::<J>::empty();
    let filled = s.run(appends(jobs));
    lemma_open_appends(s, jobs);
    assert(s.pending + jobs =~= jobs);
    lemma_pops(filled, jobs.len());
    assert(filled.pending.take(jobs.len() as int) =~= jobs);
}

/// `append` of each job of `jobs`, in order.
pub open spec fn appends<J>(jobs: Seq<J>) -> Seq<Op<J>> {
    Seq::new(jobs.len(), |i: int| Op::Append(jobs[i]))
}

/// `n` calls of `pop_front`.
pub open spec fn pops<J>(n: nat) -> Seq<Op<J>> {
    Seq::new(n, |i: int| Op::PopFront)
}

/// `n` cycles of the dispatch loop.
pub open spec fn cycles<J>(n: nat) -> Seq<Op<J>> {
    Seq::new(n, |i: int| Op::Cycle)
}

/// An open store takes every job of a run of appends, in order, and
/// stays open.
pub proof fn lemma_open_appends<J>(s: Store<J>, jobs: Seq<J>)
    requires
        !s.closed,
    ensures
        s.run(appends(jobs)) == (Store { pending: s.pending + jobs, closed: false }),
        s.accepted(appends(jobs)) == jobs,
    decreases jobs.len(),
{
    let ops = appends(jobs);
    if jobs.len() == 0 {
        assert(s.pending + jobs =~= s.pending);
        assert(s.accepted(ops) =~= jobs);
    } else {
        let next = s.apply(ops[0]);
        assert(ops.drop_first() =~= appends(jobs.drop_first()));
        lemma_open_appends(next, jobs.drop_first());
        assert(next.pending + jobs.drop_first() =~= s.pending + jobs);
        assert(s.taken_in(ops[0]) + jobs.drop_first() =~= jobs);
    }
}

/// `n` calls of `pop_front` hand out the `n` oldest pending jobs, oldest
/// first (all of them, where fewer are pending), and leave the others.
pub proof fn lemma_pops<J>(s: Store<J>, n: nat)
    ensures
        s.dispatched(pops(n)) == s.pending.take(min(n as int, s.pending.len() as int)),
        s.run(pops(n)).pending == s.pending.skip(min(n as int, s.pending.len() as int)),
        s.run(pops(n)).closed == s.closed,
    decreases n,
{
    let ops = pops::<J>(n);
    let m = min(n as int, s.pending.len() as int);
    if n == 0 {
        assert(s.dispatched(ops) =~= s.pending.take(m));
        assert(s.pending =~= s.pending.skip(m));
    } else {
        let next = s.apply(ops[0]);
        assert(ops.drop_first() =~= pops::<J>((n - 1) as nat));
        lemma_pops(next, (n - 1) as nat);
        let m1 = min(n - 1, next.pending.len() as int);
        assert(s.handed_out(ops[0]) + next.pending.take(m1) =~= s.pending.take(m));
        assert(next.pending.skip(m1) =~= s.pending.skip(m));
    }
}

/// On an open store, `n` cycles of the dispatch loop launch the `n`
/// oldest pending jobs, oldest first (all of them, where fewer are
/// pending), and leave the others.
pub proof fn lemma_open_cycles<J>(s: Store<J>, n: nat)
    requires
        !s.closed,
    ensures
        s.dispatched(cycles(n)) == s.pending.take(min(n as int, s.pending.len() as int)),
        s.run(cycles(n)).pending == s.pending.skip(min(n as int, s.pending.len() as int)),
        !s.run(cycles(n)).closed,
    decreases n,
{
    let ops = cycles::<J>(n);
    let m = min(n as int, s.pending.len() as int);
    if n == 0 {
        assert(s.dispatched(ops) =~= s.pending.take(m));
        assert(s.pending =~= s.pending.skip(m));
    } else {
        let next = s.apply(ops[0]);
        assert(ops.drop_first() =~= cycles::<J>((n - 1) as nat));
        lemma_open_cycles(next, (n - 1) as nat);
        let m1 = min(n - 1, next.pending.len() as int);
        assert(s.handed_out(ops[0]) + next.pending.take(m1) =~= s.pending.take(m));
        assert(next.pending.skip(m1) =~= s.pending.skip(m));
    }
}

/// A closed store stays closed and takes nothing in: whatever the
/// operations, the flag stays set, no job is accepted and the number of
/// pending jobs does not grow.
pub proof fn lemma_closed_stays_closed<J>(s: Store<J>, ops: Seq<Op<J>>)
    requires
        s.closed,
    ensures
        s.run(ops).closed,
        s.accepted(ops).len() == 0,
        s.run(ops).pending.len() <= s.pending.len(),
    decreases ops.len(),
{
    if ops.len() > 0 {
        lemma_closed_stays_closed(s.apply(ops[0]), ops.drop_first());
    }
}

/// `append` on a closed store changes nothing.
pub proof fn lemma_append_after_close<J>(s: Store<J>, job: J)
    ensures
        s.close().append(job) == s.close(),
        s.close().append(job).pending.len() == s.pending.len(),
{
}

/// `close` is idempotent: any number of calls, one at least, leaves the
/// store as a single call does.
pub proof fn lemma_close_idempotent<J>(s: Store<J>, n: nat)
    requires
        n >= 1,
    ensures
        s.close_times(n) == s.close(),
        s.close().close() == s.close(),
    decreases n,
{
    if n > 1 {
        lemma_close_idempotent(s.close(), (n - 1) as nat);
    } else {
        assert(s.close().close_times(0) == s.close());
    }
}

/// Once the store is closed the dispatch loop has stopped: every further
/// cycle answers `Stop`, launches nothing and leaves the store as it is.
pub proof fn lemma_closed_loop_stopped<J>(s: Store<J>, n: nat)
    requires
        s.closed,
    ensures
        s.decision() == Dispatch::<J>::Stop,
        s.run(cycles(n)) == s,
        s.dispatched(cycles(n)).len() == 0,
    decreases n,
{
    let ops = cycles::<J>(n);
    if n > 0 {
        assert(s.apply(ops[0]) == s);
        assert(ops.drop_first() =~= cycles::<J>((n - 1) as nat));
        lemma_closed_loop_stopped(s, (n - 1) as nat);
    }
}

/// An open store with nothing pending makes the loop wait and is left as
/// it is; with something pending, the loop launches the oldest job.
pub proof fn lemma_open_decision<J>(s: Store<J>)
    requires
        !s.closed,
    ensures
        s.pending.len() == 0 ==> s.decision() == Dispatch::<J>::Wait && s.cycle() == s,
        s.pending.len() > 0 ==> s.decision() == Dispatch::Launch(s.pending[0])
            && s.cycle().pending == s.pending.drop_first(),
{
}

} // verus!
