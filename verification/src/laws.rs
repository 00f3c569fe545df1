//! Pool-wide laws, proved over the model's transitions.

use vstd::prelude::*;

use crate::pool::Job;
use crate::pool::PoolModel;
use crate::pool::WorkerState;
use crate::pool::running_count;

verus! {

/// The tickets of the submitted jobs in a queue, in order; wake-ups carry
/// no job of the caller's.
pub open spec fn tasks_of(q: Seq<Job>) -> Seq<u64>
    decreases q.len(),
{
    if q.len() == 0 {
        Seq::empty()
    } else {
        match q[0] {
            Job::Task(t) => seq![t] + tasks_of(q.drop_first()),
            Job::Wakeup => tasks_of(q.drop_first()),
        }
    }
}

/// Submit each ticket of `ts`, in order.
pub open spec fn submit_all(s: PoolModel, ts: Seq<u64>) -> PoolModel
    decreases ts.len(),
{
    if ts.len() == 0 {
        s
    } else {
        submit_all(s.submit(ts[0]), ts.drop_first())
    }
}

/// Workers take jobs one after another until the queue is empty; once
/// shutdown begins nothing more is taken, and teardown discards the rest.
pub open spec fn drain(s: PoolModel) -> PoolModel
    decreases s.queue.len(),
{
    if !s.shutdown && s.queue.len() > 0 {
        drain(s.consume_front())
    } else {
        s
    }
}

/// Shutdown is permanent: no transition of the model lowers the flag.
pub proof fn lemma_shutdown_is_permanent(s: PoolModel, ticket: u64, w: int)
    requires
        s.shutdown,
    ensures
        s.submit(ticket).shutdown,
        s.signal_shutdown().shutdown,
        s.step(w).shutdown,
        s.torn_down().shutdown,
{
}

/// While the pool is accepting, submission queues every job at the back,
/// in submission order, and touches nothing else.
pub proof fn lemma_submit_all_queues(s: PoolModel, ts: Seq<u64>)
    requires
        !s.shutdown,
    ensures
        submit_all(s, ts).queue == s.queue + ts.map_values(|t: u64| Job::Task(t)),
        !submit_all(s, ts).shutdown,
        submit_all(s, ts).executed == s.executed,
        submit_all(s, ts).workers == s.workers,
    decreases ts.len(),
{
    if ts.len() == 0 {
        assert(s.queue + ts.map_values(|t: u64| Job::Task(t)) =~= s.queue);
    } else {
        let s1 = s.submit(ts[0]);
        lemma_submit_all_queues(s1, ts.drop_first());
        assert(s1.queue + ts.drop_first().map_values(|t: u64| Job::Task(t)) =~= s.queue
            + ts.map_values(|t: u64| Job::Task(t)));
    }
}

/// Draining executes exactly the jobs that were queued, in queue order,
/// appended to the log of what had already executed.
pub proof fn lemma_drain_executes_pending(s: PoolModel)
    requires
        !s.shutdown,
    ensures
        drain(s).executed == s.executed + tasks_of(s.queue),
        drain(s).workers == s.workers,
        !drain(s).shutdown,
    decreases s.queue.len(),
{
    if s.queue.len() == 0 {
        assert(s.executed + tasks_of(s.queue) =~= s.executed);
    } else {
        let s2 = s.consume_front();
        lemma_drain_executes_pending(s2);
        match s.queue[0] {
            Job::Task(t) => {
                assert(s2.executed + tasks_of(s2.queue) =~= s.executed + tasks_of(s.queue));
            },
            Job::Wakeup => {
                assert(s2.executed + tasks_of(s2.queue) =~= s.executed + tasks_of(s.queue));
            },
        }
    }
}

/// Wrapping tickets as queue entries and reading them back is the identity.
proof fn lemma_tasks_of_wrapped(ts: Seq<u64>)
    ensures
        tasks_of(ts.map_values(|t: u64| Job::Task(t))) == ts,
    decreases ts.len(),
{
    let q = ts.map_values(|t: u64| Job::Task(t));
    if ts.len() == 0 {
        assert(tasks_of(q) =~= ts);
    } else {
        assert(q.drop_first() =~= ts.drop_first().map_values(|t: u64| Job::Task(t)));
        lemma_tasks_of_wrapped(ts.drop_first());
        assert(seq![ts[0]] + ts.drop_first() =~= ts);
    }
}

/// Every job submitted before any shutdown executes exactly once: a fresh
/// pool that accepts the tickets `ts`, whose workers then drain the queue,
/// has executed exactly `ts` — each submitted job once, in submission
/// order.
pub proof fn lemma_jobs_execute_exactly_once(n: nat, ts: Seq<u64>)
    requires
        n >= 1,
    ensures
        drain(submit_all(PoolModel::fresh(n), ts)).executed == ts,
{
    let s0 = PoolModel::fresh(n);
    lemma_submit_all_queues(s0, ts);
    let s1 = submit_all(s0, ts);
    assert(s1.queue =~= ts.map_values(|t: u64| Job::Task(t)));
    lemma_drain_executes_pending(s1);
    lemma_tasks_of_wrapped(ts);
    assert(Seq::<u64>::empty() + ts =~= ts);
}

/// A job submitted after shutdown has returned never runs: the submission
/// is dropped on the spot, and teardown executes nothing further.
pub proof fn lemma_no_execution_after_shutdown(s: PoolModel, ticket: u64)
    requires
        s.shutdown,
        !s.executed.contains(ticket),
    ensures
        s.submit(ticket) == s,
        !s.submit(ticket).torn_down().executed.contains(ticket),
{
}

/// After shutdown is signalled no worker can stay blocked: its next loop
/// iteration observes the flag and stops. This is why teardown, which
/// steps each worker once, always returns.
pub proof fn lemma_workers_stop_after_shutdown(s: PoolModel, w: int)
    requires
        s.shutdown,
        0 <= w < s.workers.len(),
    ensures
        s.step(w).workers[w] == WorkerState::Stopped,
{
}

/// Counting the live workers of a uniform worker sequence.
proof fn lemma_running_count_uniform(n: nat, st: WorkerState)
    ensures
        running_count(Seq::new(n, |i: int| st)) == if st == WorkerState::Running {
            n
        } else {
            0nat
        },
    decreases n,
{
    if n > 0 {
        lemma_running_count_uniform((n - 1) as nat, st);
        assert(Seq::new(n, |i: int| st).drop_last() =~= Seq::new((n - 1) as nat, |i: int| st));
    }
}

/// A fresh pool has exactly the requested number of live workers.
pub proof fn lemma_fresh_pool_all_running(n: nat)
    ensures
        running_count(PoolModel::fresh(n).workers) == n,
{
    lemma_running_count_uniform(n, WorkerState::Running);
}

/// A torn-down pool has no live workers left.
pub proof fn lemma_torn_down_none_running(s: PoolModel)
    ensures
        running_count(s.torn_down().workers) == 0,
{
    lemma_running_count_uniform(s.workers.len(), WorkerState::Stopped);
}

} // verus!
