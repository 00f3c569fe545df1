//! The pool model: its state, its transitions, and the executable operations
//! that a driving program consults for every lifecycle decision.

use vstd::prelude::*;

verus! {

/// Error returned by the pool's constructor.
#[derive(Debug, Clone, Copy, PartialEq, Eq, Structural)]
pub enum PoolError {
    /// A pool of zero workers was requested.
    InvalidConfiguration,
}

/// One entry of the job queue: a submitted job, identified by the ticket the
/// pool handed out for it, or a wake-up sent during shutdown to unblock a
/// worker parked on an empty queue.
#[derive(Debug, Clone, Copy, PartialEq, Eq, Structural)]
pub enum Job {
    Task(u64),
    Wakeup,
}

/// The lifecycle state of one worker's loop.
#[derive(Debug, Clone, Copy, PartialEq, Eq, Structural)]
pub enum WorkerState {
    Running,
    Stopped,
}

/// What one iteration of a worker's loop did.
#[derive(Debug, Clone, Copy, PartialEq, Eq, Structural)]
pub enum StepOutcome {
    /// The worker observed the shutdown flag and left its loop.
    Stopped,
    /// The worker took the job with this ticket and ran it to completion.
    Executed(u64),
    /// The worker took a shutdown wake-up; it will see the flag next.
    Woke,
    /// The queue is empty: the worker stays parked in receive.
    Parked,
}

/// One worker slot: an identifier and the state of its loop.
#[derive(Debug, Clone, Copy, PartialEq, Eq, Structural)]
pub struct Worker {
    id: usize,
    state: WorkerState,
}

impl Worker {
    /// The identifier this worker was created with.
    pub closed spec fn id_spec(self) -> usize {
        self.id
    }

    /// Whether this worker's loop is still running.
    pub closed spec fn state_spec(self) -> WorkerState {
        self.state
    }

    /// The identifier this worker was created with.
    pub fn id(&self) -> (id: usize)
        ensures
            id == self.id_spec(),
    {
        self.id
    }

    /// Whether this worker's loop is still running.
    pub fn is_running(&self) -> (b: bool)
        ensures
            b == (self.state_spec() == WorkerState::Running),
    {
        match self.state {
            WorkerState::Running => true,
            WorkerState::Stopped => false,
        }
    }

    /// A fresh worker: its loop starts out running.
    pub fn new(id: usize) -> (w: Worker)
        ensures
            w.id_spec() == id,
            w.state_spec() == WorkerState::Running,
    {
        Worker { id, state: WorkerState::Running }
    }
}

/// How many of the given workers are still running.
pub open spec fn running_count(ws: Seq<WorkerState>) -> nat
    decreases ws.len(),
{
    if ws.len() == 0 {
        0
    } else {
        running_count(ws.drop_last()) + if ws.last() == WorkerState::Running {
            1nat
        } else {
            0nat
        }
    }
}

/// The abstract state of a pool: the state of each worker, the shutdown
/// flag, the queue contents in order, and the log of executed tickets in
/// execution order.
#[verifier::ext_equal]
pub ghost struct PoolModel {
    pub workers: Seq<WorkerState>,
    pub shutdown: bool,
    pub queue: Seq<Job>,
    pub executed: Seq<u64>,
}

impl PoolModel {
    /// The state of a newly constructed pool of `n` workers: all running,
    /// not shut down, nothing queued, nothing executed.
    pub open spec fn fresh(n: nat) -> PoolModel {
        PoolModel {
            workers: Seq::new(n, |i: int| WorkerState::Running),
            shutdown: false,
            queue: Seq::empty(),
            executed: Seq::empty(),
        }
    }

    /// Submission: once the shutdown flag is up the job is dropped,
    /// otherwise it joins the back of the queue.
    pub open spec fn submit(self, ticket: u64) -> PoolModel {
        if self.shutdown {
            self
        } else {
            PoolModel { queue: self.queue.push(Job::Task(ticket)), ..self }
        }
    }

    /// Shutdown: the flag goes up, and one wake-up per worker joins the
    /// queue so that no worker stays parked on an empty queue.
    pub open spec fn signal_shutdown(self) -> PoolModel {
        PoolModel {
            shutdown: true,
            queue: self.queue + Seq::new(self.workers.len(), |i: int| Job::Wakeup),
            ..self
        }
    }

    /// A worker takes the job at the front of the queue; a submitted job is
    /// executed, a wake-up is merely consumed.
    pub open spec fn consume_front(self) -> PoolModel
        recommends
            self.queue.len() > 0,
    {
        match self.queue[0] {
            Job::Task(t) => PoolModel {
                queue: self.queue.drop_first(),
                executed: self.executed.push(t),
                ..self
            },
            Job::Wakeup => PoolModel { queue: self.queue.drop_first(), ..self },
        }
    }

    /// One iteration of worker `w`'s loop: if the shutdown flag is up the
    /// worker stops; otherwise it takes the front job if there is one, and
    /// stays parked if the queue is empty.
    pub open spec fn step(self, w: int) -> PoolModel {
        if self.shutdown {
            PoolModel { workers: self.workers.update(w, WorkerState::Stopped), ..self }
        } else if self.queue.len() == 0 {
            self
        } else {
            self.consume_front()
        }
    }

    /// The state after teardown: every worker has stopped, the flag is up,
    /// jobs left in the queue are discarded unexecuted, and the execution
    /// log is exactly what it was.
    pub open spec fn torn_down(self) -> PoolModel {
        PoolModel {
            workers: Seq::new(self.workers.len(), |i: int| WorkerState::Stopped),
            shutdown: true,
            queue: Seq::empty(),
            executed: self.executed,
        }
    }
}

/// The pool: a fixed set of workers, the shutdown flag, the job queue, and
/// the log of executed tickets.
pub struct ThreadPool {
    workers: Vec<Worker>,
    shutdown_flag: bool,
    queue: Vec<Job>,
    executed: Vec<u64>,
}

impl View for ThreadPool {
    type V = PoolModel;

    closed spec fn view(&self) -> PoolModel {
        PoolModel {
            workers: self.workers@.map_values(|w: Worker| w.state_spec()),
            shutdown: self.shutdown_flag,
            queue: self.queue@,
            executed: self.executed@,
        }
    }
}

impl ThreadPool {
    /// Construct a pool of `threads` workers. Zero workers is an invalid
    /// configuration and is rejected outright; otherwise the pool starts
    /// with exactly `threads` running workers, an empty queue, and the
    /// shutdown flag down.
    pub fn new(threads: u32) -> (r: Result<ThreadPool, PoolError>)
        ensures
            threads == 0 ==> r == Err::<ThreadPool, PoolError>(PoolError::InvalidConfiguration),
            threads >= 1 ==> (r matches Ok(p) && p@ == PoolModel::fresh(threads as nat)),
    {
        if threads == 0 {
            return Err(PoolError::InvalidConfiguration);
        }
        let count: usize = threads as usize;
        let mut workers: Vec<Worker> = Vec::new();
        let mut id: usize = 0;
        while id < count
            invariant
                id <= count,
                workers@.len() == id,
                forall|i: int|
                    0 <= i < id ==> (#[trigger] workers@[i]).state_spec() == WorkerState::Running
                        && workers@[i].id_spec() == i,
            decreases count - id,
        {
            workers.push(Worker::new(id));
            id = id + 1;
        }
        let pool = ThreadPool {
            workers,
            shutdown_flag: false,
            queue: Vec::new(),
            executed: Vec::new(),
        };
        proof {
            assert(pool@ =~= PoolModel::fresh(threads as nat));
        }
        Ok(pool)
    }

    /// Submit the job with the given ticket. The flag check and the enqueue
    /// form one atomic transition of the model: if the shutdown flag is up
    /// the job is silently dropped, otherwise it is queued for execution.
    pub fn spawn(&mut self, ticket: u64)
        ensures
            final(self)@ == old(self)@.submit(ticket),
    {
        if self.shutdown_flag {
            return;
        }
        self.queue.push(Job::Task(ticket));
        proof {
            assert(self@ =~= old(self)@.submit(ticket));
        }
    }

    /// Begin shutdown: raise the flag, then queue one wake-up per worker so
    /// that no worker stays parked on an empty queue. Does not wait for the
    /// workers; that is teardown's part.
    pub fn shutdown(&mut self)
        ensures
            final(self)@ == old(self)@.signal_shutdown(),
    {
        self.shutdown_flag = true;
        let n = self.workers.len();
        let ghost q0 = self.queue@;
        let ghost w0 = self.workers@;
        let ghost e0 = self.executed@;
        let mut i: usize = 0;
        while i < n
            invariant
                i <= n,
                n == self.workers@.len(),
                self.shutdown_flag,
                self.workers@ == w0,
                self.executed@ == e0,
                self.queue@ == q0 + Seq::new(i as nat, |j: int| Job::Wakeup),
            decreases n - i,
        {
            self.queue.push(Job::Wakeup);
            i = i + 1;
            proof {
                assert(self.queue@ =~= q0 + Seq::new(i as nat, |j: int| Job::Wakeup));
            }
        }
        proof {
            assert(self@ =~= old(self)@.signal_shutdown());
        }
    }

    /// One iteration of worker `w`'s loop: check the shutdown flag first and
    /// stop if it is up; otherwise take the front job if there is one, run
    /// it to completion, and report what happened. An empty queue leaves the
    /// worker parked in receive.
    pub fn worker_step(&mut self, w: usize) -> (r: StepOutcome)
        requires
            w < old(self)@.workers.len(),
            old(self)@.workers[w as int] == WorkerState::Running,
        ensures
            final(self)@ == old(self)@.step(w as int),
            old(self)@.shutdown ==> r == StepOutcome::Stopped,
            !old(self)@.shutdown && old(self)@.queue.len() == 0 ==> r == StepOutcome::Parked,
            !old(self)@.shutdown && old(self)@.queue.len() > 0 ==> (match old(self)@.queue[0] {
                Job::Task(t) => r == StepOutcome::Executed(t),
                Job::Wakeup => r == StepOutcome::Woke,
            }),
    {
        if self.shutdown_flag {
            let id = self.workers[w].id;
            self.workers[w] = Worker { id, state: WorkerState::Stopped };
            proof {
                assert(self@ =~= old(self)@.step(w as int));
            }
            return StepOutcome::Stopped;
        }
        if self.queue.len() == 0 {
            return StepOutcome::Parked;
        }
        let job = self.queue.remove(0);
        proof {
            assert(self.queue@ =~= old(self)@.queue.drop_first());
        }
        match job {
            Job::Task(t) => {
                self.executed.push(t);
                proof {
                    assert(self@ =~= old(self)@.step(w as int));
                }
                StepOutcome::Executed(t)
            },
            Job::Wakeup => {
                proof {
                    assert(self@ =~= old(self)@.step(w as int));
                }
                StepOutcome::Woke
            },
        }
    }

    /// Tear the pool down, as destruction does: begin shutdown (again, if it
    /// was already begun — raising the flag twice is harmless), then wait on
    /// each worker in turn until its loop has exited. On return no worker is
    /// running, the execution log is exactly what it was on entry, and the
    /// jobs left in the queue are discarded unexecuted.
    pub fn teardown(&mut self)
        ensures
            final(self)@ == old(self)@.torn_down(),
    {
        self.shutdown();
        let n = self.workers.len();
        let mut i: usize = 0;
        while i < n
            invariant
                i <= n,
                n == self.workers@.len(),
                n == old(self)@.workers.len(),
                self@.workers.len() == n,
                self.shutdown_flag,
                self@.executed == old(self)@.executed,
                forall|j: int| 0 <= j < i ==> self@.workers[j] == WorkerState::Stopped,
            decreases n - i,
        {
            if self.workers[i].is_running() {
                self.worker_step(i);
            }
            i = i + 1;
            proof {
                assert(self@.workers.len() == self.workers@.len());
            }
        }
        self.queue.clear();
        proof {
            assert(self@ =~= old(self)@.torn_down());
        }
    }

    /// The size of the pool: how many workers it was built with.
    pub fn worker_count(&self) -> (n: usize)
        ensures
            n == self@.workers.len(),
    {
        self.workers.len()
    }

    /// How many of the pool's workers are still running.
    pub fn running_workers(&self) -> (n: usize)
        ensures
            n == running_count(self@.workers),
    {
        let len = self.workers.len();
        let mut count: usize = 0;
        let mut i: usize = 0;
        while i < len
            invariant
                i <= len,
                len == self.workers@.len(),
                count <= i,
                count == running_count(self@.workers.subrange(0, i as int)),
            decreases len - i,
        {
            if self.workers[i].is_running() {
                count = count + 1;
            }
            i = i + 1;
            proof {
                assert(self@.workers.subrange(0, i as int).drop_last() =~= self@.workers
                    .subrange(0, i - 1));
            }
        }
        proof {
            assert(self@.workers.subrange(0, self@.workers.len() as int) =~= self@.workers);
        }
        count
    }

    /// Whether the shutdown flag is up.
    pub fn is_shut_down(&self) -> (b: bool)
        ensures
            b == self@.shutdown,
    {
        self.shutdown_flag
    }

    /// How many entries sit in the queue, shutdown wake-ups included.
    pub fn pending_jobs(&self) -> (n: usize)
        ensures
            n == self@.queue.len(),
    {
        self.queue.len()
    }

    /// How many jobs have executed so far.
    pub fn executed_count(&self) -> (n: usize)
        ensures
            n == self@.executed.len(),
    {
        self.executed.len()
    }

    /// The ticket of the job executed `i`-th, counting in execution order.
    pub fn executed_ticket(&self, i: usize) -> (t: u64)
        requires
            i < self@.executed.len(),
        ensures
            t == self@.executed[i as int],
    {
        self.executed[i]
    }
}

} // verus!
