//! The decision core of the fixed-size worker pool. The dispatcher
//! owns a fixed count of workers and an unbounded queue of pending
//! jobs, named here by integer identity. Every transition a pool
//! makes — a submission, a worker asking for work, a worker finishing
//! a job, the closing of the queue — is a step of this state machine;
//! the executors around it only perform the actions it hands out.
//!
//! The ghost history records every job ever submitted and every job
//! finished, and the well-formedness invariant states the exactly-once
//! conservation law: the submitted jobs are precisely the queued
//! ones, the running ones and the finished ones, counted with
//! multiplicity. No job is duplicated, none is silently dropped.

use vstd::prelude::*;
use vstd::multiset::Multiset;

verus! {

broadcast use vstd::multiset::group_multiset_axioms, vstd::seq_lib::group_to_multiset_ensures;

/// What one worker is doing: waiting for work, executing one job, or
/// terminated after the closed queue drained.
pub enum WorkerState {
    /// Waiting to receive a job.
    Idle,
    /// Executing the job with this identity.
    Running(u64),
    /// Terminated; the worker will never run another job.
    Done,
}

/// What the dispatcher tells a worker that asks for work.
pub enum Action {
    /// Execute this job, then report back with `finish`.
    Run(u64),
    /// Nothing is queued yet and the queue is open: ask again.
    Wait,
    /// The queue is closed and drained: terminate.
    Terminate,
}

/// The one construction failure: a pool must have at least one
/// worker.
#[derive(Debug, PartialEq, Eq)]
pub enum PoolError {
    /// A pool of size zero was asked for.
    ZeroSize,
}

/// The jobs currently executing, with multiplicity, over a worker
/// array.
pub open spec fn running_jobs(ws: Seq<WorkerState>) -> Multiset<u64>
    decreases ws.len(),
{
    if ws.len() == 0 {
        Multiset::empty()
    } else {
        match ws.last() {
            WorkerState::Running(j) => running_jobs(ws.drop_last()).insert(j),
            _ => running_jobs(ws.drop_last()),
        }
    }
}

/// How many jobs are executing at this instant.
pub open spec fn running_count(ws: Seq<WorkerState>) -> nat {
    running_jobs(ws).len()
}

/// No more jobs run than there are workers.
pub proof fn lemma_running_le_len(ws: Seq<WorkerState>)
    ensures
        running_jobs(ws).len() <= ws.len(),
    decreases ws.len(),
{
    if ws.len() > 0 {
        lemma_running_le_len(ws.drop_last());
    }
}

/// A worker array in which nothing runs contributes no running jobs.
pub proof fn lemma_running_jobs_none(ws: Seq<WorkerState>)
    requires
        forall|i: int| 0 <= i < ws.len() ==> !(ws[i] is Running),
    ensures
        running_jobs(ws) =~= Multiset::empty(),
    decreases ws.len(),
{
    if ws.len() > 0 {
        lemma_running_jobs_none(ws.drop_last());
    }
}

/// Replacing a non-running entry by `v` adds `v`'s job, if any, to
/// the running jobs and changes nothing else.
pub proof fn lemma_running_jobs_update(ws: Seq<WorkerState>, i: int, v: WorkerState)
    requires
        0 <= i < ws.len(),
        !(ws[i] is Running),
    ensures
        running_jobs(ws.update(i, v)) =~= (match v {
            WorkerState::Running(j) => running_jobs(ws).insert(j),
            _ => running_jobs(ws),
        }),
    decreases ws.len(),
{
    let wsu = ws.update(i, v);
    if i == ws.len() - 1 {
        assert(wsu.drop_last() =~= ws.drop_last());
    } else {
        lemma_running_jobs_update(ws.drop_last(), i, v);
        assert(wsu.drop_last() =~= ws.drop_last().update(i, v));
        assert(wsu.last() == ws.last());
    }
}

/// Replacing a running entry by a non-running one removes exactly
/// that one occurrence of its job.
pub proof fn lemma_running_jobs_downdate(ws: Seq<WorkerState>, i: int, v: WorkerState, j: u64)
    requires
        0 <= i < ws.len(),
        ws[i] == WorkerState::Running(j),
        !(v is Running),
    ensures
        running_jobs(ws) =~= running_jobs(ws.update(i, v)).insert(j),
    decreases ws.len(),
{
    let wsu = ws.update(i, v);
    if i == ws.len() - 1 {
        assert(wsu.drop_last() =~= ws.drop_last());
    } else {
        lemma_running_jobs_downdate(ws.drop_last(), i, v, j);
        assert(wsu.drop_last() =~= ws.drop_last().update(i, v));
        assert(wsu.last() == ws.last());
    }
}

/// The dispatcher: a fixed worker array, the queue of pending job
/// identities, the closed flag, and the ghost history of submissions
/// and completions.
pub struct Dispatcher {
    /// One entry per worker; the length is the pool size, fixed at
    /// construction.
    pub workers: Vec<WorkerState>,
    /// Pending jobs in submission order; delivery takes the front.
    pub queue: Vec<u64>,
    /// Once set, no further submission succeeds.
    pub closed: bool,
    /// Every job ever submitted, with multiplicity.
    pub submitted: Ghost<Multiset<u64>>,
    /// Every job some worker has finished executing.
    pub finished: Ghost<Multiset<u64>>,
}

impl Dispatcher {
    /// The pool size: the worker count fixed at construction.
    pub open spec fn size(&self) -> nat {
        self.workers@.len()
    }

    /// The conservation invariant: every submitted job is pending,
    /// executing, or finished — counted with multiplicity, so no job
    /// is duplicated or dropped.
    pub open spec fn wf(&self) -> bool {
        &&& self.size() > 0
        &&& self.submitted@ =~= self.queue@.to_multiset().add(running_jobs(self.workers@)).add(
            self.finished@,
        )
    }

    /// Builds a pool of `n` idle workers with an empty open queue;
    /// refused when `n` is zero.
    pub fn new(n: usize) -> (r: Result<Dispatcher, PoolError>)
        ensures
            n == 0 <==> r is Err,
            r matches Ok(d) ==> {
                &&& d.wf()
                &&& d.size() == n
                &&& !d.closed
                &&& d.queue@ == Seq::<u64>::empty()
                &&& d.submitted@ =~= Multiset::<u64>::empty()
                &&& d.finished@ =~= Multiset::<u64>::empty()
                &&& forall|i: int| 0 <= i < n ==> d.workers@[i] is Idle
            },
    {
        if n == 0 {
            return Err(PoolError::ZeroSize);
        }
        let mut workers: Vec<WorkerState> = Vec::new();
        let mut i: usize = 0;
        while i < n
            invariant
                0 <= i <= n,
                workers@.len() == i,
                forall|k: int| 0 <= k < i ==> workers@[k] is Idle,
            decreases n - i,
        {
            workers.push(WorkerState::Idle);
            i = i + 1;
        }
        let d = Dispatcher {
            workers,
            queue: Vec::new(),
            closed: false,
            submitted: Ghost(Multiset::empty()),
            finished: Ghost(Multiset::empty()),
        };
        proof {
            lemma_running_jobs_none(d.workers@);
            assert(d.queue@.to_multiset().len() == 0);
        }
        Ok(d)
    }

    /// Enqueues a job while the queue is open; a submission against a
    /// closed queue is refused and changes nothing. The caller is
    /// never blocked: the queue is unbounded.
    pub fn submit(&mut self, job: u64) -> (ok: bool)
        requires
            old(self).wf(),
        ensures
            final(self).wf(),
            ok == !old(self).closed,
            final(self).closed == old(self).closed,
            final(self).workers@ == old(self).workers@,
            final(self).finished@ == old(self).finished@,
            ok ==> final(self).queue@ == old(self).queue@.push(job) && final(self).submitted@
                =~= old(self).submitted@.insert(job),
            !ok ==> final(self).queue@ == old(self).queue@ && final(self).submitted@ == old(
                self,
            ).submitted@,
    {
        if self.closed {
            return false;
        }
        self.queue.push(job);
        proof {
            self.submitted@ = self.submitted@.insert(job);
        }
        true
    }

    /// Answers an idle worker asking for work: the front of the
    /// queue when one is pending; an order to terminate when the
    /// queue is closed and drained; an order to wait otherwise.
    pub fn next_action(&mut self, w: usize) -> (a: Action)
        requires
            old(self).wf(),
            w < old(self).size(),
            old(self).workers@[w as int] is Idle,
        ensures
            final(self).wf(),
            final(self).size() == old(self).size(),
            final(self).closed == old(self).closed,
            final(self).submitted@ == old(self).submitted@,
            final(self).finished@ == old(self).finished@,
            match a {
                Action::Run(j) => {
                    &&& old(self).queue@.len() > 0
                    &&& j == old(self).queue@[0]
                    &&& final(self).queue@ == old(self).queue@.remove(0)
                    &&& final(self).workers@ == old(self).workers@.update(
                        w as int,
                        WorkerState::Running(j),
                    )
                },
                Action::Wait => {
                    &&& old(self).queue@.len() == 0
                    &&& !old(self).closed
                    &&& final(self).queue@ == old(self).queue@
                    &&& final(self).workers@ == old(self).workers@
                },
                Action::Terminate => {
                    &&& old(self).queue@.len() == 0
                    &&& old(self).closed
                    &&& final(self).queue@ == old(self).queue@
                    &&& final(self).workers@ == old(self).workers@.update(
                        w as int,
                        WorkerState::Done,
                    )
                },
            },
    {
        if self.queue.len() > 0 {
            let job = self.queue.remove(0);
            proof {
                lemma_running_jobs_update(
                    self.workers@,
                    w as int,
                    WorkerState::Running(job),
                );
                assert(old(self).queue@.to_multiset().contains(old(self).queue@[0]));
            }
            self.workers.set(w, WorkerState::Running(job));
            proof {
                assert(self.submitted@ =~= self.queue@.to_multiset().add(
                    running_jobs(self.workers@),
                ).add(self.finished@));
            }
            Action::Run(job)
        } else if self.closed {
            proof {
                lemma_running_jobs_update(self.workers@, w as int, WorkerState::Done);
            }
            self.workers.set(w, WorkerState::Done);
            Action::Terminate
        } else {
            Action::Wait
        }
    }

    /// Records that worker `w` finished the job it was running; the
    /// worker is idle again and the job joins the finished history.
    pub fn finish(&mut self, w: usize)
        requires
            old(self).wf(),
            w < old(self).size(),
            old(self).workers@[w as int] is Running,
        ensures
            final(self).wf(),
            final(self).size() == old(self).size(),
            final(self).closed == old(self).closed,
            final(self).queue@ == old(self).queue@,
            final(self).submitted@ == old(self).submitted@,
            final(self).workers@ == old(self).workers@.update(w as int, WorkerState::Idle),
            old(self).workers@[w as int] matches WorkerState::Running(j) && final(self).finished@
                =~= old(self).finished@.insert(j),
    {
        let ghost j = old(self).workers@[w as int]->Running_0;
        proof {
            lemma_running_jobs_downdate(self.workers@, w as int, WorkerState::Idle, j);
        }
        self.workers.set(w, WorkerState::Idle);
        proof {
            self.finished@ = self.finished@.insert(j);
            assert(running_jobs(old(self).workers@) =~= running_jobs(self.workers@).insert(j));
        }
    }

    /// Closes the queue: no further submission succeeds; pending jobs
    /// still drain to workers, and workers that find the closed queue
    /// empty terminate.
    pub fn close(&mut self)
        requires
            old(self).wf(),
        ensures
            final(self).wf(),
            final(self).closed,
            final(self).size() == old(self).size(),
            final(self).queue@ == old(self).queue@,
            final(self).workers@ == old(self).workers@,
            final(self).submitted@ == old(self).submitted@,
            final(self).finished@ == old(self).finished@,
    {
        self.closed = true;
    }

    /// The pool size, as the executors see it.
    pub fn worker_count(&self) -> (r: usize)
        ensures
            r == self.size(),
    {
        self.workers.len()
    }

    /// How many jobs are pending in the queue.
    pub fn pending(&self) -> (r: usize)
        ensures
            r == self.queue@.len(),
    {
        self.queue.len()
    }

    /// Whether the queue has been closed.
    pub fn is_closed(&self) -> (r: bool)
        ensures
            r == self.closed,
    {
        self.closed
    }

    /// Whether every worker has terminated.
    pub fn all_done(&self) -> (r: bool)
        ensures
            r == forall|i: int| 0 <= i < self.size() ==> self.workers@[i] is Done,
    {
        let n = self.workers.len();
        let mut i: usize = 0;
        while i < n
            invariant
                0 <= i <= n,
                n == self.size(),
                forall|k: int| 0 <= k < i ==> self.workers@[k] is Done,
            decreases n - i,
        {
            match self.workers[i] {
                WorkerState::Done => {},
                _ => {
                    return false;
                },
            }
            i = i + 1;
        }
        true
    }
}

/// At most as many jobs execute as the pool has workers: the
/// concurrency cap of a pool of size N is N.
pub proof fn lemma_concurrency_bound(d: Dispatcher)
    ensures
        running_count(d.workers@) <= d.size(),
{
    lemma_running_le_len(d.workers@);
}

/// While the dispatcher is well formed, every submitted job is
/// accounted for: it is pending, executing, or finished, with
/// multiplicity. None is executed twice, none is dropped.
pub proof fn lemma_no_job_lost(d: Dispatcher)
    requires
        d.wf(),
    ensures
        d.submitted@ =~= d.queue@.to_multiset().add(running_jobs(d.workers@)).add(d.finished@),
{
}

/// Once the dispatcher is shut down — the queue closed and drained,
/// every worker terminated — every job submitted before the shutdown
/// has been finished: none was skipped.
pub proof fn lemma_shutdown_complete(d: Dispatcher)
    requires
        d.wf(),
        d.closed,
        d.queue@.len() == 0,
        forall|i: int| 0 <= i < d.size() ==> d.workers@[i] is Done,
    ensures
        d.finished@ =~= d.submitted@,
{
    lemma_running_jobs_none(d.workers@);
    assert(d.queue@.to_multiset().len() == 0);
    assert(forall|x: u64| !d.queue@.contains(x));
    assert(forall|x: u64| d.queue@.to_multiset().count(x) == 0);
}

} // verus!
