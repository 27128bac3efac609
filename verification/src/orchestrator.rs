//! The prioritized, multi-pool job orchestrator.
//!
//! The orchestrator owns the scheduling state of every submitted unit of
//! work: which pool family serves it, whether it is pending, running,
//! suspended or done, and how many workers each pool may occupy at once.
//! Handles are issued in submission order and never reused, pending units of
//! one pool are started strictly in submission order (FIFO), and a unit that
//! is done never runs again: execution is exactly-once.
//!
//! The orchestrator decides; the embedder executes. A worker thread asks
//! `take_next` for the handle of the unit it should run, performs the unit's
//! side effect, and reports back through `finish`. Suspendable units
//! additionally move through `suspend` (they occupy no worker while
//! suspended) and `resume`.

use vstd::prelude::*;

use crate::counting::{
    count_where, lemma_count_full_prefix, lemma_count_le_len, lemma_count_prefix_extend,
    lemma_count_single, lemma_count_update, lemma_count_zero,
};
use crate::priority::{spec_pool_of, PoolFamily, Priority};

verus! {

/// Whether a unit runs to completion on its worker or may yield at explicit
/// suspension points.
#[derive(Clone, Copy, Debug, PartialEq, Eq, Structural)]
pub enum JobKind {
    RunToCompletion,
    Suspendable,
}

/// The scheduling state of one submitted unit.
#[derive(Clone, Copy, Debug, PartialEq, Eq, Structural)]
pub enum JobState {
    Pending,
    Running,
    Suspended,
    Done,
}

/// The orchestrator's record of one submitted unit of work.
#[derive(Clone, Copy, Debug, PartialEq, Eq, Structural)]
pub struct JobRecord {
    pub id: u64,
    pub priority: Priority,
    pub kind: JobKind,
    pub state: JobState,
}

/// A best-effort snapshot of queue depths and running work. It is read for
/// display and profiling only; it is not linearizable with submissions.
#[derive(Clone, Copy, Debug, PartialEq, Eq, Structural)]
pub struct OrchestratorProfile {
    pub immediate: usize,
    pub normal: usize,
    pub deferred: usize,
    pub frame: usize,
    pub running_tasks: usize,
}

/// The pool family that serves a record.
pub open spec fn family_of(r: JobRecord) -> PoolFamily {
    spec_pool_of(r.priority)
}

/// A record that `take_next(f)` may hand out: pending, and served by `f`.
pub open spec fn startable(r: JobRecord, f: PoolFamily) -> bool {
    r.state is Pending && family_of(r) == f
}

/// The same record with a new scheduling state.
pub open spec fn with_state(r: JobRecord, s: JobState) -> JobRecord {
    JobRecord { state: s, ..r }
}

/// `post` is `pre` with the first startable record of family `f` (at index
/// `i`, with handle `h`) moved from pending to running, and nothing else
/// changed.
pub open spec fn takes_first(
    pre: Seq<JobRecord>,
    post: Seq<JobRecord>,
    f: PoolFamily,
    h: u64,
    i: int,
) -> bool {
    &&& 0 <= i < pre.len()
    &&& pre[i].id == h
    &&& startable(pre[i], f)
    &&& forall|k: int| 0 <= k < i ==> !startable(#[trigger] pre[k], f)
    &&& post == pre.update(i, with_state(pre[i], JobState::Running))
}

/// The scheduling step `take_next` performs when it hands out a unit:
/// `post` is `pre` after starting the earliest pending unit (handle `h`) of
/// family `f`, which had a worker to spare.
pub open spec fn starts_unit(pre: Orchestrator, post: Orchestrator, f: PoolFamily, h: u64) -> bool {
    &&& pre.running_in(f) < pre.workers(f)
    &&& exists|i: int| takes_first(pre.jobs(), post.jobs(), f, h, i)
    &&& post.running_in(f) == pre.running_in(f) + 1
}

/// Records agree on everything but their scheduling state: the orchestrator
/// never forgets a unit, changes its class, or reissues its handle.
pub open spec fn same_shape(pre: Seq<JobRecord>, post: Seq<JobRecord>) -> bool {
    &&& pre.len() == post.len()
    &&& forall|k: int|
        0 <= k < pre.len() ==> (#[trigger] post[k]).id == pre[k].id && post[k].priority
            == pre[k].priority && post[k].kind == pre[k].kind
}

/// The prioritized, multi-pool scheduler: one record per submitted unit, in
/// submission order, and a worker budget for each of the three pool families.
pub struct Orchestrator {
    records: Vec<JobRecord>,
    next_id: u64,
    default_workers: usize,
    frame_workers: usize,
    background_workers: usize,
}

impl Orchestrator {
    /// Every unit ever submitted, in submission order.
    pub closed spec fn jobs(self) -> Seq<JobRecord> {
        self.records@
    }

    /// The handle the next submission will receive.
    pub closed spec fn next_handle(self) -> u64 {
        self.next_id
    }

    /// The worker budget of a pool family.
    pub closed spec fn workers(self, f: PoolFamily) -> usize {
        match f {
            PoolFamily::DefaultPool => self.default_workers,
            PoolFamily::FramePool => self.frame_workers,
            PoolFamily::BackgroundPool => self.background_workers,
        }
    }

    /// Well-formed: handles strictly increase with submission order (so no
    /// two records share a handle) and stay below the next handle.
    pub open spec fn wf(self) -> bool {
        &&& forall|i: int, j: int|
            0 <= i < j < self.jobs().len() ==> (#[trigger] self.jobs()[i]).id < (
            #[trigger] self.jobs()[j]).id
        &&& forall|i: int|
            0 <= i < self.jobs().len() ==> (#[trigger] self.jobs()[i]).id < self.next_handle()
    }

    /// Queue depth of one priority class: submitted but not yet started.
    pub open spec fn pending_in_class(self, p: Priority) -> nat {
        count_where(self.jobs(), |r: JobRecord| r.state is Pending && r.priority == p)
    }

    /// Units of family `f` currently occupying a worker.
    pub open spec fn running_in(self, f: PoolFamily) -> nat {
        count_where(self.jobs(), |r: JobRecord| r.state is Running && family_of(r) == f)
    }

    /// Units currently occupying a worker, over all pools.
    pub open spec fn running_total(self) -> nat {
        count_where(self.jobs(), |r: JobRecord| r.state is Running)
    }

    /// Units of family `f` that are not yet done (pending, running or
    /// suspended).
    pub open spec fn live_in(self, f: PoolFamily) -> nat {
        count_where(self.jobs(), |r: JobRecord| !(r.state is Done) && family_of(r) == f)
    }

    /// Whether a handle was ever issued by this orchestrator.
    pub open spec fn has_job(self, h: u64) -> bool {
        exists|i: int| 0 <= i < self.jobs().len() && (#[trigger] self.jobs()[i]).id == h
    }

    /// A fresh orchestrator with the given worker budget per pool family and
    /// no submitted work.
    pub fn new(default_n: usize, frame_n: usize, background_n: usize) -> (o: Orchestrator)
        ensures
            o.wf(),
            o.jobs() =~= Seq::<JobRecord>::empty(),
            o.next_handle() == 0,
            o.workers(PoolFamily::DefaultPool) == default_n,
            o.workers(PoolFamily::FramePool) == frame_n,
            o.workers(PoolFamily::BackgroundPool) == background_n,
    {
        Orchestrator {
            records: Vec::new(),
            next_id: 0,
            default_workers: default_n,
            frame_workers: frame_n,
            background_workers: background_n,
        }
    }

    /// Resizes the three pools' worker budgets. No queued or running work is
    /// dropped: every record is untouched. A pool resized below its current
    /// running count simply starts nothing new until enough units finish.
    pub fn set_threads(&mut self, default_n: usize, frame_n: usize, background_n: usize)
        ensures
            final(self).jobs() == old(self).jobs(),
            final(self).next_handle() == old(self).next_handle(),
            final(self).workers(PoolFamily::DefaultPool) == default_n,
            final(self).workers(PoolFamily::FramePool) == frame_n,
            final(self).workers(PoolFamily::BackgroundPool) == background_n,
    {
        self.default_workers = default_n;
        self.frame_workers = frame_n;
        self.background_workers = background_n;
    }

    /// Enqueues a run-to-completion unit on the pool family mapped from
    /// `priority` and returns its fresh handle.
    pub fn submit_job(&mut self, priority: Priority) -> (h: u64)
        requires
            old(self).wf(),
            old(self).next_handle() < u64::MAX,
            old(self).jobs().len() < usize::MAX,
        ensures
            final(self).wf(),
            h == old(self).next_handle(),
            final(self).next_handle() == old(self).next_handle() + 1,
            final(self).jobs() == old(self).jobs().push(
                JobRecord {
                    id: h,
                    priority,
                    kind: JobKind::RunToCompletion,
                    state: JobState::Pending,
                },
            ),
            forall|g: PoolFamily| final(self).workers(g) == old(self).workers(g),
    {
        self.submit_with_kind(priority, JobKind::RunToCompletion)
    }

    /// Enqueues a suspendable unit on the pool family mapped from `priority`
    /// and returns its fresh handle. While suspended it occupies no worker.
    pub fn submit_async(&mut self, priority: Priority) -> (h: u64)
        requires
            old(self).wf(),
            old(self).next_handle() < u64::MAX,
            old(self).jobs().len() < usize::MAX,
        ensures
            final(self).wf(),
            h == old(self).next_handle(),
            final(self).next_handle() == old(self).next_handle() + 1,
            final(self).jobs() == old(self).jobs().push(
                JobRecord { id: h, priority, kind: JobKind::Suspendable, state: JobState::Pending },
            ),
            forall|g: PoolFamily| final(self).workers(g) == old(self).workers(g),
    {
        self.submit_with_kind(priority, JobKind::Suspendable)
    }

    fn submit_with_kind(&mut self, priority: Priority, kind: JobKind) -> (h: u64)
        requires
            old(self).wf(),
            old(self).next_handle() < u64::MAX,
            old(self).jobs().len() < usize::MAX,
        ensures
            final(self).wf(),
            h == old(self).next_handle(),
            final(self).next_handle() == old(self).next_handle() + 1,
            final(self).jobs() == old(self).jobs().push(
                JobRecord { id: h, priority, kind, state: JobState::Pending },
            ),
            forall|g: PoolFamily| final(self).workers(g) == old(self).workers(g),
    {
        let h = self.next_id;
        self.records.push(JobRecord { id: h, priority, kind, state: JobState::Pending });
        self.next_id = self.next_id + 1;
        h
    }

    /// The number of units of family `f` currently occupying a worker.
    pub fn running_count(&self, f: PoolFamily) -> (n: usize)
        ensures
            n == self.running_in(f),
    {
        let ghost p = |r: JobRecord| r.state is Running && family_of(r) == f;
        let mut n: usize = 0;
        let mut idx: usize = 0;
        proof {
            lemma_count_le_len(self.jobs(), p);
        }
        #[verifier::loop_isolation(false)]
        while idx < self.records.len()
            invariant
                idx <= self.records.len(),
                n == count_where(self.jobs().subrange(0, idx as int), p),
                n <= idx,
            decreases self.records.len() - idx,
        {
            proof {
                lemma_count_prefix_extend(self.jobs(), p, idx as int);
            }
            let r = self.records[idx];
            if matches!(r.state, JobState::Running) && crate::priority::pool_of(r.priority) == f {
                n = n + 1;
            }
            idx = idx + 1;
        }
        proof {
            lemma_count_full_prefix(self.jobs(), p);
        }
        n
    }

    /// Hands out the next unit a worker of family `f` should run: the
    /// earliest-submitted pending unit of that family, served strictly FIFO.
    /// Returns `None`, changing nothing, when the family has no worker to
    /// spare or nothing is pending.
    pub fn take_next(&mut self, f: PoolFamily) -> (r: Option<u64>)
        requires
            old(self).wf(),
        ensures
            final(self).wf(),
            final(self).next_handle() == old(self).next_handle(),
            forall|g: PoolFamily| final(self).workers(g) == old(self).workers(g),
            same_shape(old(self).jobs(), final(self).jobs()),
            r is None ==> {
                &&& *final(self) == *old(self)
                &&& (old(self).running_in(f) >= old(self).workers(f) || forall|k: int|
                    0 <= k < old(self).jobs().len() ==> !startable(
                        #[trigger] old(self).jobs()[k],
                        f,
                    ))
            },
            r matches Some(h) ==> starts_unit(*old(self), *final(self), f, h),
    {
        let room = self.running_count(f);
        if room >= self.workers_of(f) {
            return Option::None;
        }
        let ghost pre = self.jobs();
        let mut idx: usize = 0;
        #[verifier::loop_isolation(false)]
        while idx < self.records.len()
            invariant
                idx <= self.records.len(),
                forall|k: int| 0 <= k < idx ==> !startable(#[trigger] self.jobs()[k], f),
                *self == *old(self),
                self.jobs() == pre,
            decreases self.records.len() - idx,
        {
            let rec = self.records[idx];
            if matches!(rec.state, JobState::Pending) && crate::priority::pool_of(rec.priority)
                == f {
                let started = JobRecord { state: JobState::Running, ..rec };
                self.records[idx] = started;
                proof {
                    assert(takes_first(pre, self.jobs(), f, rec.id, idx as int));
                    let p = |r: JobRecord| r.state is Running && family_of(r) == f;
                    lemma_count_update(pre, p, idx as int, started);
                    assert(starts_unit(*old(self), *self, f, rec.id));
                }
                return Option::Some(rec.id);
            }
            idx = idx + 1;
        }
        Option::None
    }

    /// Marks a running unit as done. The embedder calls this after the
    /// unit's side effect has been performed; a unit that is done is never
    /// handed out again.
    pub fn finish(&mut self, h: u64)
        requires
            old(self).wf(),
            exists|i: int|
                0 <= i < old(self).jobs().len() && (#[trigger] old(self).jobs()[i]).id == h && old(
                    self,
                ).jobs()[i].state is Running,
        ensures
            final(self).wf(),
            final(self).next_handle() == old(self).next_handle(),
            forall|g: PoolFamily| final(self).workers(g) == old(self).workers(g),
            exists|i: int|
                {
                    &&& 0 <= i < old(self).jobs().len()
                    &&& (#[trigger] old(self).jobs()[i]).id == h
                    &&& old(self).jobs()[i].state is Running
                    &&& final(self).jobs() == old(self).jobs().update(
                        i,
                        with_state(old(self).jobs()[i], JobState::Done),
                    )
                },
    {
        self.step_state(h, JobState::Running, JobState::Done)
    }

    /// Parks a running suspendable unit at one of its suspension points: it
    /// keeps its place in the pool but occupies no worker until resumed.
    pub fn suspend(&mut self, h: u64)
        requires
            old(self).wf(),
            exists|i: int|
                {
                    &&& 0 <= i < old(self).jobs().len()
                    &&& (#[trigger] old(self).jobs()[i]).id == h
                    &&& old(self).jobs()[i].state is Running
                    &&& old(self).jobs()[i].kind is Suspendable
                },
        ensures
            final(self).wf(),
            final(self).next_handle() == old(self).next_handle(),
            forall|g: PoolFamily| final(self).workers(g) == old(self).workers(g),
            exists|i: int|
                {
                    &&& 0 <= i < old(self).jobs().len()
                    &&& (#[trigger] old(self).jobs()[i]).id == h
                    &&& old(self).jobs()[i].state is Running
                    &&& final(self).jobs() == old(self).jobs().update(
                        i,
                        with_state(old(self).jobs()[i], JobState::Suspended),
                    )
                },
    {
        self.step_state(h, JobState::Running, JobState::Suspended)
    }

    /// Resumes a suspended unit on a worker of its pool family; the family
    /// must have a worker to spare.
    pub fn resume(&mut self, h: u64)
        requires
            old(self).wf(),
            exists|i: int|
                {
                    &&& 0 <= i < old(self).jobs().len()
                    &&& (#[trigger] old(self).jobs()[i]).id == h
                    &&& old(self).jobs()[i].state is Suspended
                    &&& old(self).running_in(family_of(old(self).jobs()[i])) < old(self).workers(
                        family_of(old(self).jobs()[i]),
                    )
                },
        ensures
            final(self).wf(),
            final(self).next_handle() == old(self).next_handle(),
            forall|g: PoolFamily| final(self).workers(g) == old(self).workers(g),
            exists|i: int|
                {
                    &&& 0 <= i < old(self).jobs().len()
                    &&& (#[trigger] old(self).jobs()[i]).id == h
                    &&& old(self).jobs()[i].state is Suspended
                    &&& final(self).jobs() == old(self).jobs().update(
                        i,
                        with_state(old(self).jobs()[i], JobState::Running),
                    )
                },
    {
        self.step_state(h, JobState::Suspended, JobState::Running)
    }

    fn step_state(&mut self, h: u64, from: JobState, to: JobState)
        requires
            old(self).wf(),
            exists|i: int|
                0 <= i < old(self).jobs().len() && (#[trigger] old(self).jobs()[i]).id == h && old(
                    self,
                ).jobs()[i].state == from,
        ensures
            final(self).wf(),
            final(self).next_handle() == old(self).next_handle(),
            forall|g: PoolFamily| final(self).workers(g) == old(self).workers(g),
            exists|i: int|
                {
                    &&& 0 <= i < old(self).jobs().len()
                    &&& (#[trigger] old(self).jobs()[i]).id == h
                    &&& old(self).jobs()[i].state == from
                    &&& final(self).jobs() == old(self).jobs().update(i, with_state(old(self).jobs()[i], to))
                },
    {
        let ghost pre = self.jobs();
        let mut idx: usize = 0;
        #[verifier::loop_isolation(false)]
        while idx < self.records.len()
            invariant
                idx <= self.records.len(),
                *self == *old(self),
                self.jobs() == pre,
                exists|i: int|
                    0 <= i < pre.len() && (#[trigger] pre[i]).id == h && pre[i].state == from,
                forall|k: int| 0 <= k < idx ==> !((#[trigger] pre[k]).id == h && pre[k].state == from),
            decreases self.records.len() - idx,
        {
            let rec = self.records[idx];
            if rec.id == h && rec.state == from {
                self.records[idx] = JobRecord { state: to, ..rec };
                return ;
            }
            idx = idx + 1;
        }
        proof {
            assert(false);
        }
    }


    /// Runs a pool family dry: every unit of family `f` — pending, running
    /// or suspended — is brought to completion, and no other family is
    /// touched. This is the model's collapsed view of waiting for the
    /// family's workers to empty its queue; an embedder's worker loop
    /// reaches the same state through `take_next` and `finish`.
    pub fn drain(&mut self, f: PoolFamily)
        requires
            old(self).wf(),
        ensures
            final(self).wf(),
            final(self).next_handle() == old(self).next_handle(),
            forall|g: PoolFamily| final(self).workers(g) == old(self).workers(g),
            same_shape(old(self).jobs(), final(self).jobs()),
            forall|k: int|
                0 <= k < final(self).jobs().len() && family_of(
                    #[trigger] final(self).jobs()[k],
                ) == f ==> final(self).jobs()[k].state is Done,
            forall|k: int|
                0 <= k < final(self).jobs().len() && family_of(
                    #[trigger] final(self).jobs()[k],
                ) != f ==> final(self).jobs()[k] == old(self).jobs()[k],
            final(self).running_in(f) == 0,
            final(self).live_in(f) == 0,
    {
        let ghost pre = self.jobs();
        let mut idx: usize = 0;
        #[verifier::loop_isolation(false)]
        while idx < self.records.len()
            invariant
                idx <= self.records.len(),
                self.next_handle() == old(self).next_handle(),
                forall|g: PoolFamily| self.workers(g) == old(self).workers(g),
                same_shape(pre, self.jobs()),
                forall|k: int|
                    0 <= k < idx && family_of(#[trigger] self.jobs()[k]) == f
                        ==> self.jobs()[k].state is Done,
                forall|k: int|
                    0 <= k < self.jobs().len() && family_of(#[trigger] self.jobs()[k]) != f
                        ==> self.jobs()[k] == pre[k],
                forall|k: int|
                    idx <= k < self.jobs().len() ==> #[trigger] self.jobs()[k] == pre[k],
            decreases self.records.len() - idx,
        {
            let rec = self.records[idx];
            if crate::priority::pool_of(rec.priority) == f
                && !matches!(rec.state, JobState::Done) {
                self.records[idx] = JobRecord { state: JobState::Done, ..rec };
            }
            idx = idx + 1;
        }
        proof {
            lemma_count_zero(
                self.jobs(),
                |r: JobRecord| r.state is Running && family_of(r) == f,
            );
            lemma_count_zero(
                self.jobs(),
                |r: JobRecord| !(r.state is Done) && family_of(r) == f,
            );
        }
    }

    /// Blocks, in the embedder's real loop, until the default pool holds no
    /// pending or running interactive work; in the model, brings the default
    /// pool to that state. Afterwards no running task is attributable to the
    /// default pool and its three classes have empty queues.
    pub fn join_foreground(&mut self)
        requires
            old(self).wf(),
        ensures
            final(self).wf(),
            final(self).next_handle() == old(self).next_handle(),
            forall|g: PoolFamily| final(self).workers(g) == old(self).workers(g),
            same_shape(old(self).jobs(), final(self).jobs()),
            forall|k: int|
                0 <= k < final(self).jobs().len() && family_of(
                    #[trigger] final(self).jobs()[k],
                ) != PoolFamily::DefaultPool ==> final(self).jobs()[k] == old(self).jobs()[k],
            final(self).running_in(PoolFamily::DefaultPool) == 0,
            final(self).live_in(PoolFamily::DefaultPool) == 0,
            final(self).pending_in_class(Priority::Immediate) == 0,
            final(self).pending_in_class(Priority::Normal) == 0,
            final(self).pending_in_class(Priority::Deferred) == 0,
    {
        self.drain(PoolFamily::DefaultPool);
        proof {
            lemma_count_zero(
                self.jobs(),
                |r: JobRecord| r.state is Pending && r.priority == Priority::Immediate,
            );
            lemma_count_zero(
                self.jobs(),
                |r: JobRecord| r.state is Pending && r.priority == Priority::Normal,
            );
            lemma_count_zero(
                self.jobs(),
                |r: JobRecord| r.state is Pending && r.priority == Priority::Deferred,
            );
        }
    }

    /// The number of units ever submitted: how many records the
    /// orchestrator holds.
    pub fn submitted_count(&self) -> (n: usize)
        ensures
            n == self.jobs().len(),
    {
        self.records.len()
    }

    /// The handle the next submission will receive.
    pub fn upcoming_handle(&self) -> (h: u64)
        ensures
            h == self.next_handle(),
    {
        self.next_id
    }

    /// The worker budget of a pool family.
    pub fn workers_of(&self, f: PoolFamily) -> (n: usize)
        ensures
            n == self.workers(f),
    {
        match f {
            PoolFamily::DefaultPool => self.default_workers,
            PoolFamily::FramePool => self.frame_workers,
            PoolFamily::BackgroundPool => self.background_workers,
        }
    }

    /// How often `h` has been completed: one record with that handle is done.
    /// On a well-formed orchestrator this is never more than one.
    pub fn done_count(&self, h: u64) -> (n: usize)
        ensures
            n == count_where(self.jobs(), |r: JobRecord| r.id == h && r.state is Done),
    {
        let ghost p = |r: JobRecord| r.id == h && r.state is Done;
        let mut n: usize = 0;
        let mut idx: usize = 0;
        proof {
            lemma_count_le_len(self.jobs(), p);
        }
        #[verifier::loop_isolation(false)]
        while idx < self.records.len()
            invariant
                idx <= self.records.len(),
                n == count_where(self.jobs().subrange(0, idx as int), p),
                n <= idx,
            decreases self.records.len() - idx,
        {
            proof {
                lemma_count_prefix_extend(self.jobs(), p, idx as int);
            }
            let r = self.records[idx];
            if r.id == h && matches!(r.state, JobState::Done) {
                n = n + 1;
            }
            idx = idx + 1;
        }
        proof {
            lemma_count_full_prefix(self.jobs(), p);
        }
        n
    }

    /// A best-effort snapshot of the queue depths of the default and frame
    /// classes and of the total count of running units.
    pub fn profile(&self) -> (p: OrchestratorProfile)
        ensures
            p.immediate == self.pending_in_class(Priority::Immediate),
            p.normal == self.pending_in_class(Priority::Normal),
            p.deferred == self.pending_in_class(Priority::Deferred),
            p.frame == self.pending_in_class(Priority::Frame),
            p.running_tasks == self.running_total(),
    {
        let ghost pi = |r: JobRecord| r.state is Pending && r.priority == Priority::Immediate;
        let ghost pn = |r: JobRecord| r.state is Pending && r.priority == Priority::Normal;
        let ghost pd = |r: JobRecord| r.state is Pending && r.priority == Priority::Deferred;
        let ghost pf = |r: JobRecord| r.state is Pending && r.priority == Priority::Frame;
        let ghost pr = |r: JobRecord| r.state is Running;
        let mut immediate: usize = 0;
        let mut normal: usize = 0;
        let mut deferred: usize = 0;
        let mut frame: usize = 0;
        let mut running_tasks: usize = 0;
        let mut idx: usize = 0;
        proof {
            lemma_count_le_len(self.jobs(), pi);
            lemma_count_le_len(self.jobs(), pn);
            lemma_count_le_len(self.jobs(), pd);
            lemma_count_le_len(self.jobs(), pf);
            lemma_count_le_len(self.jobs(), pr);
        }
        #[verifier::loop_isolation(false)]
        while idx < self.records.len()
            invariant
                idx <= self.records.len(),
                immediate == count_where(self.jobs().subrange(0, idx as int), pi),
                normal == count_where(self.jobs().subrange(0, idx as int), pn),
                deferred == count_where(self.jobs().subrange(0, idx as int), pd),
                frame == count_where(self.jobs().subrange(0, idx as int), pf),
                running_tasks == count_where(self.jobs().subrange(0, idx as int), pr),
                immediate <= idx,
                normal <= idx,
                deferred <= idx,
                frame <= idx,
                running_tasks <= idx,
            decreases self.records.len() - idx,
        {
            proof {
                lemma_count_prefix_extend(self.jobs(), pi, idx as int);
                lemma_count_prefix_extend(self.jobs(), pn, idx as int);
                lemma_count_prefix_extend(self.jobs(), pd, idx as int);
                lemma_count_prefix_extend(self.jobs(), pf, idx as int);
                lemma_count_prefix_extend(self.jobs(), pr, idx as int);
            }
            let r = self.records[idx];
            if matches!(r.state, JobState::Pending) {
                match r.priority {
                    Priority::Immediate => {
                        immediate = immediate + 1;
                    },
                    Priority::Normal => {
                        normal = normal + 1;
                    },
                    Priority::Deferred => {
                        deferred = deferred + 1;
                    },
                    Priority::Frame => {
                        frame = frame + 1;
                    },
                    _ => {},
                }
            }
            if matches!(r.state, JobState::Running) {
                running_tasks = running_tasks + 1;
            }
            idx = idx + 1;
        }
        proof {
            lemma_count_full_prefix(self.jobs(), pi);
            lemma_count_full_prefix(self.jobs(), pn);
            lemma_count_full_prefix(self.jobs(), pd);
            lemma_count_full_prefix(self.jobs(), pf);
            lemma_count_full_prefix(self.jobs(), pr);
        }
        OrchestratorProfile { immediate, normal, deferred, frame, running_tasks }
    }
}

/// Never twice: a well-formed orchestrator holds exactly one record for each
/// handle it has issued, so one handle can never stand for two executions.
pub proof fn lemma_handle_unique(o: Orchestrator, h: u64)
    requires
        o.wf(),
        o.has_job(h),
    ensures
        count_where(o.jobs(), |r: JobRecord| r.id == h) == 1,
{
    let p = |r: JobRecord| r.id == h;
    let i = choose|i: int| 0 <= i < o.jobs().len() && (#[trigger] o.jobs()[i]).id == h;
    assert forall|k: int| 0 <= k < o.jobs().len() && k != i implies !p(#[trigger] o.jobs()[k]) by {
        if k < i {
            assert(o.jobs()[k].id < o.jobs()[i].id);
        } else {
            assert(o.jobs()[i].id < o.jobs()[k].id);
        }
    }
    lemma_count_single(o.jobs(), p, i);
}

/// Exactly once: after a family has been drained, each unit ever submitted
/// to it is recorded as done by exactly one record — never zero, never two.
pub proof fn lemma_drained_exactly_once(o: Orchestrator, f: PoolFamily, h: u64, i: int)
    requires
        o.wf(),
        0 <= i < o.jobs().len(),
        o.jobs()[i].id == h,
        family_of(o.jobs()[i]) == f,
        forall|k: int|
            0 <= k < o.jobs().len() && family_of(#[trigger] o.jobs()[k]) == f
                ==> o.jobs()[k].state is Done,
    ensures
        count_where(o.jobs(), |r: JobRecord| r.id == h && r.state is Done) == 1,
{
    let p = |r: JobRecord| r.id == h && r.state is Done;
    assert(p(o.jobs()[i]));
    assert forall|k: int| 0 <= k < o.jobs().len() && k != i implies !p(#[trigger] o.jobs()[k]) by {
        if k < i {
            assert(o.jobs()[k].id < o.jobs()[i].id);
        } else {
            assert(o.jobs()[i].id < o.jobs()[k].id);
        }
    }
    lemma_count_single(o.jobs(), p, i);
}

/// Pools are independent: starting a unit in one family leaves every other
/// family's running count, live count and queue depths untouched, so a
/// fast unit in one pool never waits behind a slow unit in another.
pub proof fn lemma_pools_independent(
    pre: Orchestrator,
    post: Orchestrator,
    f: PoolFamily,
    h: u64,
    g: PoolFamily,
)
    requires
        starts_unit(pre, post, f, h),
        g != f,
    ensures
        post.running_in(g) == pre.running_in(g),
        post.live_in(g) == pre.live_in(g),
        forall|p: Priority|
            spec_pool_of(p) == g ==> post.pending_in_class(p) == pre.pending_in_class(p),
{
    let i = choose|i: int| takes_first(pre.jobs(), post.jobs(), f, h, i);
    let v = with_state(pre.jobs()[i], JobState::Running);
    lemma_count_update(
        pre.jobs(),
        |r: JobRecord| r.state is Running && family_of(r) == g,
        i,
        v,
    );
    lemma_count_update(
        pre.jobs(),
        |r: JobRecord| !(r.state is Done) && family_of(r) == g,
        i,
        v,
    );
    assert forall|p: Priority| spec_pool_of(p) == g implies post.pending_in_class(p)
        == pre.pending_in_class(p) by {
        lemma_count_update(
            pre.jobs(),
            |r: JobRecord| r.state is Pending && r.priority == p,
            i,
            v,
        );
    }
}


/// Every running task is attributable to exactly one pool family: the
/// profile's running count is the sum of the three pools' running counts.
pub proof fn lemma_running_tasks_split(o: Orchestrator)
    ensures
        o.running_total() == o.running_in(PoolFamily::DefaultPool) + o.running_in(
            PoolFamily::FramePool,
        ) + o.running_in(PoolFamily::BackgroundPool),
{
    lemma_running_split_seq(o.jobs());
}

proof fn lemma_running_split_seq(s: Seq<JobRecord>)
    ensures
        count_where(s, |r: JobRecord| r.state is Running) == count_where(
            s,
            |r: JobRecord| r.state is Running && family_of(r) == PoolFamily::DefaultPool,
        ) + count_where(
            s,
            |r: JobRecord| r.state is Running && family_of(r) == PoolFamily::FramePool,
        ) + count_where(
            s,
            |r: JobRecord| r.state is Running && family_of(r) == PoolFamily::BackgroundPool,
        ),
    decreases s.len(),
{
    if s.len() > 0 {
        lemma_running_split_seq(s.drop_last());
    }
}

} // verus!
