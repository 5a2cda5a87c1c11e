use vstd::prelude::*;

use crate::requests::{Request, RequestView};

verus! {

/// One unit of work for the proof pipeline: the ordered batch of accepted
/// requests to prove, under the identifier the queue assigned at submission.
/// Identifiers are assigned in submission order, starting at zero.
#[derive(Debug)]
pub struct ProofJob {
    pub id: u64,
    pub batch: Vec<Request>,
}

/// The mathematical value of a [`ProofJob`].
pub ghost struct JobView {
    pub id: u64,
    pub batch: Seq<RequestView>,
}

impl View for ProofJob {
    type V = JobView;

    open spec fn view(&self) -> JobView {
        JobView { id: self.id, batch: self.batch.deep_view() }
    }
}

impl DeepView for ProofJob {
    type V = JobView;

    open spec fn deep_view(&self) -> JobView {
        self.view()
    }
}

/// The single, process-wide, rate-limited pipeline that turns accepted
/// batches into proof work.
///
/// Sessions submit batches; one worker polls. A job may start only when the
/// cooldown since the previous start has elapsed, so the queue caps the whole
/// process at one proof per cooldown — the deliberate global bottleneck that
/// protects the proving backend. The backlog is unbounded and jobs start
/// strictly in submission order.
pub struct ProofGenerationQueue {
    cooldown: u64,
    next_id: u64,
    pending: Vec<ProofJob>,
    next_start_allowed: u64,
    started: Vec<(u64, u64)>,
}

/// The mathematical value of a [`ProofGenerationQueue`]: the fixed cooldown,
/// the identifier the next submission will get, the backlog in submission
/// order, the earliest tick at which the next job may start, and the
/// append-only history of `(job identifier, start tick)` pairs.
pub ghost struct QueueView {
    pub cooldown: u64,
    pub next_id: u64,
    pub pending: Seq<JobView>,
    pub next_start_allowed: u64,
    pub started: Seq<(u64, u64)>,
}

impl View for ProofGenerationQueue {
    type V = QueueView;

    closed spec fn view(&self) -> QueueView {
        QueueView {
            cooldown: self.cooldown,
            next_id: self.next_id,
            pending: self.pending.deep_view(),
            next_start_allowed: self.next_start_allowed,
            started: self.started.deep_view(),
        }
    }
}

impl QueueView {
    /// What always holds of the queue: every job ever started carries the
    /// identifier equal to its position in the start history, the backlog
    /// continues that numbering in order, the next identifier follows the
    /// backlog, consecutive starts are at least a cooldown apart, and the
    /// next start waits out the cooldown since the last one.
    pub open spec fn wf(self) -> bool {
        &&& forall|i: int| 0 <= i < self.started.len() ==> #[trigger] self.started[i].0 == i
        &&& forall|j: int|
            0 <= j < self.pending.len() ==> #[trigger] self.pending[j].id == self.started.len() + j
        &&& self.next_id == self.started.len() + self.pending.len()
        &&& forall|i: int|
            0 <= i < self.started.len() - 1 ==> #[trigger] self.started[i].1 + self.cooldown
                <= self.started[i + 1].1
        &&& self.started.len() > 0 ==> self.started.last().1 + self.cooldown
            <= self.next_start_allowed
    }
}

impl ProofGenerationQueue {
    /// Opens an empty queue with the given cooldown between job starts.
    pub fn new(cooldown: u64) -> (r: ProofGenerationQueue)
        ensures
            r@.wf(),
            r@.cooldown == cooldown,
            r@.pending == Seq::<JobView>::empty(),
            r@.started == Seq::<(u64, u64)>::empty(),
            r@.next_start_allowed == 0,
    {
        let r = ProofGenerationQueue {
            cooldown,
            next_id: 0,
            pending: Vec::new(),
            next_start_allowed: 0,
            started: Vec::new(),
        };
        proof {
            assert(r@.pending =~= Seq::<JobView>::empty());
            assert(r@.started =~= Seq::<(u64, u64)>::empty());
        }
        r
    }

    /// Appends a batch to the backlog and hands back the identifier the job
    /// was filed under. Submission never blocks and never starts work.
    pub fn submit(&mut self, batch: Vec<Request>) -> (id: u64)
        requires
            old(self)@.wf(),
            old(self)@.next_id < u64::MAX,
        ensures
            final(self)@.wf(),
            id == old(self)@.next_id,
            final(self)@.pending == old(self)@.pending.push(
                JobView { id, batch: batch.deep_view() },
            ),
            final(self)@.started == old(self)@.started,
            final(self)@.cooldown == old(self)@.cooldown,
            final(self)@.next_start_allowed == old(self)@.next_start_allowed,
            final(self)@.next_id == old(self)@.next_id + 1,
    {
        let id = self.next_id;
        let job = ProofJob { id, batch };
        self.pending.push(job);
        self.next_id = self.next_id + 1;
        proof {
            assert(self@.pending =~= old(self)@.pending.push(
                JobView { id, batch: self@.pending.last().batch },
            ));
        }
        id
    }

    /// Hands the worker its next job, if one is due.
    ///
    /// The oldest backlogged job is started exactly when there is one and the
    /// cooldown since the previous start has elapsed at tick `now`; its start
    /// is recorded and the next start is pushed a cooldown into the future.
    /// Otherwise nothing changes.
    pub fn poll(&mut self, now: u64) -> (r: Option<ProofJob>)
        requires
            old(self)@.wf(),
            now <= u64::MAX - old(self)@.cooldown,
        ensures
            final(self)@.wf(),
            old(self)@.pending.len() > 0 && now >= old(self)@.next_start_allowed ==> {
                &&& r matches Some(job)
                &&& job@ == old(self)@.pending[0]
                &&& final(self)@.pending == old(self)@.pending.drop_first()
                &&& final(self)@.started == old(self)@.started.push((job@.id, now))
                &&& final(self)@.next_start_allowed == now + old(self)@.cooldown
                &&& final(self)@.cooldown == old(self)@.cooldown
                &&& final(self)@.next_id == old(self)@.next_id
            },
            !(old(self)@.pending.len() > 0 && now >= old(self)@.next_start_allowed) ==> {
                &&& r is None
                &&& final(self)@ == old(self)@
            },
    {
        if self.pending.len() > 0 && now >= self.next_start_allowed {
            let job = self.pending.remove(0);
            self.started.push((job.id, now));
            self.next_start_allowed = now + self.cooldown;
            proof {
                assert(self@.pending =~= old(self)@.pending.drop_first());
                assert(self@.started =~= old(self)@.started.push((job@.id, now)));
                assert(job@ == old(self)@.pending[0]);
                assert(old(self)@.pending[0].id == old(self)@.started.len() + 0);
                assert forall|i: int| 0 <= i < self@.started.len() implies #[trigger] self@
                    .started[i].0 == i by {
                    if i < old(self)@.started.len() {
                        assert(old(self)@.started[i].0 == i);
                    }
                }
                assert forall|j: int| 0 <= j < self@.pending.len() implies #[trigger] self@
                    .pending[j].id == self@.started.len() + j by {
                    assert(old(self)@.pending[j + 1].id == old(self)@.started.len() + j + 1);
                }
                assert forall|i: int| 0 <= i < self@.started.len() - 1 implies #[trigger] self@
                    .started[i].1 + self@.cooldown <= self@.started[i + 1].1 by {
                    if i < old(self)@.started.len() - 1 {
                        assert(old(self)@.started[i].1 + old(self)@.cooldown <= old(
                            self,
                        )@.started[i + 1].1);
                    }
                }
            }
            Some(job)
        } else {
            None
        }
    }

    /// Whether another batch can still be filed: identifiers must not run
    /// out.
    pub fn can_submit(&self) -> (r: bool)
        ensures
            r == (self@.next_id < u64::MAX),
    {
        self.next_id < u64::MAX
    }

    /// The configured cooldown between job starts.
    pub fn cooldown(&self) -> (r: u64)
        ensures
            r == self@.cooldown,
    {
        self.cooldown
    }

    /// How many jobs are waiting in the backlog.
    pub fn pending_len(&self) -> (r: usize)
        ensures
            r == self@.pending.len(),
    {
        self.pending.len()
    }

    /// How many jobs have been started so far.
    pub fn started_len(&self) -> (r: usize)
        ensures
            r == self@.started.len(),
    {
        self.started.len()
    }

    /// The start history entry at the given position: the job identifier and
    /// the tick at which it started.
    pub fn started_at(&self, i: usize) -> (r: (u64, u64))
        requires
            i < self@.started.len(),
        ensures
            r == self@.started[i as int],
    {
        self.started[i]
    }
}

/// Jobs run strictly in submission order with the configured spacing:
/// in any well-formed queue history, an earlier start belongs to an earlier
/// submission, and any two starts are at least a cooldown apart.
pub proof fn lemma_queue_order_and_spacing(q: QueueView)
    requires
        q.wf(),
    ensures
        forall|i: int, j: int|
            0 <= i < j < q.started.len() ==> #[trigger] q.started[i].0 < #[trigger] q.started[j].0,
        forall|i: int, j: int|
            0 <= i < j < q.started.len() ==> #[trigger] q.started[i].1 + q.cooldown
                <= #[trigger] q.started[j].1,
{
    assert forall|i: int, j: int| 0 <= i < j < q.started.len() implies #[trigger] q.started[i].1
        + q.cooldown <= #[trigger] q.started[j].1 by {
        lemma_spacing_transitive(q, i, j);
    }
}

proof fn lemma_spacing_transitive(q: QueueView, i: int, j: int)
    requires
        q.wf(),
        0 <= i < j < q.started.len(),
    ensures
        q.started[i].1 + q.cooldown <= q.started[j].1,
    decreases j - i,
{
    if j == i + 1 {
        assert(q.started[i].1 + q.cooldown <= q.started[i + 1].1);
    } else {
        lemma_spacing_transitive(q, i, j - 1);
        assert(q.started[j - 1].1 + q.cooldown <= q.started[j].1);
    }
}

} // verus!
