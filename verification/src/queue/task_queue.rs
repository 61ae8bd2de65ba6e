//! A message queue of crawl tasks. Pending tasks come out by priority, the
//! oldest first among equals; failed tasks wait in a retry queue with an
//! exponential backoff until their attempts run out.
use vstd::prelude::*;
use crate::assoc::{assoc_insert, assoc_take, assoc_view, has_key, keys_unique};
use crate::common::now_millis;
use crate::crawl_core::types::{
    failed_task, same_task, spec_can_retry, spec_ready_for_retry, started_task, CrawlTask,
    QueueStats, TaskPriority, TaskResult, TaskStatus,
};

verus! {

/// Rank of a priority, lowest first.
pub open spec fn rank(p: TaskPriority) -> nat {
    match p {
        TaskPriority::Low => 0,
        TaskPriority::Normal => 1,
        TaskPriority::High => 2,
        TaskPriority::Critical => 3,
    }
}

pub(crate) fn rank_of(p: TaskPriority) -> (r: u8)
    ensures
        r == rank(p),
{
    match p {
        TaskPriority::Low => 0,
        TaskPriority::Normal => 1,
        TaskPriority::High => 2,
        TaskPriority::Critical => 3,
    }
}

/// `a` is served no later than `b`: a higher priority, or the same
/// priority and created no later.
pub open spec fn comes_before(a: CrawlTask, b: CrawlTask) -> bool {
    rank(a.priority) > rank(b.priority) || (rank(a.priority) == rank(b.priority) && a.created_at
        <= b.created_at)
}

/// Position `i` holds a task that is served before every other one.
pub open spec fn is_next(s: Seq<CrawlTask>, i: int) -> bool {
    &&& 0 <= i < s.len()
    &&& forall|j: int| 0 <= j < s.len() ==> comes_before(s[i], #[trigger] s[j])
}

/// The position of a task to serve next.
fn next_index(v: &Vec<CrawlTask>) -> (r: usize)
    requires
        v@.len() > 0,
    ensures
        is_next(v@, r as int),
{
    let mut best: usize = 0;
    let mut i: usize = 1;
    while i < v.len()
        invariant
            0 < v@.len(),
            best < i <= v@.len(),
            forall|j: int| 0 <= j < i ==> comes_before(v@[best as int], #[trigger] v@[j]),
        decreases v@.len() - i,
    {
        let rb = rank_of(v[best].priority);
        let ri = rank_of(v[i].priority);
        if ri > rb || (ri == rb && v[i].created_at < v[best].created_at) {
            best = i;
        }
        i = i + 1;
    }
    best
}

/// The delay before retry attempt `attempts + 1`, in milliseconds: one
/// second, doubled for each earlier attempt, at most thirty seconds.
pub open spec fn retry_delay_for(attempts: nat) -> u64 {
    if attempts == 0 {
        1000
    } else if attempts == 1 {
        2000
    } else if attempts == 2 {
        4000
    } else if attempts == 3 {
        8000
    } else if attempts == 4 {
        16000
    } else {
        30000
    }
}

fn retry_delay_ms(attempts: u32) -> (r: u64)
    ensures
        r == retry_delay_for(attempts as nat),
{
    let mut d: u64 = 1000;
    let mut k: u32 = 0;
    while k < attempts && d < 30000
        invariant
            k <= attempts,
            k <= 5,
            d == (if k == 0 { 1000u64 } else if k == 1 { 2000u64 } else if k == 2 { 4000u64 }
                else if k == 3 { 8000u64 } else if k == 4 { 16000u64 } else { 32000u64 }),
        decreases attempts - k,
    {
        d = d * 2;
        k = k + 1;
    }
    if d > 30000 { 30000 } else { d }
}

/// Abstract content of a queue.
pub struct TaskQueueView {
    pub pending: Seq<CrawlTask>,
    pub in_progress: Map<Seq<char>, CrawlTask>,
    /// Number of in-progress entries.
    pub in_progress_len: nat,
    pub completed: Seq<CrawlTask>,
    pub failed: Seq<CrawlTask>,
    pub retry_queue: Seq<CrawlTask>,
    pub stats: QueueStats,
    pub max_concurrent_tasks: usize,
    pub max_retries: u32,
}

/// The counters agree with the queue: pending, in-progress and retrying
/// counts are the sizes of those collections, and the total is the sum of
/// pending, in progress, retrying, completed and dead.
pub open spec fn counts_consistent(v: TaskQueueView) -> bool {
    &&& v.stats.pending_tasks == v.pending.len()
    &&& v.stats.in_progress_tasks == v.in_progress_len
    &&& v.stats.retrying_tasks == v.retry_queue.len()
    &&& v.stats.total_tasks == v.stats.pending_tasks + v.stats.in_progress_tasks
        + v.stats.retrying_tasks + v.stats.completed_tasks + v.stats.dead_tasks
}

/// Every counter can grow by `k` without overflowing.
pub open spec fn stats_room(s: QueueStats, k: nat) -> bool {
    &&& s.total_tasks + k <= u64::MAX
    &&& s.pending_tasks + k <= u64::MAX
    &&& s.in_progress_tasks + k <= u64::MAX
    &&& s.completed_tasks + k <= u64::MAX
    &&& s.retrying_tasks + k <= u64::MAX
    &&& s.dead_tasks + k <= u64::MAX
}

pub open spec fn sat_dec(x: u64) -> u64 {
    if x == 0 { 0 } else { (x - 1) as u64 }
}

/// The retry queue after its front task was looked at and found not ready:
/// that task moves to the back.
pub open spec fn rotated(rq: Seq<CrawlTask>, now: u64) -> Seq<CrawlTask> {
    if rq.len() > 0 && !spec_ready_for_retry(rq[0], now) {
        rq.drop_first().push(rq[0])
    } else {
        rq
    }
}

/// The front of the retry queue is due at `now`.
pub open spec fn retry_front_ready(rq: Seq<CrawlTask>, now: u64) -> bool {
    rq.len() > 0 && spec_ready_for_retry(rq[0], now)
}

/// `t`, started at `now`, moved into the in-progress map.
pub open spec fn moved_in(before: TaskQueueView, after: TaskQueueView, s: CrawlTask) -> bool {
    &&& after.in_progress == before.in_progress.insert(s.id@, s)
    &&& after.in_progress_len == before.in_progress_len + if before.in_progress.contains_key(s.id@) {
        0int
    } else {
        1int
    }
    &&& after.completed == before.completed
    &&& after.failed == before.failed
    &&& after.max_concurrent_tasks == before.max_concurrent_tasks
    &&& after.max_retries == before.max_retries
}

/// What `dequeue_task_at(now)` does: the front of the retry queue when it is
/// due; otherwise (the front, if not due, moving to the back) the pending
/// task to serve next; otherwise nothing. The task handed out is started
/// at `now` and recorded as in progress.
pub open spec fn dequeue_outcome(before: TaskQueueView, after: TaskQueueView, r: Option<CrawlTask>, now: u64) -> bool {
    if retry_front_ready(before.retry_queue, now) {
        let s = started_task(before.retry_queue[0], now);
        &&& r matches Some(t) && same_task(t, s)
        &&& after.retry_queue == before.retry_queue.drop_first()
        &&& after.pending == before.pending
        &&& moved_in(before, after, s)
        &&& after.stats == QueueStats {
            retrying_tasks: sat_dec(before.stats.retrying_tasks),
            in_progress_tasks: (before.stats.in_progress_tasks + 1) as u64,
            ..before.stats
        }
    } else if before.pending.len() > 0 {
        exists|i: int| {
            let s = started_task(before.pending[i], now);
            &&& #[trigger] is_next(before.pending, i)
            &&& r matches Some(t) && same_task(t, s)
            &&& after.pending == before.pending.remove(i)
            &&& after.retry_queue == rotated(before.retry_queue, now)
            &&& moved_in(before, after, s)
            &&& after.stats == QueueStats {
                pending_tasks: sat_dec(before.stats.pending_tasks),
                in_progress_tasks: (before.stats.in_progress_tasks + 1) as u64,
                ..before.stats
            }
        }
    } else {
        &&& r is None
        &&& after == TaskQueueView { retry_queue: rotated(before.retry_queue, now), ..before }
    }
}

/// A queue of crawl tasks.
#[derive(Debug)]
pub struct TaskQueue {
    pending: Vec<CrawlTask>,
    in_progress: Vec<(String, CrawlTask)>,
    completed: Vec<CrawlTask>,
    failed: Vec<CrawlTask>,
    retry_queue: Vec<CrawlTask>,
    stats: QueueStats,
    max_concurrent_tasks: usize,
    max_retries: u32,
}

impl View for TaskQueue {
    type V = TaskQueueView;

    closed spec fn view(&self) -> TaskQueueView {
        TaskQueueView {
            pending: self.pending@,
            in_progress: assoc_view(self.in_progress@),
            in_progress_len: self.in_progress@.len(),
            completed: self.completed@,
            failed: self.failed@,
            retry_queue: self.retry_queue@,
            stats: self.stats,
            max_concurrent_tasks: self.max_concurrent_tasks,
            max_retries: self.max_retries,
        }
    }
}

/// A task still in play has attempts left to count.
pub open spec fn countable(t: CrawlTask) -> bool {
    t.attempt_count < u32::MAX
}

/// Every task waiting, running or retrying has attempts left to count.
pub open spec fn all_countable(v: TaskQueueView) -> bool {
    &&& forall|i: int| 0 <= i < v.pending.len() ==> countable(#[trigger] v.pending[i])
    &&& forall|i: int| 0 <= i < v.retry_queue.len() ==> countable(#[trigger] v.retry_queue[i])
    &&& forall|k: Seq<char>| #[trigger] v.in_progress.contains_key(k) ==> countable(v.in_progress[k])
    &&& forall|k: Seq<char>| #[trigger] v.in_progress.contains_key(k) ==> v.in_progress[k].id@ == k
}

impl TaskQueue {
    /// Well-formedness: one in-progress entry per task id, and every task
    /// in play has attempts left to count.
    pub closed spec fn wf(&self) -> bool {
        keys_unique(self.in_progress@) && all_countable(self@)
    }

    /// An empty queue.
    pub fn new(max_concurrent_tasks: usize, max_retries: u32) -> (r: Self)
        ensures
            r.wf(),
            r@.pending.len() == 0,
            r@.in_progress == Map::<Seq<char>, CrawlTask>::empty(),
            r@.in_progress_len == 0,
            r@.completed.len() == 0,
            r@.failed.len() == 0,
            r@.retry_queue.len() == 0,
            r@.stats == (QueueStats {
                total_tasks: 0,
                pending_tasks: 0,
                in_progress_tasks: 0,
                completed_tasks: 0,
                failed_tasks: 0,
                retrying_tasks: 0,
                dead_tasks: 0,
            }),
            r@.max_concurrent_tasks == max_concurrent_tasks,
            r@.max_retries == max_retries,
            counts_consistent(r@),
    {
        let r = TaskQueue {
            pending: Vec::new(),
            in_progress: Vec::new(),
            completed: Vec::new(),
            failed: Vec::new(),
            retry_queue: Vec::new(),
            stats: QueueStats {
                total_tasks: 0,
                pending_tasks: 0,
                in_progress_tasks: 0,
                completed_tasks: 0,
                failed_tasks: 0,
                retrying_tasks: 0,
                dead_tasks: 0,
            },
            max_concurrent_tasks,
            max_retries,
        };
        proof {
            assert(assoc_view(r.in_progress@) =~= Map::<Seq<char>, CrawlTask>::empty());
        }
        r
    }

    /// Whether every counter can grow by `k`.
    pub fn has_room_for(&self, k: u64) -> (r: bool)
        ensures
            r == stats_room(self@.stats, k as nat),
    {
        let s = &self.stats;
        s.total_tasks <= u64::MAX - k && s.pending_tasks <= u64::MAX - k
            && s.in_progress_tasks <= u64::MAX - k && s.completed_tasks <= u64::MAX - k
            && s.retrying_tasks <= u64::MAX - k && s.dead_tasks <= u64::MAX - k
    }

    /// Adds a pending task for `url` and returns its id.
    pub fn enqueue_task(&mut self, url: String, priority: TaskPriority) -> (r: String)
        requires
            old(self).wf(),
            stats_room(old(self)@.stats, 1),
        ensures
            final(self).wf(),
            final(self)@.pending.len() == old(self)@.pending.len() + 1,
            final(self)@.pending.take(old(self)@.pending.len() as int) == old(self)@.pending,
            ({
                let t = final(self)@.pending.last();
                &&& t.url@ == url@
                &&& t.priority == priority
                &&& t.status == TaskStatus::Pending
                &&& t.attempt_count == 0
                &&& t.max_retries == old(self)@.max_retries
                &&& t.id@ == r@
            }),
            final(self)@ == (TaskQueueView {
                pending: final(self)@.pending,
                stats: QueueStats {
                    total_tasks: (old(self)@.stats.total_tasks + 1) as u64,
                    pending_tasks: (old(self)@.stats.pending_tasks + 1) as u64,
                    ..old(self)@.stats
                },
                ..old(self)@
            }),
            counts_consistent(old(self)@) ==> counts_consistent(final(self)@),
    {
        let task = CrawlTask::new(url, priority, self.max_retries);
        let id = task.id.clone();
        self.pending.push(task);
        self.stats.total_tasks = self.stats.total_tasks + 1;
        self.stats.pending_tasks = self.stats.pending_tasks + 1;
        proof {
            assert(self.pending@.take(old(self)@.pending.len() as int) =~= old(self)@.pending);
            assert forall|i: int| 0 <= i < self@.pending.len() implies countable(#[trigger] self@.pending[i]) by {
                if i < old(self)@.pending.len() {
                    assert(self@.pending[i] == old(self)@.pending[i]);
                }
            }
        }
        id
    }

    /// Hands out the next task at time `now` (see `dequeue_outcome`).
    pub fn dequeue_task_at(&mut self, now: u64) -> (r: Option<CrawlTask>)
        requires
            old(self).wf(),
            stats_room(old(self)@.stats, 1),
        ensures
            final(self).wf(),
            dequeue_outcome(old(self)@, final(self)@, r, now),
            counts_consistent(old(self)@) && (r matches Some(t) && !old(self)@.in_progress.contains_key(t.id@))
                ==> counts_consistent(final(self)@),
            r is None ==> counts_consistent(old(self)@) ==> counts_consistent(final(self)@),
    {
        let ghost before = self@;
        if self.retry_queue.len() > 0 {
            let mut t = self.retry_queue.remove(0);
            if t.is_ready_for_retry_at(now) {
                t.mark_in_progress_at(now);
                let out = t.duplicate();
                let key = t.id.clone();
                let ghost s = t;
                assoc_insert(&mut self.in_progress, key, t);
                self.stats.retrying_tasks = if self.stats.retrying_tasks == 0 { 0 } else { self.stats.retrying_tasks - 1 };
                self.stats.in_progress_tasks = self.stats.in_progress_tasks + 1;
                proof {
                    assert(self.retry_queue@ =~= before.retry_queue.drop_first());
                    assert(has_key(old(self).in_progress@, s.id@) == before.in_progress.contains_key(s.id@));
                    self.lemma_countable_after_insert(before, s);
                }
                return Some(out);
            } else {
                self.retry_queue.push(t);
                proof {
                    assert(self.retry_queue@ =~= rotated(before.retry_queue, now));
                    assert forall|i: int| 0 <= i < self@.retry_queue.len() implies countable(#[trigger] self@.retry_queue[i]) by {
                        if i < self@.retry_queue.len() - 1 {
                            assert(self@.retry_queue[i] == before.retry_queue[i + 1]);
                        } else {
                            assert(self@.retry_queue[i] == before.retry_queue[0]);
                        }
                    }
                }
            }
        }
        let ghost mid = self@;
        assert(mid.retry_queue == rotated(before.retry_queue, now));
        if self.pending.len() > 0 {
            let i = next_index(&self.pending);
            let mut t = self.pending.remove(i);
            t.mark_in_progress_at(now);
            let out = t.duplicate();
            let key = t.id.clone();
            let ghost s = t;
            assoc_insert(&mut self.in_progress, key, t);
            self.stats.pending_tasks = if self.stats.pending_tasks == 0 { 0 } else { self.stats.pending_tasks - 1 };
            self.stats.in_progress_tasks = self.stats.in_progress_tasks + 1;
            proof {
                assert(is_next(before.pending, i as int));
                assert(has_key(old(self).in_progress@, s.id@) == before.in_progress.contains_key(s.id@));
                assert forall|j: int| 0 <= j < self@.pending.len() implies countable(#[trigger] self@.pending[j]) by {
                    if j < i {
                        assert(self@.pending[j] == before.pending[j]);
                    } else {
                        assert(self@.pending[j] == before.pending[j + 1]);
                    }
                }
                self.lemma_countable_after_insert(mid, s);
            }
            return Some(out);
        }
        proof {
            assert(self@ == (TaskQueueView { retry_queue: rotated(before.retry_queue, now), ..before }));
        }
        None
    }

    proof fn lemma_countable_after_insert(&self, before: TaskQueueView, s: CrawlTask)
        requires
            countable(s),
            all_countable(before),
            self@.in_progress == before.in_progress.insert(s.id@, s),
            forall|i: int| 0 <= i < self@.pending.len() ==> countable(#[trigger] self@.pending[i]),
            forall|i: int| 0 <= i < self@.retry_queue.len() ==> countable(#[trigger] self@.retry_queue[i]),
        ensures
            all_countable(self@),
    {
        assert forall|k: Seq<char>| #[trigger] self@.in_progress.contains_key(k) implies countable(self@.in_progress[k])
            && self@.in_progress[k].id@ == k by {
            if k != s.id@ {
                assert(before.in_progress.contains_key(k));
            }
        }
    }
}

/// The task as `complete_task` records it.
pub open spec fn completed_task(t: CrawlTask) -> CrawlTask {
    CrawlTask { status: TaskStatus::Completed, ..t }
}

/// What `complete_task(id, content, ms)` does: the in-progress task with
/// that id is marked completed and kept in the history, and a successful
/// result for it is returned; an unknown id changes nothing.
pub open spec fn complete_outcome(
    before: TaskQueueView,
    after: TaskQueueView,
    id: Seq<char>,
    content: Option<Seq<char>>,
    ms: u64,
    r: Option<TaskResult>,
) -> bool {
    if before.in_progress.contains_key(id) {
        let t = before.in_progress[id];
        &&& r matches Some(res) && res.task_id@ == id && res.url@ == t.url@ && res.success
            && crate::web_url::opt_text(res.content) == content && res.error is None
            && res.processing_time_ms == ms
        &&& after == TaskQueueView {
            in_progress: before.in_progress.remove(id),
            in_progress_len: (before.in_progress_len - 1) as nat,
            completed: before.completed.push(completed_task(t)),
            stats: QueueStats {
                in_progress_tasks: sat_dec(before.stats.in_progress_tasks),
                completed_tasks: (before.stats.completed_tasks + 1) as u64,
                ..before.stats
            },
            ..before
        }
    } else {
        r is None && after == before
    }
}

/// The retry delay given to a failing task: the backoff for its attempts
/// so far while it may retry, none otherwise.
pub open spec fn delay_for(t: CrawlTask) -> Option<u64> {
    if spec_can_retry(t) {
        Some(retry_delay_for(t.attempt_count as nat))
    } else {
        None
    }
}

/// What `fail_task_at(id, error, ms, now)` does: the in-progress task with
/// that id records the failure; it joins the back of the retry queue while
/// attempts are left, else the failed history (dead); a failed result is
/// returned. An unknown id changes nothing.
pub open spec fn fail_outcome(
    before: TaskQueueView,
    after: TaskQueueView,
    id: Seq<char>,
    error: String,
    ms: u64,
    now: u64,
    r: Option<TaskResult>,
) -> bool {
    if before.in_progress.contains_key(id) {
        let t = before.in_progress[id];
        let f = failed_task(t, error, delay_for(t), now);
        &&& r matches Some(res) && res.task_id@ == id && res.url@ == t.url@ && !res.success
            && res.content is None && crate::web_url::opt_text(res.error) == Some(error@)
            && res.processing_time_ms == ms
        &&& after.in_progress == before.in_progress.remove(id)
        &&& after.in_progress_len == before.in_progress_len - 1
        &&& after.pending == before.pending
        &&& after.completed == before.completed
        &&& after.max_concurrent_tasks == before.max_concurrent_tasks
        &&& after.max_retries == before.max_retries
        &&& if f.status == TaskStatus::Retrying {
            &&& after.retry_queue == before.retry_queue.push(f)
            &&& after.failed == before.failed
            &&& after.stats == QueueStats {
                in_progress_tasks: sat_dec(before.stats.in_progress_tasks),
                retrying_tasks: (before.stats.retrying_tasks + 1) as u64,
                ..before.stats
            }
        } else {
            &&& after.retry_queue == before.retry_queue
            &&& after.failed == before.failed.push(f)
            &&& after.stats == QueueStats {
                in_progress_tasks: sat_dec(before.stats.in_progress_tasks),
                dead_tasks: (before.stats.dead_tasks + 1) as u64,
                ..before.stats
            }
        }
    } else {
        r is None && after == before
    }
}

/// The last `n` entries of a history.
pub open spec fn keep_last(s: Seq<CrawlTask>, n: nat) -> Seq<CrawlTask> {
    if s.len() > n {
        s.skip(s.len() - n)
    } else {
        s
    }
}

/// Is the task due for retry at `now`?
pub open spec fn due_at(now: u64) -> spec_fn(CrawlTask) -> bool {
    |t: CrawlTask| spec_ready_for_retry(t, now)
}

/// Is the task still waiting at `now`?
pub open spec fn waiting_at(now: u64) -> spec_fn(CrawlTask) -> bool {
    |t: CrawlTask| !spec_ready_for_retry(t, now)
}

/// A snapshot of a queue, for persistence. The time is milliseconds since
/// the Unix epoch.
#[derive(Debug)]
pub struct QueueState {
    pub pending_tasks: Vec<CrawlTask>,
    pub in_progress_tasks: Vec<CrawlTask>,
    pub retry_queue: Vec<CrawlTask>,
    pub stats: QueueStats,
    pub timestamp: u64,
}

/// The task as it re-enters the queue after an interruption: pending, its
/// attempts forgotten.
pub open spec fn requeued_task(t: CrawlTask) -> CrawlTask {
    CrawlTask { status: TaskStatus::Pending, attempt_count: 0, ..t }
}

/// Every task of a saved state that will wait or retry has attempts left to
/// count.
pub open spec fn state_countable(st: QueueState) -> bool {
    &&& forall|i: int| 0 <= i < st.pending_tasks@.len() ==> countable(#[trigger] st.pending_tasks@[i])
    &&& forall|i: int| 0 <= i < st.retry_queue@.len() ==> countable(#[trigger] st.retry_queue@[i])
}

impl TaskQueue {
    /// Hands out the next task now (see `dequeue_outcome`).
    pub fn dequeue_task(&mut self) -> (r: Option<CrawlTask>)
        requires
            old(self).wf(),
            stats_room(old(self)@.stats, 1),
        ensures
            final(self).wf(),
            exists|now: u64| dequeue_outcome(old(self)@, final(self)@, r, now),
    {
        let now = now_millis();
        self.dequeue_task_at(now)
    }

    /// Marks an in-progress task completed (see `complete_outcome`) and
    /// returns the result to report.
    pub fn complete_task(&mut self, task_id: &str, content: Option<String>, processing_time_ms: u64) -> (r: Option<TaskResult>)
        requires
            old(self).wf(),
            stats_room(old(self)@.stats, 1),
        ensures
            final(self).wf(),
            complete_outcome(old(self)@, final(self)@, task_id@, crate::web_url::opt_text(content), processing_time_ms, r),
            counts_consistent(old(self)@) ==> counts_consistent(final(self)@),
    {
        let ghost before = self@;
        match assoc_take(&mut self.in_progress, task_id) {
            Some(mut t) => {
                let ghost t0 = t;
                t.mark_completed();
                let url = t.url.clone();
                self.completed.push(t);
                self.stats.in_progress_tasks = if self.stats.in_progress_tasks == 0 { 0 } else { self.stats.in_progress_tasks - 1 };
                self.stats.completed_tasks = self.stats.completed_tasks + 1;
                proof {
                    assert forall|k: Seq<char>| #[trigger] self@.in_progress.contains_key(k) implies countable(self@.in_progress[k])
                        && self@.in_progress[k].id@ == k by {
                        assert(before.in_progress.contains_key(k));
                    }
                    assert(self@ == TaskQueueView {
                        in_progress: before.in_progress.remove(task_id@),
                        in_progress_len: (before.in_progress_len - 1) as nat,
                        completed: before.completed.push(completed_task(before.in_progress[task_id@])),
                        stats: QueueStats {
                            in_progress_tasks: sat_dec(before.stats.in_progress_tasks),
                            completed_tasks: (before.stats.completed_tasks + 1) as u64,
                            ..before.stats
                        },
                        ..before
                    });
                }
                Some(TaskResult {
                    task_id: task_id.to_string(),
                    url,
                    success: true,
                    content,
                    error: None,
                    processing_time_ms,
                })
            },
            None => {
                proof {
                    assert(self@.in_progress =~= before.in_progress);
                }
                None
            },
        }
    }

    /// Records a failure of an in-progress task at time `now` (see
    /// `fail_outcome`) and returns the result to report.
    pub fn fail_task_at(&mut self, task_id: &str, error: String, processing_time_ms: u64, now: u64) -> (r: Option<TaskResult>)
        requires
            old(self).wf(),
            stats_room(old(self)@.stats, 1),
            now <= u64::MAX - 30000,
        ensures
            final(self).wf(),
            fail_outcome(old(self)@, final(self)@, task_id@, error, processing_time_ms, now, r),
            counts_consistent(old(self)@) ==> counts_consistent(final(self)@),
    {
        let ghost before = self@;
        match assoc_take(&mut self.in_progress, task_id) {
            Some(mut t) => {
                proof {
                    assert(before.in_progress.contains_key(task_id@));
                    assert(countable(before.in_progress[task_id@]));
                }
                let delay = if t.can_retry() { Some(retry_delay_ms(t.attempt_count)) } else { None };
                let reported = error.clone();
                let ghost t0 = t;
                t.mark_failed_at(error, delay, now);
                let url = t.url.clone();
                let ghost f = t;
                if t.status == TaskStatus::Retrying {
                    self.retry_queue.push(t);
                    self.stats.in_progress_tasks = if self.stats.in_progress_tasks == 0 { 0 } else { self.stats.in_progress_tasks - 1 };
                    self.stats.retrying_tasks = self.stats.retrying_tasks + 1;
                    proof {
                        assert forall|i: int| 0 <= i < self@.retry_queue.len() implies countable(#[trigger] self@.retry_queue[i]) by {
                            if i < before.retry_queue.len() {
                                assert(self@.retry_queue[i] == before.retry_queue[i]);
                            } else {
                                assert(self@.retry_queue[i] == f);
                            }
                        }
                    }
                } else {
                    self.failed.push(t);
                    self.stats.in_progress_tasks = if self.stats.in_progress_tasks == 0 { 0 } else { self.stats.in_progress_tasks - 1 };
                    self.stats.dead_tasks = self.stats.dead_tasks + 1;
                    proof {
                        assert(self@.retry_queue == before.retry_queue);
                    }
                }
                proof {
                    assert(self@.pending == before.pending);
                    assert(delay == delay_for(t0));
                    assert forall|k: Seq<char>| #[trigger] self@.in_progress.contains_key(k) implies countable(self@.in_progress[k])
                        && self@.in_progress[k].id@ == k by {
                        assert(before.in_progress.contains_key(k));
                    }
                }
                Some(TaskResult {
                    task_id: task_id.to_string(),
                    url,
                    success: false,
                    content: None,
                    error: Some(reported),
                    processing_time_ms,
                })
            },
            None => {
                proof {
                    assert(self@.in_progress =~= before.in_progress);
                }
                None
            },
        }
    }

    /// Records a failure now (see `fail_task_at`); a clock reading within
    /// thirty seconds of the end of its range is taken as that bound.
    pub fn fail_task(&mut self, task_id: &str, error: String, processing_time_ms: u64) -> (r: Option<TaskResult>)
        requires
            old(self).wf(),
            stats_room(old(self)@.stats, 1),
        ensures
            final(self).wf(),
            exists|now: u64| fail_outcome(old(self)@, final(self)@, task_id@, error, processing_time_ms, now, r),
    {
        let t = now_millis();
        let now = if t > u64::MAX - 30000 { u64::MAX - 30000 } else { t };
        self.fail_task_at(task_id, error, processing_time_ms, now)
    }

    /// The counters.
    pub fn get_stats(&self) -> (r: QueueStats)
        ensures
            r == self@.stats,
    {
        self.stats
    }

    /// Number of pending tasks.
    pub fn pending_count(&self) -> (r: usize)
        ensures
            r == self@.pending.len(),
    {
        self.pending.len()
    }

    /// Number of in-progress tasks.
    pub fn in_progress_count(&self) -> (r: usize)
        ensures
            r == self@.in_progress_len,
    {
        self.in_progress.len()
    }

    /// How many concurrent tasks the queue is meant for.
    pub fn max_concurrent_tasks(&self) -> (r: usize)
        ensures
            r == self@.max_concurrent_tasks,
    {
        self.max_concurrent_tasks
    }

    /// Number of retrying tasks due at `now`.
    pub fn ready_retry_count_at(&self, now: u64) -> (r: usize)
        ensures
            r == self@.retry_queue.filter(due_at(now)).len(),
    {
        let ghost rq = self@.retry_queue;
        let mut n: usize = 0;
        let mut i: usize = 0;
        proof {
            assert(rq.take(0) =~= Seq::<CrawlTask>::empty());
            reveal(Seq::filter);
        }
        while i < self.retry_queue.len()
            invariant
                rq == self@.retry_queue,
                i <= rq.len(),
                n == rq.take(i as int).filter(due_at(now)).len(),
                n <= i,
            decreases rq.len() - i,
        {
            proof {
                assert(rq.take(i + 1) =~= rq.take(i as int).push(rq[i as int]));
                rq.take(i as int).lemma_filter_push(rq[i as int], due_at(now));
            }
            if self.retry_queue[i].is_ready_for_retry_at(now) {
                n = n + 1;
            }
            i = i + 1;
        }
        proof {
            assert(rq.take(rq.len() as int) =~= rq);
        }
        n
    }

    /// Whether a task is pending or a retry is due at `now`.
    pub fn has_work_at(&self, now: u64) -> (r: bool)
        ensures
            r == (self@.pending.len() > 0 || self@.retry_queue.filter(due_at(now)).len() > 0),
    {
        self.pending.len() > 0 || self.ready_retry_count_at(now) > 0
    }

    /// Keeps only the last `max_history` completed and failed tasks.
    pub fn cleanup_old_tasks(&mut self, max_history: usize)
        requires
            old(self).wf(),
        ensures
            final(self).wf(),
            final(self)@ == (TaskQueueView {
                completed: keep_last(old(self)@.completed, max_history as nat),
                failed: keep_last(old(self)@.failed, max_history as nat),
                ..old(self)@
            }),
    {
        let ghost before = self@;
        if self.completed.len() > max_history {
            let at = self.completed.len() - max_history;
            let tail = self.completed.split_off(at);
            self.completed = tail;
            proof {
                assert(self.completed@ =~= before.completed.skip(at as int));
            }
        }
        if self.failed.len() > max_history {
            let at = self.failed.len() - max_history;
            let tail = self.failed.split_off(at);
            self.failed = tail;
            proof {
                assert(self.failed@ =~= before.failed.skip(at as int));
            }
        }
        proof {
            assert(self@.pending == before.pending);
            assert(self@.retry_queue == before.retry_queue);
            assert(self@.in_progress == before.in_progress);
        }
    }

    /// Moves every retrying task that is due at `now` to the pending tasks,
    /// in retry order; the others keep waiting in order.
    pub fn process_retry_queue_at(&mut self, now: u64)
        requires
            old(self).wf(),
            stats_room(old(self)@.stats, old(self)@.retry_queue.len()),
        ensures
            final(self).wf(),
            ({
                let due = old(self)@.retry_queue.filter(due_at(now));
                let k = due.len();
                final(self)@ == TaskQueueView {
                    pending: old(self)@.pending + due,
                    retry_queue: old(self)@.retry_queue.filter(waiting_at(now)),
                    stats: QueueStats {
                        retrying_tasks: if old(self)@.stats.retrying_tasks >= k {
                            (old(self)@.stats.retrying_tasks - k) as u64
                        } else {
                            0u64
                        },
                        pending_tasks: (old(self)@.stats.pending_tasks + k) as u64,
                        ..old(self)@.stats
                    },
                    ..old(self)@
                }
            }),
            counts_consistent(old(self)@) ==> counts_consistent(final(self)@),
    {
        let ghost before = self@;
        let ghost rq = before.retry_queue;
        let mut rest: Vec<CrawlTask> = Vec::new();
        let mut moved: usize = 0;
        let mut queue = Vec::new();
        std::mem::swap(&mut queue, &mut self.retry_queue);
        let mut i: usize = 0;
        let n = queue.len();
        let mut source = queue;
        proof {
            reveal(Seq::filter);
            assert(rq.take(0) =~= Seq::<CrawlTask>::empty());
            assert(rq.skip(0) =~= rq);
            assert(self.pending@ =~= before.pending + rq.take(0).filter(due_at(now)));
        }
        while source.len() > 0
            invariant
                n == rq.len(),
                source@.len() + i == n,
                source@ == rq.skip(i as int),
                self.pending@ == before.pending + rq.take(i as int).filter(due_at(now)),
                rest@ == rq.take(i as int).filter(waiting_at(now)),
                moved == rq.take(i as int).filter(due_at(now)).len(),
                moved <= i,
                forall|j: int| 0 <= j < rq.len() ==> countable(#[trigger] rq[j]),
                forall|j: int| 0 <= j < self.pending@.len() ==> countable(#[trigger] self.pending@[j]),
                forall|j: int| 0 <= j < rest@.len() ==> countable(#[trigger] rest@[j]),
                self.retry_queue@.len() == 0,
                self.in_progress == old(self).in_progress,
                self.completed == old(self).completed,
                self.failed == old(self).failed,
                self.stats == old(self).stats,
                self.max_concurrent_tasks == old(self).max_concurrent_tasks,
                self.max_retries == old(self).max_retries,
            decreases source@.len(),
        {
            let t = source.remove(0);
            proof {
                assert(t == rq[i as int]);
                assert(rq.take(i + 1) =~= rq.take(i as int).push(rq[i as int]));
                rq.take(i as int).lemma_filter_push(rq[i as int], due_at(now));
                rq.take(i as int).lemma_filter_push(rq[i as int], waiting_at(now));
                assert(source@ =~= rq.skip(i + 1));
            }
            proof {
                assert(countable(rq[i as int]));
            }
            let ghost p0 = self.pending@;
            let ghost r0 = rest@;
            if t.is_ready_for_retry_at(now) {
                self.pending.push(t);
                moved = moved + 1;
                proof {
                    assert forall|j: int| 0 <= j < self.pending@.len() implies countable(#[trigger] self.pending@[j]) by {
                        if j < p0.len() {
                            assert(self.pending@[j] == p0[j]);
                        }
                    }
                }
            } else {
                rest.push(t);
                proof {
                    assert forall|j: int| 0 <= j < rest@.len() implies countable(#[trigger] rest@[j]) by {
                        if j < r0.len() {
                            assert(rest@[j] == r0[j]);
                        }
                    }
                }
            }
            i = i + 1;
        }
        let ghost pend = self.pending@;
        assert(forall|j: int| 0 <= j < pend.len() ==> countable(#[trigger] pend[j]));
        self.retry_queue = rest;
        proof {
            assert(rq.take(n as int) =~= rq);
        }
        let k = moved as u64;
        self.stats.retrying_tasks = if self.stats.retrying_tasks >= k { self.stats.retrying_tasks - k } else { 0 };
        self.stats.pending_tasks = self.stats.pending_tasks + k;
        proof {
            assert(self@.in_progress == before.in_progress);
            assert(self.pending@ == pend);
            assert(rq.filter(due_at(now)).len() + rq.filter(waiting_at(now)).len() == rq.len()) by {
                lemma_filter_split(rq, now);
            }
        }
    }
}

/// Every task is either due or waiting.
pub proof fn lemma_filter_split(s: Seq<CrawlTask>, now: u64)
    ensures
        s.filter(due_at(now)).len() + s.filter(waiting_at(now)).len() == s.len(),
    decreases s.len(),
{
    reveal(Seq::filter);
    if s.len() > 0 {
        lemma_filter_split(s.drop_last(), now);
        assert(s.drop_last().push(s.last()) =~= s);
        s.drop_last().lemma_filter_push(s.last(), due_at(now));
        s.drop_last().lemma_filter_push(s.last(), waiting_at(now));
    }
}

/// Two lists of tasks that agree entry by entry (see `same_task`).
pub open spec fn same_tasks(a: Seq<CrawlTask>, b: Seq<CrawlTask>) -> bool {
    a.len() == b.len() && forall|i: int| 0 <= i < a.len() ==> same_task(#[trigger] a[i], b[i])
}

/// How long an in-progress task has run at `now`, if it has started.
pub open spec fn running_for(t: CrawlTask, now: u64) -> Option<u64> {
    match t.started_at {
        Some(s) => Some(if now >= s { (now - s) as u64 } else { 0u64 }),
        None => None,
    }
}

/// An in-progress task that has run longer than `threshold`.
pub open spec fn overdue(t: CrawlTask, now: u64, threshold: u64) -> bool {
    running_for(t, now) matches Some(d) && d > threshold
}

/// The message a timed-out task fails with.
pub open spec fn zombie_message() -> Seq<char> {
    "Task timeout - possible network hang or infinite loop"@
}

pub(crate) fn copy_tasks(v: &Vec<CrawlTask>) -> (r: Vec<CrawlTask>)
    ensures
        same_tasks(r@, v@),
{
    let mut r: Vec<CrawlTask> = Vec::new();
    let mut i: usize = 0;
    while i < v.len()
        invariant
            i <= v@.len(),
            r@.len() == i,
            forall|j: int| 0 <= j < i ==> same_task(#[trigger] r@[j], v@[j]),
        decreases v@.len() - i,
    {
        r.push(v[i].duplicate());
        i = i + 1;
    }
    r
}

impl TaskQueue {
    /// Adds a pending task for each (url, priority), in order, and returns
    /// their ids.
    pub fn enqueue_batch(&mut self, urls: Vec<(String, TaskPriority)>) -> (r: Vec<String>)
        requires
            old(self).wf(),
            stats_room(old(self)@.stats, urls@.len()),
        ensures
            final(self).wf(),
            final(self)@.pending.len() == old(self)@.pending.len() + urls@.len(),
            final(self)@.pending.take(old(self)@.pending.len() as int) == old(self)@.pending,
            r@.len() == urls@.len(),
            forall|k: int| 0 <= k < urls@.len() ==> {
                let t = #[trigger] final(self)@.pending[old(self)@.pending.len() + k];
                &&& t.url@ == urls@[k].0@
                &&& t.priority == urls@[k].1
                &&& t.status == TaskStatus::Pending
                &&& t.attempt_count == 0
                &&& t.max_retries == old(self)@.max_retries
                &&& t.id@ == r@[k]@
            },
            final(self)@ == (TaskQueueView {
                pending: final(self)@.pending,
                stats: QueueStats {
                    total_tasks: (old(self)@.stats.total_tasks + urls@.len()) as u64,
                    pending_tasks: (old(self)@.stats.pending_tasks + urls@.len()) as u64,
                    ..old(self)@.stats
                },
                ..old(self)@
            }),
            counts_consistent(old(self)@) ==> counts_consistent(final(self)@),
    {
        let ghost before = self@;
        let ghost us = urls@;
        let n = urls.len();
        let mut left = urls;
        let mut ids: Vec<String> = Vec::new();
        let mut k: usize = 0;
        proof {
            assert(us.skip(0) =~= us);
            assert(self@.pending.take(before.pending.len() as int) =~= before.pending);
        }
        while left.len() > 0
            invariant
                self.wf(),
                left@ == us.skip(k as int),
                n == us.len(),
                k <= us.len(),
                ids@.len() == k,
                stats_room(before.stats, us.len()),
                self@.pending.len() == before.pending.len() + k,
                self@.pending.take(before.pending.len() as int) == before.pending,
                forall|j: int| 0 <= j < k ==> {
                    let t = #[trigger] self@.pending[before.pending.len() + j];
                    &&& t.url@ == us[j].0@
                    &&& t.priority == us[j].1
                    &&& t.status == TaskStatus::Pending
                    &&& t.attempt_count == 0
                    &&& t.max_retries == before.max_retries
                    &&& t.id@ == ids@[j]@
                },
                self@ == (TaskQueueView {
                    pending: self@.pending,
                    stats: QueueStats {
                        total_tasks: (before.stats.total_tasks + k) as u64,
                        pending_tasks: (before.stats.pending_tasks + k) as u64,
                        ..before.stats
                    },
                    ..before
                }),
            decreases left@.len(),
        {
            proof {
                assert(left@.len() == us.len() - k);
            }
            let (url, priority) = left.remove(0);
            proof {
                assert(left@ =~= us.skip(k + 1));
                assert((url, priority) == us[k as int]);
            }
            let ghost p0 = self@.pending;
            let id = self.enqueue_task(url, priority);
            ids.push(id);
            proof {
                assert(self@.pending.take(before.pending.len() as int) =~= before.pending) by {
                    assert(self@.pending.take(p0.len() as int) == p0);
                    assert forall|j: int| 0 <= j < before.pending.len() implies self@.pending[j] == before.pending[j] by {
                        assert(self@.pending.take(p0.len() as int)[j] == p0[j]);
                        assert(p0.take(before.pending.len() as int)[j] == before.pending[j]);
                    }
                }
                assert forall|j: int| 0 <= j < k + 1 implies {
                    let t = #[trigger] self@.pending[before.pending.len() + j];
                    &&& t.url@ == us[j].0@
                    &&& t.priority == us[j].1
                    &&& t.status == TaskStatus::Pending
                    &&& t.attempt_count == 0
                    &&& t.max_retries == before.max_retries
                    &&& t.id@ == ids@[j]@
                } by {
                    if j < k {
                        assert(self@.pending.take(p0.len() as int)[before.pending.len() + j] == p0[before.pending.len() + j]);
                    }
                }
            }
            k = k + 1;
        }
        ids
    }

    /// A snapshot of the pending, in-progress and retrying tasks and the
    /// counters, taken now.
    pub fn get_state(&self) -> (r: QueueState)
        requires
            self.wf(),
        ensures
            same_tasks(r.pending_tasks@, self@.pending),
            same_tasks(r.retry_queue@, self@.retry_queue),
            r.in_progress_tasks@.len() == self@.in_progress_len,
            forall|i: int| 0 <= i < r.in_progress_tasks@.len() ==> {
                let t = #[trigger] r.in_progress_tasks@[i];
                &&& self@.in_progress.contains_key(t.id@)
                &&& same_task(t, self@.in_progress[t.id@])
            },
            r.stats == self@.stats,
    {
        let pending_tasks = copy_tasks(&self.pending);
        let retry_queue = copy_tasks(&self.retry_queue);
        let mut in_progress_tasks: Vec<CrawlTask> = Vec::new();
        let mut i: usize = 0;
        while i < self.in_progress.len()
            invariant
                self.wf(),
                i <= self.in_progress@.len(),
                in_progress_tasks@.len() == i,
                forall|j: int| 0 <= j < i ==> {
                    let t = #[trigger] in_progress_tasks@[j];
                    &&& self@.in_progress.contains_key(t.id@)
                    &&& same_task(t, self@.in_progress[t.id@])
                },
            decreases self.in_progress@.len() - i,
        {
            proof {
                crate::assoc::lemma_key_index(self.in_progress@, i as int);
            }
            in_progress_tasks.push(self.in_progress[i].1.duplicate());
            i = i + 1;
        }
        QueueState {
            pending_tasks,
            in_progress_tasks,
            retry_queue,
            stats: self.stats,
            timestamp: now_millis(),
        }
    }
}

impl TaskQueue {
    /// A queue for `max_concurrent` tasks with three retries.
    pub fn with_persistence(max_concurrent: usize) -> (r: Self)
        ensures
            r.wf(),
            r@.pending.len() == 0,
            r@.in_progress_len == 0,
            r@.retry_queue.len() == 0,
            r@.max_concurrent_tasks == max_concurrent,
            r@.max_retries == 3,
            counts_consistent(r@),
    {
        Self::new(max_concurrent, 3)
    }

    /// Takes back a saved state: its pending tasks, then its interrupted
    /// (in-progress) tasks requeued as pending with their attempts reset;
    /// its retry queue; its counters, with the pending count set to the
    /// new number of pending tasks and nothing in progress. Tasks this
    /// queue itself has in progress stay there.
    pub fn restore_state(&mut self, state: QueueState)
        requires
            old(self).wf(),
            state_countable(state),
        ensures
            final(self).wf(),
            ({
                let pend = state.pending_tasks@ + state.in_progress_tasks@.map_values(|t: CrawlTask| requeued_task(t));
                final(self)@ == TaskQueueView {
                    pending: pend,
                    retry_queue: state.retry_queue@,
                    stats: QueueStats {
                        pending_tasks: pend.len() as u64,
                        in_progress_tasks: 0,
                        ..state.stats
                    },
                    ..old(self)@
                }
            }),
    {
        let ghost before = self@;
        let QueueState { pending_tasks, in_progress_tasks, retry_queue, stats, timestamp: _ } = state;
        let ghost ip = in_progress_tasks@;
        let mut pending = pending_tasks;
        let ghost p0 = pending@;
        let mut interrupted = in_progress_tasks;
        let mut k: usize = 0;
        let n = interrupted.len();
        proof {
            assert(ip.take(0).map_values(|t: CrawlTask| requeued_task(t)) =~= Seq::<CrawlTask>::empty());
            assert(pending@ =~= p0 + ip.take(0).map_values(|t: CrawlTask| requeued_task(t)));
            assert(ip.skip(0) =~= ip);
        }
        while interrupted.len() > 0
            invariant
                n == ip.len(),
                k <= n,
                interrupted@ == ip.skip(k as int),
                pending@ == p0 + ip.take(k as int).map_values(|t: CrawlTask| requeued_task(t)),
                forall|j: int| 0 <= j < pending@.len() ==> countable(#[trigger] pending@[j]),
            decreases interrupted@.len(),
        {
            proof {
                assert(interrupted@.len() == n - k);
            }
            let mut t = interrupted.remove(0);
            proof {
                assert(t == ip[k as int]);
                assert(interrupted@ =~= ip.skip(k + 1));
            }
            t.status = TaskStatus::Pending;
            t.attempt_count = 0;
            let ghost q0 = pending@;
            pending.push(t);
            proof {
                assert(ip.take(k + 1).map_values(|t: CrawlTask| requeued_task(t)) =~= ip.take(k as int).map_values(
                    |t: CrawlTask| requeued_task(t),
                ).push(requeued_task(ip[k as int])));
                assert(pending@ =~= p0 + ip.take(k + 1).map_values(|t: CrawlTask| requeued_task(t)));
                assert forall|j: int| 0 <= j < pending@.len() implies countable(#[trigger] pending@[j]) by {
                    if j < q0.len() {
                        assert(pending@[j] == q0[j]);
                    }
                }
            }
            k = k + 1;
        }
        proof {
            assert(ip.take(n as int) =~= ip);
        }
        let count = pending.len() as u64;
        self.pending = pending;
        self.retry_queue = retry_queue;
        self.stats = QueueStats { pending_tasks: count, in_progress_tasks: 0, ..stats };
        proof {
            assert(self@.in_progress == before.in_progress);
        }
    }

    /// The in-progress tasks that have run longer than `threshold_ms` at
    /// `now`, with how long they have run (see `overdue`).
    pub fn long_running_tasks_at(&self, now: u64, threshold_ms: u64) -> (r: Vec<(String, u64)>)
        requires
            self.wf(),
        ensures
            forall|i: int| 0 <= i < r@.len() ==> {
                let (id, d) = #[trigger] r@[i];
                &&& self@.in_progress.contains_key(id@)
                &&& overdue(self@.in_progress[id@], now, threshold_ms)
                &&& running_for(self@.in_progress[id@], now) == Some(d)
            },
            forall|k: Seq<char>| #[trigger] self@.in_progress.contains_key(k) && overdue(self@.in_progress[k], now, threshold_ms)
                ==> exists|i: int| 0 <= i < r@.len() && (#[trigger] r@[i]).0@ == k,
    {
        let mut out: Vec<(String, u64)> = Vec::new();
        let mut i: usize = 0;
        while i < self.in_progress.len()
            invariant
                self.wf(),
                i <= self.in_progress@.len(),
                forall|j: int| 0 <= j < out@.len() ==> {
                    let (id, d) = #[trigger] out@[j];
                    &&& self@.in_progress.contains_key(id@)
                    &&& overdue(self@.in_progress[id@], now, threshold_ms)
                    &&& running_for(self@.in_progress[id@], now) == Some(d)
                },
                forall|m: int| 0 <= m < i && overdue(#[trigger] self.in_progress@[m].1, now, threshold_ms)
                    ==> exists|j: int| 0 <= j < out@.len() && (#[trigger] out@[j]).0@ == self.in_progress@[m].0@,
            decreases self.in_progress@.len() - i,
        {
            proof {
                crate::assoc::lemma_key_index(self.in_progress@, i as int);
            }
            let t = &self.in_progress[i].1;
            match t.started_at {
                Some(s) => {
                    let d = if now >= s { now - s } else { 0 };
                    if d > threshold_ms {
                        let ghost o0 = out@;
                        out.push((self.in_progress[i].0.clone(), d));
                        proof {
                            assert(out@[o0.len() as int].0@ == self.in_progress@[i as int].0@);
                            assert forall|j: int| 0 <= j < out@.len() implies {
                                let (id, d) = #[trigger] out@[j];
                                &&& self@.in_progress.contains_key(id@)
                                &&& overdue(self@.in_progress[id@], now, threshold_ms)
                                &&& running_for(self@.in_progress[id@], now) == Some(d)
                            } by {
                                if j < o0.len() {
                                    assert(out@[j] == o0[j]);
                                }
                            }
                            assert forall|m: int| 0 <= m < i + 1 && overdue(#[trigger] self.in_progress@[m].1, now, threshold_ms)
                                implies exists|j: int| 0 <= j < out@.len() && (#[trigger] out@[j]).0@ == self.in_progress@[m].0@ by {
                                if m < i {
                                    let j0 = choose|j: int| 0 <= j < o0.len() && (#[trigger] o0[j]).0@ == self.in_progress@[m].0@;
                                    assert(out@[j0] == o0[j0]);
                                } else {
                                    assert(out@[o0.len() as int].0@ == self.in_progress@[m].0@);
                                }
                            }
                        }
                    }
                },
                None => {},
            }
            i = i + 1;
        }
        proof {
            assert forall|k: Seq<char>| #[trigger] self@.in_progress.contains_key(k) && overdue(self@.in_progress[k], now, threshold_ms)
                implies exists|j: int| 0 <= j < out@.len() && (#[trigger] out@[j]).0@ == k by {
                let m = crate::assoc::key_index(self.in_progress@, k);
                crate::assoc::lemma_key_index(self.in_progress@, m);
                assert(self.in_progress@[m].0@ == k);
                assert(overdue(self.in_progress@[m].1, now, threshold_ms));
            }
        }
        out
    }

    /// Fails every task that has been in progress longer than `timeout_ms`
    /// at `now`, as `fail_task_at` does, with a timeout message and the
    /// timeout as processing time, and returns the results.
    pub fn check_for_zombie_tasks_at(&mut self, now: u64, timeout_ms: u64) -> (r: Vec<TaskResult>)
        requires
            old(self).wf(),
            stats_room(old(self)@.stats, old(self)@.in_progress_len + 1),
            now <= u64::MAX - 30000,
        ensures
            final(self).wf(),
            r@.len() <= old(self)@.in_progress_len,
            forall|i: int| 0 <= i < r@.len() ==> {
                let res = #[trigger] r@[i];
                &&& !res.success
                &&& crate::web_url::opt_text(res.error) == Some(zombie_message())
                &&& res.processing_time_ms == timeout_ms
                &&& old(self)@.in_progress.contains_key(res.task_id@)
                &&& overdue(old(self)@.in_progress[res.task_id@], now, timeout_ms)
            },
            forall|k: Seq<char>| #![trigger final(self)@.in_progress.contains_key(k)]
                #![trigger old(self)@.in_progress.contains_key(k)]
                final(self)@.in_progress.contains_key(k) <==> old(self)@.in_progress.contains_key(k)
                    && !overdue(old(self)@.in_progress[k], now, timeout_ms),
            forall|k: Seq<char>| #[trigger] final(self)@.in_progress.contains_key(k)
                ==> final(self)@.in_progress[k] == old(self)@.in_progress[k],
            forall|k: Seq<char>| #[trigger] old(self)@.in_progress.contains_key(k) && overdue(old(self)@.in_progress[k], now, timeout_ms)
                ==> exists|i: int| 0 <= i < r@.len() && (#[trigger] r@[i]).task_id@ == k,
            forall|i: int, j: int| 0 <= i < j < r@.len() ==> (#[trigger] r@[i]).task_id@ != (#[trigger] r@[j]).task_id@,
            final(self)@.pending == old(self)@.pending,
            final(self)@.completed == old(self)@.completed,
            counts_consistent(old(self)@) ==> counts_consistent(final(self)@),
    {
        let ghost before = self@;
        let ids = self.long_running_tasks_at(now, timeout_ms);
        let mut out: Vec<TaskResult> = Vec::new();
        let mut i: usize = 0;
        proof {
            reveal_strlit("Task timeout - possible network hang or infinite loop");
        }
        while i < ids.len()
            invariant
                self.wf(),
                i <= ids@.len(),
                out@.len() <= i,
                self@.in_progress_len + out@.len() == before.in_progress_len,
                stats_room(before.stats, before.in_progress_len + 1),
                self@.stats.total_tasks == before.stats.total_tasks,
                self@.stats.completed_tasks == before.stats.completed_tasks,
                self@.stats.retrying_tasks + self@.stats.dead_tasks == before.stats.retrying_tasks + before.stats.dead_tasks + out@.len(),
                self@.stats.pending_tasks == before.stats.pending_tasks,
                self@.stats.in_progress_tasks <= before.stats.in_progress_tasks,
                self@.stats.retrying_tasks <= before.stats.retrying_tasks + out@.len(),
                self@.stats.dead_tasks <= before.stats.dead_tasks + out@.len(),
                now <= u64::MAX - 30000,
                counts_consistent(before) ==> counts_consistent(self@),
                forall|k: Seq<char>| #[trigger] self@.in_progress.contains_key(k) ==> before.in_progress.contains_key(k)
                    && self@.in_progress[k] == before.in_progress[k],
                forall|j: int| 0 <= j < out@.len() ==> {
                    let res = #[trigger] out@[j];
                    &&& !res.success
                    &&& crate::web_url::opt_text(res.error) == Some(zombie_message())
                    &&& res.processing_time_ms == timeout_ms
                    &&& before.in_progress.contains_key(res.task_id@)
                    &&& overdue(before.in_progress[res.task_id@], now, timeout_ms)
                },
                forall|j: int| 0 <= j < ids@.len() ==> {
                    let (id, d) = #[trigger] ids@[j];
                    &&& before.in_progress.contains_key(id@)
                    &&& overdue(before.in_progress[id@], now, timeout_ms)
                },
                forall|k: Seq<char>| #[trigger] before.in_progress.contains_key(k) && overdue(before.in_progress[k], now, timeout_ms)
                    ==> exists|j: int| 0 <= j < ids@.len() && (#[trigger] ids@[j]).0@ == k,
                self@.pending == before.pending,
                self@.completed == before.completed,
                forall|j: int| 0 <= j < out@.len() ==> !self@.in_progress.contains_key((#[trigger] out@[j]).task_id@),
                forall|j: int| 0 <= j < i ==> !self@.in_progress.contains_key((#[trigger] ids@[j]).0@),
                forall|k: Seq<char>| #![trigger self@.in_progress.contains_key(k)]
                    before.in_progress.contains_key(k) && !self@.in_progress.contains_key(k)
                    ==> exists|m: int| 0 <= m < out@.len() && (#[trigger] out@[m]).task_id@ == k,
                forall|k: Seq<char>| #[trigger] before.in_progress.contains_key(k) && !overdue(before.in_progress[k], now, timeout_ms)
                    ==> self@.in_progress.contains_key(k),
                forall|a: int, b: int| 0 <= a < b < out@.len() ==> (#[trigger] out@[a]).task_id@ != (#[trigger] out@[b]).task_id@,
            decreases ids@.len() - i,
        {
            let msg = "Task timeout - possible network hang or infinite loop".to_string();
            let ghost s0 = self@;
            let ghost id = ids@[i as int].0@;
            let res = self.fail_task_at(ids[i].0.as_str(), msg, timeout_ms, now);
            proof {
                assert(before.in_progress.contains_key(id) && overdue(before.in_progress[id], now, timeout_ms));
            }
            match res {
                Some(x) => {
                    let ghost o0 = out@;
                    out.push(x);
                    proof {
                        assert(s0.in_progress.contains_key(id));
                        assert(self@.in_progress == s0.in_progress.remove(id));
                        assert(out@[o0.len() as int].task_id@ == id);
                        assert forall|j: int| 0 <= j < out@.len() implies !self@.in_progress.contains_key((#[trigger] out@[j]).task_id@) by {
                            if j < o0.len() {
                                assert(out@[j] == o0[j]);
                            }
                        }
                        assert forall|j: int| 0 <= j < i + 1 implies !self@.in_progress.contains_key((#[trigger] ids@[j]).0@) by {
                        }
                        assert forall|k: Seq<char>| before.in_progress.contains_key(k) && !self@.in_progress.contains_key(k)
                            implies exists|m: int| 0 <= m < out@.len() && (#[trigger] out@[m]).task_id@ == k by {
                            if k == id {
                                assert(out@[o0.len() as int].task_id@ == k);
                            } else {
                                assert(!s0.in_progress.contains_key(k));
                                let m0 = choose|m: int| 0 <= m < o0.len() && (#[trigger] o0[m]).task_id@ == k;
                                assert(out@[m0] == o0[m0]);
                            }
                        }
                        assert forall|a: int, b: int| 0 <= a < b < out@.len() implies (#[trigger] out@[a]).task_id@ != (#[trigger] out@[b]).task_id@ by {
                            assert(out@[a] == o0[a]);
                            if b < o0.len() {
                                assert(out@[b] == o0[b]);
                            } else {
                                assert(!s0.in_progress.contains_key(o0[a].task_id@));
                            }
                        }
                        assert forall|j: int| 0 <= j < out@.len() implies {
                            let res = #[trigger] out@[j];
                            &&& !res.success
                            &&& crate::web_url::opt_text(res.error) == Some(zombie_message())
                            &&& res.processing_time_ms == timeout_ms
                            &&& before.in_progress.contains_key(res.task_id@)
                            &&& overdue(before.in_progress[res.task_id@], now, timeout_ms)
                        } by {
                            if j < o0.len() {
                                assert(out@[j] == o0[j]);
                            }
                        }
                    }
                },
                None => {
                    proof {
                        assert(!s0.in_progress.contains_key(id));
                        assert(self@ == s0);
                    }
                },
            }
            i = i + 1;
        }
        proof {
            assert forall|k: Seq<char>| #[trigger] before.in_progress.contains_key(k) && overdue(before.in_progress[k], now, timeout_ms)
                implies !self@.in_progress.contains_key(k) by {
                let j = choose|j: int| 0 <= j < ids@.len() && (#[trigger] ids@[j]).0@ == k;
                assert(!self@.in_progress.contains_key(ids@[j].0@));
            }
        }
        out
    }
}

/// The retry backoff never shrinks as attempts add up, and never exceeds
/// thirty seconds.
pub proof fn lemma_backoff_monotone(a: nat, b: nat)
    requires
        a <= b,
    ensures
        retry_delay_for(a) <= retry_delay_for(b),
        retry_delay_for(b) <= 30000,
{
}

/// `a` is a strictly higher priority than `b` in the order
/// Low < Normal < High < Critical.
pub open spec fn higher_priority(a: TaskPriority, b: TaskPriority) -> bool {
    match (a, b) {
        (TaskPriority::Normal, TaskPriority::Low) => true,
        (TaskPriority::High, TaskPriority::Low) => true,
        (TaskPriority::High, TaskPriority::Normal) => true,
        (TaskPriority::Critical, TaskPriority::Low) => true,
        (TaskPriority::Critical, TaskPriority::Normal) => true,
        (TaskPriority::Critical, TaskPriority::High) => true,
        _ => false,
    }
}

/// A task served from the pending tasks has the highest priority among
/// them (Low < Normal < High < Critical): no pending task outranks it, so
/// a High task is served before a Normal one. Among tasks of its priority
/// it is one created first.
pub proof fn lemma_dequeue_serves_highest_priority(before: TaskQueueView, after: TaskQueueView, r: Option<CrawlTask>, now: u64)
    requires
        dequeue_outcome(before, after, r, now),
        !retry_front_ready(before.retry_queue, now),
        before.pending.len() > 0,
    ensures
        r is Some,
        forall|j: int| 0 <= j < before.pending.len() ==> !higher_priority(#[trigger] before.pending[j].priority, r->0.priority),
        forall|j: int| 0 <= j < before.pending.len() && (#[trigger] before.pending[j]).priority == r->0.priority
            ==> r->0.created_at <= before.pending[j].created_at,
        exists|i: int| 0 <= i < before.pending.len() && (#[trigger] before.pending[i]).id@ == r->0.id@
            && before.pending[i].url@ == r->0.url@,
{
    let i = choose|i: int| {
        let s = started_task(before.pending[i], now);
        &&& #[trigger] is_next(before.pending, i)
        &&& r matches Some(t) && same_task(t, s)
        &&& after.pending == before.pending.remove(i)
        &&& after.retry_queue == rotated(before.retry_queue, now)
        &&& moved_in(before, after, s)
        &&& after.stats == QueueStats {
            pending_tasks: sat_dec(before.stats.pending_tasks),
            in_progress_tasks: (before.stats.in_progress_tasks + 1) as u64,
            ..before.stats
        }
    };
    assert forall|j: int| 0 <= j < before.pending.len() implies !higher_priority(#[trigger] before.pending[j].priority, r->0.priority) by {
        assert(comes_before(before.pending[i], before.pending[j]));
    }
    assert forall|j: int| 0 <= j < before.pending.len() && (#[trigger] before.pending[j]).priority == r->0.priority
        implies r->0.created_at <= before.pending[j].created_at by {
        assert(comes_before(before.pending[i], before.pending[j]));
    }
    assert(before.pending[i].id@ == r->0.id@);
}

} // verus!