//! The decisions of the priority task queue: whether a task may join the
//! queue, which pending task goes next (highest priority, then the oldest),
//! whether a failed task is retried or given up, and which waiting retries
//! are ready to go back to the queue. The locks, the concurrency permits
//! and the clock stay with the caller.
use vstd::prelude::*;
use crate::common::{TaskError, TaskErrorKind};
use crate::crawl_core::types_refactored::{priority_level, timing_ready_for_retry, CrawlTask, CrawlTaskView};

verus! {

/// A queue holding `pending_count` tasks refuses new ones once it holds
/// `max_queue_size`; the refusal is a configuration error "Queue is at
/// capacity".
pub fn check_capacity(pending_count: u64, max_queue_size: u64) -> (r: Result<(), TaskError>)
    ensures
        (pending_count >= max_queue_size) <==> r is Err,
        r matches Err(e) ==> e@.kind == TaskErrorKind::Configuration && e@.message == "Queue is at capacity"@,
{
    if pending_count >= max_queue_size {
        Err(TaskError::configuration("Queue is at capacity"))
    } else {
        Ok(())
    }
}

/// What becomes of a failed task.
#[derive(Clone, Copy, Debug, PartialEq, Eq, Structural)]
pub enum FailureDisposition {
    /// Scheduled for another attempt.
    Retry,
    /// Given up: the attempts are used up.
    Dead,
}

/// A failed task is retried while it has made fewer attempts than allowed,
/// and is dead otherwise.
pub fn fail_disposition(attempt_count: u64, max_attempts: u64) -> (r: FailureDisposition)
    ensures
        (attempt_count < max_attempts) <==> r == FailureDisposition::Retry,
{
    if attempt_count < max_attempts {
        FailureDisposition::Retry
    } else {
        FailureDisposition::Dead
    }
}

/// Task `a` goes before task `b`: a higher priority, or the same priority
/// and created no later.
pub open spec fn goes_before(a: CrawlTaskView, b: CrawlTaskView) -> bool {
    priority_level(a.priority) > priority_level(b.priority) || (priority_level(a.priority)
        == priority_level(b.priority) && a.timing.created_at <= b.timing.created_at)
}

/// The views of a list of tasks.
pub open spec fn task_views(v: Seq<CrawlTask>) -> Seq<CrawlTaskView> {
    v.map_values(|t: CrawlTask| t@)
}

/// The position of the pending task that goes next: one that goes before
/// every other (the first such one); `None` for no pending task.
pub fn next_task_index(pending: &Vec<CrawlTask>) -> (r: Option<usize>)
    ensures
        pending@.len() == 0 <==> r is None,
        r matches Some(i) ==> i < pending@.len() && (forall|j: int| 0 <= j < pending@.len()
            ==> goes_before(#[trigger] pending@[i as int]@, pending@[j]@)) && (forall|j: int|
            0 <= j < i ==> !goes_before(#[trigger] pending@[j]@, pending@[i as int]@)
                || !goes_before(pending@[i as int]@, pending@[j]@)),
{
    if pending.len() == 0 {
        return None;
    }
    let mut best: usize = 0;
    let mut i: usize = 1;
    while i < pending.len()
        invariant
            0 < pending@.len(),
            best < i <= pending@.len(),
            forall|j: int| 0 <= j < i ==> goes_before(#[trigger] pending@[best as int]@, pending@[j]@),
            forall|j: int| 0 <= j < best ==> !goes_before(#[trigger] pending@[j]@, pending@[best as int]@)
                || !goes_before(pending@[best as int]@, pending@[j]@),
        decreases pending@.len() - i,
    {
        let pb = pending[best].priority().priority_value();
        let pi = pending[i].priority().priority_value();
        let cb = pending[best].execution_timing().created_at();
        let ci = pending[i].execution_timing().created_at();
        if pi > pb || (pi == pb && ci < cb) {
            proof {
                assert forall|j: int| 0 <= j < i implies !goes_before(#[trigger] pending@[j]@, pending@[i as int]@)
                    || !goes_before(pending@[i as int]@, pending@[j]@) by {
                    assert(goes_before(pending@[best as int]@, pending@[j]@));
                }
            }
            best = i;
        }
        i = i + 1;
    }
    Some(best)
}

/// Splits the retry queue at `now` into the tasks ready to go back to the
/// pending queue and those still waiting, each in their order.
pub fn split_retry_queue(queue: Vec<CrawlTask>, now: u64) -> (r: (Vec<CrawlTask>, Vec<CrawlTask>))
    ensures
        task_views(r.0@) == task_views(queue@).filter(|t: CrawlTaskView| timing_ready_for_retry(t.timing, now)),
        task_views(r.1@) == task_views(queue@).filter(|t: CrawlTaskView| !timing_ready_for_retry(t.timing, now)),
{
    let ghost q = task_views(queue@);
    let mut ready: Vec<CrawlTask> = Vec::new();
    let mut waiting: Vec<CrawlTask> = Vec::new();
    let mut rest = queue;
    let mut taken: usize = 0;
    let total: usize = rest.len();
    let ghost n = q.len();
    proof {
        assert(q.take(0) =~= Seq::<CrawlTaskView>::empty());
        assert(task_views(rest@) =~= q.skip(0));
        assert(q.len() == rest@.len());
        assert(n == total);
    }
    while rest.len() > 0
        invariant
            taken + rest@.len() == n,
            n == q.len(),
            n <= usize::MAX,
            task_views(rest@) == q.skip(taken as int),
            task_views(ready@) == q.take(taken as int).filter(|t: CrawlTaskView| timing_ready_for_retry(t.timing, now)),
            task_views(waiting@) == q.take(taken as int).filter(|t: CrawlTaskView| !timing_ready_for_retry(t.timing, now)),
        decreases rest@.len(),
    {
        let ghost old_rest = rest@;
        let t = rest.remove(0);
        let ghost tv = t@;
        proof {
            assert(task_views(old_rest)[0] == tv);
            assert(q.skip(taken as int)[0] == tv);
            assert forall|k: int| 0 <= k < rest@.len() implies task_views(rest@)[k] == q.skip(taken as int + 1)[k] by {
                assert(rest@[k] == old_rest[k + 1]);
                assert(task_views(old_rest)[k + 1] == q.skip(taken as int)[k + 1]);
            }
            assert(q[taken as int] == tv);
            assert(q.take(taken as int + 1).drop_last() =~= q.take(taken as int));
            assert(q.take(taken as int + 1).last() == tv);
            assert(task_views(rest@) =~= q.skip(taken as int + 1));
            reveal(Seq::filter);
        }
        if t.is_ready_for_retry_at(now) {
            let ghost r0 = task_views(ready@);
            ready.push(t);
            proof {
                assert(task_views(ready@) =~= r0.push(tv));
            }
        } else {
            let ghost w0 = task_views(waiting@);
            waiting.push(t);
            proof {
                assert(task_views(waiting@) =~= w0.push(tv));
            }
        }
        taken = taken + 1;
    }
    proof {
        assert(q.take(n as int) =~= q);
    }
    (ready, waiting)
}

} // verus!
