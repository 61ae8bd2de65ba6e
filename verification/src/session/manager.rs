//! Session settings and the record of one crawled URL.
use vstd::prelude::*;
use crate::crawl_core::types_refactored::TaskContent;
use crate::session::statistics::{empty_statistics, SessionStatistics};
use crate::common::new_uuid_v4;
use crate::crawl_core::types::{CrawlTask, TaskPriority, TaskStatus};
use crate::logging::events::{bare_event, CrawlEvent, CrawlEventLogger, CrawlEventType, CrawlEventView};
use crate::queue::task_queue::{complete_outcome, dequeue_outcome, fail_outcome, stats_room, TaskQueue, TaskQueueView};
use crate::text_util::{concat_str, word_count};
use vstd::string::StringSliceAdditionalSpecFns;
use vstd::utf8::encode_utf8;

verus! {

/// Settings of a crawl session. Times are milliseconds.
#[derive(Debug, Clone)]
pub struct CrawlSessionConfig {
    pub max_concurrent_requests: usize,
    pub max_depth: usize,
    pub max_retries: u32,
    pub session_timeout_ms: Option<u64>,
    pub enable_storage: bool,
    pub storage_path: Option<String>,
}

impl Default for CrawlSessionConfig {
    /// Five concurrent requests, depth three, three retries, a five-minute
    /// timeout, storage on under "./crawl_data".
    fn default() -> (r: Self)
        ensures
            r.max_concurrent_requests == 5,
            r.max_depth == 3,
            r.max_retries == 3,
            r.session_timeout_ms == Some(300_000u64),
            r.enable_storage,
            r.storage_path matches Some(p) && p@ == "./crawl_data"@,
    {
        CrawlSessionConfig {
            max_concurrent_requests: 5,
            max_depth: 3,
            max_retries: 3,
            session_timeout_ms: Some(300_000),
            enable_storage: true,
            storage_path: Some("./crawl_data".to_string()),
        }
    }
}

/// The record of one crawled URL.
#[derive(Debug)]
pub struct CrawlResultData {
    pub url: String,
    pub content: Option<TaskContent>,
    pub error: Option<String>,
    pub duration_ms: u64,
    pub status_code: Option<u16>,
}

/// The outcome of a whole session.
#[derive(Debug)]
pub struct SessionResult {
    pub session_id: String,
    pub total_urls_processed: usize,
    pub successful_crawls: usize,
    pub failed_crawls: usize,
    pub total_duration_ms: u64,
    pub results: Vec<CrawlResultData>,
    pub statistics: SessionStatistics,
}

/// What the task queue is told about a crawled task.
#[derive(Debug)]
pub enum QueueAction {
    /// Complete the task with this content.
    Complete(String),
    /// Fail the task with this message.
    Fail(String),
}

/// The session's time budget: the configured timeout, or five minutes.
pub fn effective_timeout_ms(config: &CrawlSessionConfig) -> (r: u64)
    ensures
        r == match config.session_timeout_ms {
            Some(t) => t,
            None => 300_000u64,
        },
{
    match config.session_timeout_ms {
        Some(t) => t,
        None => 300_000,
    }
}

/// Whether a session that has run `elapsed_ms` has passed its timeout; the
/// crawl loop stops taking tasks once it has.
pub fn timed_out(elapsed_ms: u64, timeout_ms: u64) -> (r: bool)
    ensures
        r == (elapsed_ms > timeout_ms),
{
    elapsed_ms > timeout_ms
}

/// The record and queue action for a crawl outcome: content gives a
/// result with the content (its whitespace word count, no detected
/// language, status 200) and completes the task; no content fails it with
/// "No content extracted"; an error fails it with "Network error: " and the
/// text, the result keeping the bare text.
pub open spec fn outcome_record(
    url: Seq<char>,
    outcome: Result<Option<String>, String>,
    duration_ms: u64,
    res: CrawlResultData,
    action: QueueAction,
) -> bool {
    &&& res.url@ == url
    &&& res.duration_ms == duration_ms
    &&& match outcome {
        Ok(Some(c)) => {
            &&& res.content matches Some(tc) && tc@.text == c@ && tc@.word_count == word_count(c@)
                && tc@.detected_language is None
            &&& res.error is None
            &&& res.status_code == Some(200u16)
            &&& action matches QueueAction::Complete(x) && x@ == c@
        },
        Ok(None) => {
            &&& res.content is None
            &&& res.error matches Some(m) && m@ == "No content extracted"@
            &&& res.status_code is None
            &&& action matches QueueAction::Fail(m) && m@ == "No content extracted"@
        },
        Err(e) => {
            &&& res.content is None
            &&& res.error matches Some(m) && m@ == e@
            &&& res.status_code is None
            &&& action matches QueueAction::Fail(m) && m@ == "Network error: "@ + e@
        },
    }
}

/// The statistics after one URL was processed in `duration_ms`,
/// successfully or not.
pub open spec fn counted_url(before: SessionStatistics, after: SessionStatistics, success: bool, duration_ms: u64) -> bool {
    &&& after.processed_urls == before.processed_urls + 1
    &&& after.total_processing_time_ms == before.total_processing_time_ms + duration_ms
    &&& after.successful_urls == before.successful_urls + if success { 1int } else { 0int }
    &&& after.failed_urls == before.failed_urls + if success { 0int } else { 1int }
    &&& after.average_processing_time_ms == (after.total_processing_time_ms as int) / (after.processed_urls as int)
    &&& after.start_time == before.start_time
    &&& after.end_time == before.end_time
    &&& after.total_urls == before.total_urls
}

/// The statistics can count one more URL taking `duration_ms`.
pub open spec fn stats_can_count(s: SessionStatistics, duration_ms: u64) -> bool {
    &&& s.processed_urls < usize::MAX
    &&& s.successful_urls < usize::MAX
    &&& s.failed_urls < usize::MAX
    &&& s.total_processing_time_ms + duration_ms <= u64::MAX
}

/// Records one crawled task of the session's loop (see `outcome_record`);
/// the statistics count the URL as processed, successful only with
/// content.
pub fn on_crawl_outcome(
    stats: &mut SessionStatistics,
    url: &str,
    outcome: Result<Option<String>, String>,
    duration_ms: u64,
) -> (r: (CrawlResultData, QueueAction))
    requires
        stats_can_count(*old(stats), duration_ms),
    ensures
        outcome_record(url@, outcome, duration_ms, r.0, r.1),
        counted_url(*old(stats), *final(stats), outcome matches Ok(Some(_)), duration_ms),
{
    proof {
        reveal_strlit("No content extracted");
        reveal_strlit("Network error: ");
        reveal_strlit("text/html");
    }
    match outcome {
        Ok(Some(content)) => {
            stats.url_completed(true, duration_ms);
            let copy = content.clone();
            let n = content.as_str().as_bytes().len();
            proof {
                assert(encode_utf8(content@).len() == n);
            }
            let tc = TaskContent::new(content, "text/html".to_string());
            (
                CrawlResultData { url: url.to_string(), content: Some(tc), error: None, duration_ms, status_code: Some(200) },
                QueueAction::Complete(copy),
            )
        },
        Ok(None) => {
            stats.url_completed(false, duration_ms);
            (
                CrawlResultData {
                    url: url.to_string(),
                    content: None,
                    error: Some("No content extracted".to_string()),
                    duration_ms,
                    status_code: None,
                },
                QueueAction::Fail("No content extracted".to_string()),
            )
        },
        Err(e) => {
            stats.url_completed(false, duration_ms);
            let msg = concat_str("Network error: ", e.as_str());
            (
                CrawlResultData { url: url.to_string(), content: None, error: Some(e), duration_ms, status_code: None },
                QueueAction::Fail(msg),
            )
        },
    }
}

/// Results with content count as successful.
pub open spec fn successes(rs: Seq<CrawlResultData>) -> nat
    decreases rs.len(),
{
    if rs.len() == 0 {
        0
    } else {
        successes(rs.drop_last()) + if rs.last().content is Some { 1nat } else { 0nat }
    }
}

proof fn lemma_successes_bounded(rs: Seq<CrawlResultData>)
    ensures
        successes(rs) <= rs.len(),
    decreases rs.len(),
{
    if rs.len() > 0 {
        lemma_successes_bounded(rs.drop_last());
    }
}

impl SessionResult {
    /// Summarizes a session's results: how many were processed, how many
    /// have content (successful) and how many do not (failed).
    pub fn from_results(session_id: String, results: Vec<CrawlResultData>, total_duration_ms: u64, statistics: SessionStatistics) -> (r: Self)
        ensures
            r.session_id@ == session_id@,
            r.total_urls_processed == results@.len(),
            r.successful_crawls == successes(results@),
            r.failed_crawls == results@.len() - successes(results@),
            r.total_duration_ms == total_duration_ms,
            r.results@ == results@,
            r.statistics == statistics,
    {
        let mut ok: usize = 0;
        let mut i: usize = 0;
        proof {
            assert(results@.take(0) =~= Seq::<CrawlResultData>::empty());
        }
        while i < results.len()
            invariant
                i <= results@.len(),
                ok == successes(results@.take(i as int)),
                ok <= i,
            decreases results@.len() - i,
        {
            proof {
                assert(results@.take(i + 1).drop_last() =~= results@.take(i as int));
            }
            if results[i].content.is_some() {
                ok = ok + 1;
            }
            i = i + 1;
        }
        proof {
            assert(results@.take(results@.len() as int) =~= results@);
        }
        let n = results.len();
        SessionResult {
            session_id,
            total_urls_processed: n,
            successful_crawls: ok,
            failed_crawls: n - ok,
            total_duration_ms,
            results,
            statistics,
        }
    }
}

/// Abstract content of a crawl session.
pub struct CrawlSessionView {
    pub session_id: Seq<char>,
    pub timeout_ms: u64,
    pub queue: TaskQueueView,
    pub statistics: SessionStatistics,
}

/// A crawl session: its task queue, statistics and event logger. The
/// crawler and the storage are the caller's; it crawls the tasks this
/// session hands out and reports each outcome back.
pub struct CrawlSession {
    session_id: String,
    config: CrawlSessionConfig,
    task_queue: TaskQueue,
    event_logger: CrawlEventLogger,
    statistics: SessionStatistics,
}

impl View for CrawlSession {
    type V = CrawlSessionView;

    closed spec fn view(&self) -> CrawlSessionView {
        CrawlSessionView {
            session_id: self.session_id@,
            timeout_ms: match self.config.session_timeout_ms {
                Some(t) => t,
                None => 300_000u64,
            },
            queue: self.task_queue@,
            statistics: self.statistics,
        }
    }
}

/// The user agent a session's crawl-start events name.
pub open spec fn session_user_agent() -> Seq<char> {
    "CrawlSession/1.0"@
}

impl CrawlSession {
    /// Well-formedness: the queue is well formed and the logger belongs to
    /// the session.
    pub closed spec fn wf(&self) -> bool {
        self.task_queue.wf() && self.event_logger@ == self.session_id@
    }

    /// A session with the given identifier: an empty queue with the
    /// configured concurrency and retries, and fresh statistics.
    pub fn with_id(config: CrawlSessionConfig, session_id: String) -> (r: Self)
        ensures
            r.wf(),
            r@.session_id == session_id@,
            r@.timeout_ms == match config.session_timeout_ms {
                Some(t) => t,
                None => 300_000u64,
            },
            r@.queue.pending.len() == 0,
            r@.queue.in_progress_len == 0,
            r@.queue.retry_queue.len() == 0,
            r@.queue.max_concurrent_tasks == config.max_concurrent_requests,
            r@.queue.max_retries == config.max_retries,
            r@.statistics == empty_statistics(),
    {
        let task_queue = TaskQueue::new(config.max_concurrent_requests, config.max_retries);
        let event_logger = CrawlEventLogger::new(session_id.clone());
        CrawlSession { session_id, config, task_queue, event_logger, statistics: SessionStatistics::new() }
    }

    /// A session with a fresh random identifier.
    pub fn new(config: CrawlSessionConfig) -> (r: Self)
        ensures
            r.wf(),
            r@.queue.pending.len() == 0,
            r@.queue.in_progress_len == 0,
            r@.statistics == empty_statistics(),
    {
        Self::with_id(config, new_uuid_v4())
    }

    pub fn session_id(&self) -> (r: &str)
        ensures
            r@ == self@.session_id,
    {
        self.session_id.as_str()
    }

    /// The session's time budget (see `effective_timeout_ms`).
    pub fn timeout_ms(&self) -> (r: u64)
        ensures
            r == self@.timeout_ms,
    {
        effective_timeout_ms(&self.config)
    }

    pub fn statistics(&self) -> (r: SessionStatistics)
        ensures
            r == self@.statistics,
    {
        self.statistics
    }

    pub fn task_queue(&self) -> (r: &TaskQueue)
        ensures
            r@ == self@.queue,
    {
        &self.task_queue
    }

    /// Starts the session at `now` with the URLs, each queued at high
    /// priority in order. Fails, changing nothing, when the queue's
    /// counters cannot take that many tasks.
    pub fn start(&mut self, urls: &Vec<String>, now: u64) -> (r: bool)
        requires
            old(self).wf(),
        ensures
            final(self).wf(),
            r == stats_room(old(self)@.queue.stats, urls@.len()),
            !r ==> final(self)@ == old(self)@,
            r ==> {
                let p0 = old(self)@.queue.pending;
                let p = final(self)@.queue.pending;
                &&& final(self)@.statistics == (SessionStatistics {
                    start_time: Some(now),
                    total_urls: urls@.len() as usize,
                    ..old(self)@.statistics
                })
                &&& p.len() == p0.len() + urls@.len()
                &&& p.take(p0.len() as int) == p0
                &&& forall|j: int| 0 <= j < urls@.len() ==> {
                    let t = #[trigger] p[p0.len() + j];
                    &&& t.url@ == urls@[j]@
                    &&& t.priority == TaskPriority::High
                    &&& t.status == TaskStatus::Pending
                }
                &&& final(self)@.session_id == old(self)@.session_id
                &&& final(self)@.timeout_ms == old(self)@.timeout_ms
            },
    {
        let n = urls.len();
        if n as u64 > u64::MAX || !self.task_queue.has_room_for(n as u64) {
            return false;
        }
        self.statistics.session_started(n, now);
        let ghost p0 = self.task_queue@.pending;
        let ghost s0 = self.task_queue@.stats;
        let ghost st = self.statistics;
        let ghost sid = self.session_id@;
        let ghost tmo = self@.timeout_ms;
        let mut i: usize = 0;
        while i < n
            invariant
                self.task_queue.wf(),
                self.statistics == st,
                self.session_id@ == sid,
                self@.timeout_ms == tmo,
                self.event_logger@ == self.session_id@,
                n == urls@.len(),
                i <= n,
                stats_room(s0, n as nat),
                self.task_queue@.stats.total_tasks == s0.total_tasks + i,
                self.task_queue@.stats.pending_tasks == s0.pending_tasks + i,
                self.task_queue@.stats.in_progress_tasks == s0.in_progress_tasks,
                self.task_queue@.stats.completed_tasks == s0.completed_tasks,
                self.task_queue@.stats.retrying_tasks == s0.retrying_tasks,
                self.task_queue@.stats.dead_tasks == s0.dead_tasks,
                self.task_queue@.pending.len() == p0.len() + i,
                self.task_queue@.pending.take(p0.len() as int) == p0,
                forall|j: int| 0 <= j < i ==> {
                    let t = #[trigger] self.task_queue@.pending[p0.len() + j];
                    &&& t.url@ == urls@[j]@
                    &&& t.priority == TaskPriority::High
                    &&& t.status == TaskStatus::Pending
                },
            decreases n - i,
        {
            let ghost q0 = self.task_queue@.pending;
            let _ = self.task_queue.enqueue_task(urls[i].clone(), TaskPriority::High);
            proof {
                let q = self.task_queue@.pending;
                assert(q.take(q0.len() as int) == q0);
                assert forall|j: int| 0 <= j < i + 1 implies {
                    let t = #[trigger] q[p0.len() + j];
                    &&& t.url@ == urls@[j]@
                    &&& t.priority == TaskPriority::High
                    &&& t.status == TaskStatus::Pending
                } by {
                    if j < i {
                        assert(q[p0.len() + j] == q.take(q0.len() as int)[p0.len() + j]);
                    }
                }
                assert(q.take(p0.len() as int) =~= p0) by {
                    assert forall|k: int| 0 <= k < p0.len() implies q.take(p0.len() as int)[k] == p0[k] by {
                        assert(q[k] == q.take(q0.len() as int)[k]);
                        assert(q0[k] == q0.take(p0.len() as int)[k]);
                    }
                }
            }
            i = i + 1;
        }
        true
    }

    /// The event for starting the crawl of a URL taken from the queue.
    pub fn crawl_start_event(&self, url: &str) -> (r: CrawlEvent)
        requires
            self.wf(),
        ensures
            r@ == (CrawlEventView {
                depth: Some(0u32),
                user_agent: Some(session_user_agent()),
                ..bare_event(url@, CrawlEventType::Started, r@.timestamp, self@.session_id)
            }),
    {
        self.event_logger.log_crawl_start(url, Some(0), Some("CrawlSession/1.0"))
    }

    /// The next task to crawl at `now`, as the queue hands it out; `None`
    /// (nothing changed) when its counters are full.
    pub fn next_task(&mut self, now: u64) -> (r: Option<CrawlTask>)
        requires
            old(self).wf(),
        ensures
            final(self).wf(),
            final(self)@.session_id == old(self)@.session_id,
            final(self)@.timeout_ms == old(self)@.timeout_ms,
            final(self)@.statistics == old(self)@.statistics,
            stats_room(old(self)@.queue.stats, 1) ==> dequeue_outcome(old(self)@.queue, final(self)@.queue, r, now),
            !stats_room(old(self)@.queue.stats, 1) ==> r is None && final(self)@ == old(self)@,
    {
        if !self.task_queue.has_room_for(1) {
            return None;
        }
        self.task_queue.dequeue_task_at(now)
    }

    /// Whether tasks are waiting (pending or due for retry at `now`).
    pub fn has_work(&self, now: u64) -> (r: bool)
        ensures
            r == (self@.queue.pending.len() > 0 || self@.queue.retry_queue.filter(
                crate::queue::task_queue::due_at(now),
            ).len() > 0),
    {
        self.task_queue.has_work_at(now)
    }

    /// Records the outcome of crawling a task (see `outcome_record`): the
    /// statistics count it, the queue completes the task with its content
    /// or fails it with the action's message, and the result is returned.
    /// `None`, with nothing changed, when a counter is full or `now` is too
    /// late for a retry time.
    pub fn record_outcome(
        &mut self,
        task_id: &str,
        url: &str,
        outcome: Result<Option<String>, String>,
        duration_ms: u64,
        now: u64,
    ) -> (r: Option<CrawlResultData>)
        requires
            old(self).wf(),
        ensures
            final(self).wf(),
            final(self)@.session_id == old(self)@.session_id,
            final(self)@.timeout_ms == old(self)@.timeout_ms,
            (stats_can_count(old(self)@.statistics, duration_ms) && stats_room(old(self)@.queue.stats, 1)
                && now <= u64::MAX - 30000) <==> r is Some,
            r is None ==> final(self)@ == old(self)@,
            r matches Some(res) ==> {
                &&& exists|a: QueueAction| outcome_record(url@, outcome, duration_ms, res, a)
                &&& counted_url(
                    old(self)@.statistics,
                    final(self)@.statistics,
                    outcome matches Ok(Some(_)),
                    duration_ms,
                )
                &&& match outcome {
                    Ok(Some(c)) => exists|tr| complete_outcome(
                        old(self)@.queue,
                        final(self)@.queue,
                        task_id@,
                        Some(c@),
                        duration_ms,
                        tr,
                    ),
                    _ => exists|m: String, tr| {
                        &&& outcome_record(url@, outcome, duration_ms, res, QueueAction::Fail(m))
                        &&& fail_outcome(old(self)@.queue, final(self)@.queue, task_id@, m, duration_ms, now, tr)
                    },
                }
            },
    {
        let s = &self.statistics;
        if s.processed_urls == usize::MAX || s.successful_urls == usize::MAX || s.failed_urls == usize::MAX
            || s.total_processing_time_ms > u64::MAX - duration_ms || !self.task_queue.has_room_for(1)
            || now > u64::MAX - 30000 {
            return None;
        }
        let ghost o = outcome;
        let (res, action) = on_crawl_outcome(&mut self.statistics, url, outcome, duration_ms);
        match action {
            QueueAction::Complete(content) => {
                let ghost c = content;
                let tr = self.task_queue.complete_task(task_id, Some(content), duration_ms);
                proof {
                    assert(complete_outcome(old(self)@.queue, self@.queue, task_id@, Some(c@), duration_ms, tr));
                }
            },
            QueueAction::Fail(message) => {
                let ghost m = message;
                proof {
                    assert(outcome_record(url@, o, duration_ms, res, QueueAction::Fail(m)));
                }
                let tr = self.task_queue.fail_task_at(task_id, message, duration_ms, now);
                proof {
                    assert(fail_outcome(old(self)@.queue, self@.queue, task_id@, m, duration_ms, now, tr));
                }
            },
        }
        Some(res)
    }

    /// Ends the session at `now` and summarizes it (see
    /// `SessionResult::from_results`).
    pub fn finish(&mut self, results: Vec<CrawlResultData>, total_duration_ms: u64, now: u64) -> (r: SessionResult)
        requires
            old(self).wf(),
        ensures
            final(self).wf(),
            final(self)@ == (CrawlSessionView {
                statistics: SessionStatistics { end_time: Some(now), ..old(self)@.statistics },
                ..old(self)@
            }),
            r.session_id@ == old(self)@.session_id,
            r.total_urls_processed == results@.len(),
            r.successful_crawls == successes(results@),
            r.failed_crawls == results@.len() - successes(results@),
            r.total_duration_ms == total_duration_ms,
            r.results@ == results@,
            r.statistics == final(self)@.statistics,
    {
        self.statistics.session_completed(now);
        SessionResult::from_results(self.session_id.clone(), results, total_duration_ms, self.statistics)
    }
}

} // verus!
