//! Crawl sessions: their configuration, their lifecycle (created,
//! initialized, running, paused, and finally completed, failed or
//! cancelled), and the results, errors, metadata and metrics gathered while
//! they run. Times are milliseconds since the Unix epoch.
use vstd::prelude::*;
use crate::assoc::{assoc_insert, assoc_view, keys_unique};
use crate::common::{
    BooleanFlag, CountValue, DelayDuration, LimitValue, SessionId, TaskCounts, TaskError,
    TaskErrorKind, TimeoutDuration, now_millis, prefixed_uuid, prefixed_uuid_text,
};
use crate::text_util::{has_prefix, opt_seq};
use crate::crawl_core::types_refactored::TaskResult;

verus! {

/// Abstract content of a session configuration (and of its builder, whose
/// session identifier may still be unset).
pub struct SessionConfigView {
    pub session_id: Option<Seq<char>>,
    pub max_concurrent_requests: u64,
    pub max_depth: u64,
    pub max_total_tasks: u64,
    pub session_timeout: Option<u64>,
    pub storage_enabled: bool,
    pub storage_path: Option<Seq<char>>,
    pub metrics_enabled: bool,
    pub auto_cleanup: bool,
    pub cleanup_interval: u64,
}

/// The default session settings: five concurrent requests, depth three, a
/// thousand tasks, a five-minute timeout, storage under `./crawl_data`,
/// metrics and automatic cleanup on, cleanup after a minute.
pub open spec fn default_session_config(session_id: Option<Seq<char>>) -> SessionConfigView {
    SessionConfigView {
        session_id,
        max_concurrent_requests: 5,
        max_depth: 3,
        max_total_tasks: 1000,
        session_timeout: Some(300000),
        storage_enabled: true,
        storage_path: Some("./crawl_data"@),
        metrics_enabled: true,
        auto_cleanup: true,
        cleanup_interval: 60000,
    }
}

/// How a crawl session runs.
#[derive(Debug)]
pub struct SessionConfig {
    session_id: SessionId,
    max_concurrent_requests: LimitValue,
    max_depth: LimitValue,
    max_total_tasks: LimitValue,
    session_timeout: Option<TimeoutDuration>,
    storage_enabled: BooleanFlag,
    storage_path: Option<String>,
    metrics_enabled: BooleanFlag,
    auto_cleanup: BooleanFlag,
    cleanup_interval: DelayDuration,
}

pub open spec fn opt_timeout(t: Option<TimeoutDuration>) -> Option<u64> {
    match t {
        Some(d) => Some(d@),
        None => None,
    }
}

impl View for SessionConfig {
    type V = SessionConfigView;

    closed spec fn view(&self) -> SessionConfigView {
        SessionConfigView {
            session_id: Some(self.session_id@),
            max_concurrent_requests: self.max_concurrent_requests@,
            max_depth: self.max_depth@,
            max_total_tasks: self.max_total_tasks@,
            session_timeout: opt_timeout(self.session_timeout),
            storage_enabled: self.storage_enabled@,
            storage_path: opt_seq(self.storage_path),
            metrics_enabled: self.metrics_enabled@,
            auto_cleanup: self.auto_cleanup@,
            cleanup_interval: self.cleanup_interval@,
        }
    }
}

impl Clone for SessionConfig {
    fn clone(&self) -> (r: Self)
        ensures
            r@ == self@,
    {
        SessionConfig {
            session_id: self.session_id.clone(),
            storage_path: match &self.storage_path {
                Some(p) => Some(p.clone()),
                None => None,
            },
            ..*self
        }
    }
}

impl SessionConfig {
    pub fn builder() -> (r: SessionConfigBuilder)
        ensures
            r@ == default_session_config(None),
    {
        SessionConfigBuilder::new()
    }

    pub fn session_id(&self) -> (r: &SessionId)
        ensures
            self@.session_id == Some(r@),
    {
        &self.session_id
    }

    pub fn max_concurrent_requests(&self) -> (r: u64)
        ensures
            r == self@.max_concurrent_requests,
    {
        self.max_concurrent_requests.value()
    }

    pub fn max_depth(&self) -> (r: u64)
        ensures
            r == self@.max_depth,
    {
        self.max_depth.value()
    }

    pub fn max_total_tasks(&self) -> (r: u64)
        ensures
            r == self@.max_total_tasks,
    {
        self.max_total_tasks.value()
    }

    pub fn session_timeout(&self) -> (r: Option<TimeoutDuration>)
        ensures
            opt_timeout(r) == self@.session_timeout,
    {
        self.session_timeout
    }

    pub fn is_storage_enabled(&self) -> (r: bool)
        ensures
            r == self@.storage_enabled,
    {
        self.storage_enabled.is_enabled()
    }

    pub fn storage_path(&self) -> (r: Option<&str>)
        ensures
            match r {
                Some(p) => self@.storage_path == Some(p@),
                None => self@.storage_path is None,
            },
    {
        match &self.storage_path {
            Some(p) => Some(p.as_str()),
            None => None,
        }
    }

    pub fn is_metrics_enabled(&self) -> (r: bool)
        ensures
            r == self@.metrics_enabled,
    {
        self.metrics_enabled.is_enabled()
    }

    pub fn is_auto_cleanup_enabled(&self) -> (r: bool)
        ensures
            r == self@.auto_cleanup,
    {
        self.auto_cleanup.is_enabled()
    }

    pub fn cleanup_interval(&self) -> (r: DelayDuration)
        ensures
            r@ == self@.cleanup_interval,
    {
        self.cleanup_interval
    }
}

impl Default for SessionConfig {
    /// The default settings, with a fresh identifier `session_<uuid>`.
    fn default() -> (r: Self)
        ensures
            r@ == default_session_config(r@.session_id),
            r@.session_id matches Some(id) && has_prefix(id, "session_"@),
    {
        SessionConfigBuilder::new().build()
    }
}

/// Builder of a session configuration.
#[derive(Debug)]
pub struct SessionConfigBuilder {
    session_id: Option<SessionId>,
    max_concurrent_requests: LimitValue,
    max_depth: LimitValue,
    max_total_tasks: LimitValue,
    session_timeout: Option<TimeoutDuration>,
    storage_enabled: BooleanFlag,
    storage_path: Option<String>,
    metrics_enabled: BooleanFlag,
    auto_cleanup: BooleanFlag,
    cleanup_interval: DelayDuration,
}

impl View for SessionConfigBuilder {
    type V = SessionConfigView;

    closed spec fn view(&self) -> SessionConfigView {
        SessionConfigView {
            session_id: match self.session_id {
                Some(s) => Some(s@),
                None => None,
            },
            max_concurrent_requests: self.max_concurrent_requests@,
            max_depth: self.max_depth@,
            max_total_tasks: self.max_total_tasks@,
            session_timeout: opt_timeout(self.session_timeout),
            storage_enabled: self.storage_enabled@,
            storage_path: opt_seq(self.storage_path),
            metrics_enabled: self.metrics_enabled@,
            auto_cleanup: self.auto_cleanup@,
            cleanup_interval: self.cleanup_interval@,
        }
    }
}

impl SessionConfigBuilder {
    pub fn new() -> (r: Self)
        ensures
            r@ == default_session_config(None),
    {
        proof {
            reveal_strlit("./crawl_data");
        }
        SessionConfigBuilder {
            session_id: None,
            max_concurrent_requests: LimitValue::new(5),
            max_depth: LimitValue::new(3),
            max_total_tasks: LimitValue::new(1000),
            session_timeout: Some(TimeoutDuration::from_secs(300)),
            storage_enabled: BooleanFlag::enabled(),
            storage_path: Some("./crawl_data".to_string()),
            metrics_enabled: BooleanFlag::enabled(),
            auto_cleanup: BooleanFlag::enabled(),
            cleanup_interval: DelayDuration::from_secs(60),
        }
    }

    pub fn with_session_id(self, session_id: SessionId) -> (r: Self)
        ensures
            r@ == (SessionConfigView { session_id: Some(session_id@), ..self@ }),
    {
        SessionConfigBuilder { session_id: Some(session_id), ..self }
    }

    pub fn with_max_concurrent_requests(self, limit: LimitValue) -> (r: Self)
        ensures
            r@ == (SessionConfigView { max_concurrent_requests: limit@, ..self@ }),
    {
        SessionConfigBuilder { max_concurrent_requests: limit, ..self }
    }

    pub fn with_max_depth(self, limit: LimitValue) -> (r: Self)
        ensures
            r@ == (SessionConfigView { max_depth: limit@, ..self@ }),
    {
        SessionConfigBuilder { max_depth: limit, ..self }
    }

    pub fn with_max_total_tasks(self, limit: LimitValue) -> (r: Self)
        ensures
            r@ == (SessionConfigView { max_total_tasks: limit@, ..self@ }),
    {
        SessionConfigBuilder { max_total_tasks: limit, ..self }
    }

    pub fn with_session_timeout(self, timeout: Option<TimeoutDuration>) -> (r: Self)
        ensures
            r@ == (SessionConfigView { session_timeout: opt_timeout(timeout), ..self@ }),
    {
        SessionConfigBuilder { session_timeout: timeout, ..self }
    }

    pub fn with_storage_enabled(self, enabled: BooleanFlag) -> (r: Self)
        ensures
            r@ == (SessionConfigView { storage_enabled: enabled@, ..self@ }),
    {
        SessionConfigBuilder { storage_enabled: enabled, ..self }
    }

    pub fn with_storage_path(self, path: String) -> (r: Self)
        ensures
            r@ == (SessionConfigView { storage_path: Some(path@), ..self@ }),
    {
        SessionConfigBuilder { storage_path: Some(path), ..self }
    }

    pub fn with_metrics_enabled(self, enabled: BooleanFlag) -> (r: Self)
        ensures
            r@ == (SessionConfigView { metrics_enabled: enabled@, ..self@ }),
    {
        SessionConfigBuilder { metrics_enabled: enabled, ..self }
    }

    pub fn with_auto_cleanup(self, enabled: BooleanFlag) -> (r: Self)
        ensures
            r@ == (SessionConfigView { auto_cleanup: enabled@, ..self@ }),
    {
        SessionConfigBuilder { auto_cleanup: enabled, ..self }
    }

    pub fn with_cleanup_interval(self, interval: DelayDuration) -> (r: Self)
        ensures
            r@ == (SessionConfigView { cleanup_interval: interval@, ..self@ }),
    {
        SessionConfigBuilder { cleanup_interval: interval, ..self }
    }

    /// The configuration; without a session identifier a fresh one
    /// `session_<uuid>` is made.
    pub fn build(self) -> (r: SessionConfig)
        ensures
            self@.session_id is Some ==> r@ == self@,
            self@.session_id is None ==> r@ == (SessionConfigView { session_id: r@.session_id, ..self@ }),
            self@.session_id is None ==> (r@.session_id matches Some(id) && prefixed_uuid_text(id, "session_"@)),
    {
        let session_id = match self.session_id {
            Some(s) => s,
            None => {
                proof {
                    reveal_strlit("session_");
                }
                SessionId::from_string(prefixed_uuid("session_"))
            },
        };
        SessionConfig {
            session_id,
            max_concurrent_requests: self.max_concurrent_requests,
            max_depth: self.max_depth,
            max_total_tasks: self.max_total_tasks,
            session_timeout: self.session_timeout,
            storage_enabled: self.storage_enabled,
            storage_path: self.storage_path,
            metrics_enabled: self.metrics_enabled,
            auto_cleanup: self.auto_cleanup,
            cleanup_interval: self.cleanup_interval,
        }
    }
}

impl Default for SessionConfigBuilder {
    fn default() -> (r: Self)
        ensures
            r@ == default_session_config(None),
    {
        Self::new()
    }
}

/// Where a session is in its lifecycle.
#[derive(Clone, Copy, Debug, PartialEq, Eq, Structural)]
pub enum SessionState {
    Created,
    Initialized,
    Running,
    Paused,
    Completed,
    Failed,
    Cancelled,
}

impl Default for SessionState {
    fn default() -> (r: Self)
        ensures
            r == SessionState::Created,
    {
        SessionState::Created
    }
}

/// A finished state: completed, failed or cancelled.
pub open spec fn is_finished(s: SessionState) -> bool {
    s == SessionState::Completed || s == SessionState::Failed || s == SessionState::Cancelled
}

/// Abstract content of session metrics.
pub struct SessionMetricsView {
    pub completed: nat,
    pub failed: nat,
    pub start_time: u64,
    pub end_time: Option<u64>,
    pub duration: Option<u64>,
    pub urls_processed: u64,
    pub errors_encountered: u64,
}

/// What completing the metrics at `now` records: the end time, and the
/// duration since the start when the clock has not gone back.
pub open spec fn completed_at(m: SessionMetricsView, now: u64) -> SessionMetricsView {
    SessionMetricsView {
        end_time: Some(now),
        duration: if now >= m.start_time { Some((now - m.start_time) as u64) } else { None },
        ..m
    }
}

/// Counts and times of a session's work.
#[derive(Clone, Copy, Debug)]
pub struct SessionMetrics {
    task_counts: TaskCounts,
    start_time: u64,
    end_time: Option<u64>,
    duration: Option<u64>,
    urls_processed: CountValue,
    errors_encountered: CountValue,
}

impl View for SessionMetrics {
    type V = SessionMetricsView;

    closed spec fn view(&self) -> SessionMetricsView {
        SessionMetricsView {
            completed: self.task_counts@.completed,
            failed: self.task_counts@.failed,
            start_time: self.start_time,
            end_time: self.end_time,
            duration: self.duration,
            urls_processed: self.urls_processed@,
            errors_encountered: self.errors_encountered@,
        }
    }
}

impl SessionMetrics {
    /// Fresh metrics starting now.
    pub fn new() -> (r: Self)
        ensures
            r@.completed == 0,
            r@.failed == 0,
            r@.end_time is None,
            r@.duration is None,
            r@.urls_processed == 0,
            r@.errors_encountered == 0,
    {
        Self::new_at(now_millis())
    }

    /// Fresh metrics starting at `now`.
    pub fn new_at(now: u64) -> (r: Self)
        ensures
            r@ == (SessionMetricsView {
                completed: 0,
                failed: 0,
                start_time: now,
                end_time: None,
                duration: None,
                urls_processed: 0,
                errors_encountered: 0,
            }),
    {
        SessionMetrics {
            task_counts: TaskCounts::new(),
            start_time: now,
            end_time: None,
            duration: None,
            urls_processed: CountValue::new(),
            errors_encountered: CountValue::new(),
        }
    }

    pub fn task_counts(&self) -> (r: &TaskCounts)
        ensures
            r@.completed == self@.completed,
            r@.failed == self@.failed,
    {
        &self.task_counts
    }

    /// The task counts, to update in place; the metrics then hold what
    /// the counts are left with.
    pub fn task_counts_mut(&mut self) -> (r: &mut TaskCounts)
        ensures
            r@.completed == old(self)@.completed,
            r@.failed == old(self)@.failed,
            final(self)@ == (SessionMetricsView {
                completed: final(r)@.completed,
                failed: final(r)@.failed,
                ..old(self)@
            }),
    {
        &mut self.task_counts
    }

    pub fn start_time(&self) -> (r: u64)
        ensures
            r == self@.start_time,
    {
        self.start_time
    }

    pub fn end_time(&self) -> (r: Option<u64>)
        ensures
            r == self@.end_time,
    {
        self.end_time
    }

    /// The session's duration in milliseconds, once completed.
    pub fn duration(&self) -> (r: Option<u64>)
        ensures
            r == self@.duration,
    {
        self.duration
    }

    pub fn urls_processed(&self) -> (r: u64)
        ensures
            r == self@.urls_processed,
    {
        self.urls_processed.value()
    }

    pub fn errors_encountered(&self) -> (r: u64)
        ensures
            r == self@.errors_encountered,
    {
        self.errors_encountered.value()
    }

    /// Records that the session ended now.
    pub fn complete(&mut self)
        ensures
            final(self)@ == completed_at(old(self)@, final(self)@.end_time->0),
    {
        self.complete_at(now_millis());
    }

    /// Records that the session ended at `now`.
    pub fn complete_at(&mut self, now: u64)
        ensures
            final(self)@ == completed_at(old(self)@, now),
    {
        self.end_time = Some(now);
        self.duration = if now >= self.start_time {
            Some(now - self.start_time)
        } else {
            None
        };
    }

    pub fn increment_urls_processed(&mut self)
        requires
            old(self)@.urls_processed < u64::MAX,
        ensures
            final(self)@ == (SessionMetricsView {
                urls_processed: (old(self)@.urls_processed + 1) as u64,
                ..old(self)@
            }),
    {
        self.urls_processed.increment();
    }

    pub fn increment_errors(&mut self)
        requires
            old(self)@.errors_encountered < u64::MAX,
        ensures
            final(self)@ == (SessionMetricsView {
                errors_encountered: (old(self)@.errors_encountered + 1) as u64,
                ..old(self)@
            }),
    {
        self.errors_encountered.increment();
    }

    /// Counts a completed task.
    pub fn increment_completed(&mut self)
        requires
            old(self)@.completed < u64::MAX,
        ensures
            final(self)@ == (SessionMetricsView { completed: old(self)@.completed + 1, ..old(self)@ }),
    {
        self.task_counts.increment_completed();
    }

    /// Counts a failed task.
    pub fn increment_failed(&mut self)
        requires
            old(self)@.failed < u64::MAX,
        ensures
            final(self)@ == (SessionMetricsView { failed: old(self)@.failed + 1, ..old(self)@ }),
    {
        self.task_counts.increment_failed();
    }

    pub fn is_completed(&self) -> (r: bool)
        ensures
            r == self@.end_time is Some,
    {
        self.end_time.is_some()
    }
}

impl Default for SessionMetrics {
    fn default() -> (r: Self)
        ensures
            r@.completed == 0,
            r@.failed == 0,
            r@.end_time is None,
            r@.duration is None,
            r@.urls_processed == 0,
            r@.errors_encountered == 0,
    {
        Self::new()
    }
}

/// The views of a list of errors.
pub open spec fn errors_view(v: Seq<TaskError>) -> Seq<crate::common::TaskErrorView> {
    v.map_values(|e: TaskError| e@)
}

/// Abstract content of a crawl session: its configuration, state, metrics,
/// the results with whether each succeeded, the recorded errors, metadata,
/// when it was initialized and whether it was cancelled.
pub struct CrawlSessionView<R> {
    pub config: SessionConfigView,
    pub state: SessionState,
    pub metrics: SessionMetricsView,
    pub results: Seq<R>,
    pub outcomes: Seq<bool>,
    pub errors: Seq<crate::common::TaskErrorView>,
    pub metadata: Map<Seq<char>, String>,
    pub execution_start: Option<u64>,
    pub cancelled: bool,
}

/// One crawl session, holding results of type `R`.
#[derive(Debug)]
pub struct CrawlSession<R> {
    config: SessionConfig,
    state: SessionState,
    metrics: SessionMetrics,
    results: Vec<R>,
    outcomes: Vec<bool>,
    errors: Vec<TaskError>,
    metadata: Vec<(String, String)>,
    execution_start: Option<u64>,
    cancelled: bool,
}

impl<R> View for CrawlSession<R> {
    type V = CrawlSessionView<R>;

    closed spec fn view(&self) -> CrawlSessionView<R> {
        CrawlSessionView {
            config: self.config@,
            state: self.state,
            metrics: self.metrics@,
            results: self.results@,
            outcomes: self.outcomes@,
            errors: errors_view(self.errors@),
            metadata: assoc_view(self.metadata@),
            execution_start: self.execution_start,
            cancelled: self.cancelled,
        }
    }
}

/// The state `initialize` moves to from `s`, if it accepts `s`.
pub open spec fn initialized(s: SessionState) -> Option<SessionState> {
    if s == SessionState::Created { Some(SessionState::Initialized) } else { None }
}

/// The state `start` moves to from `s`, if it accepts `s`.
pub open spec fn started(s: SessionState) -> Option<SessionState> {
    if s == SessionState::Initialized || s == SessionState::Paused {
        Some(SessionState::Running)
    } else {
        None
    }
}

/// The state `pause` moves to from `s`, if it accepts `s`.
pub open spec fn paused(s: SessionState) -> Option<SessionState> {
    if s == SessionState::Running { Some(SessionState::Paused) } else { None }
}

/// The session error with the given message.
pub open spec fn session_error(e: crate::common::TaskErrorView, msg: Seq<char>) -> bool {
    e.kind == TaskErrorKind::Session && e.message == msg
}

/// Elapsed time from `start` to `now`; zero when the clock went back.
pub open spec fn elapsed_ms(now: u64, start: u64) -> int {
    if now >= start { now - start } else { 0 }
}

/// A summary of a session's status.
#[derive(Debug)]
pub struct SessionSummary {
    session_id: SessionId,
    state: SessionState,
    total_tasks: u64,
    completed_tasks: u64,
    failed_tasks: u64,
    urls_processed: u64,
    errors_encountered: u64,
    duration: Option<u64>,
    is_completed: bool,
}

/// Abstract content of a session summary.
pub struct SessionSummaryView {
    pub session_id: Seq<char>,
    pub state: SessionState,
    pub total_tasks: u64,
    pub completed_tasks: u64,
    pub failed_tasks: u64,
    pub urls_processed: u64,
    pub errors_encountered: u64,
    pub duration: Option<u64>,
    pub is_completed: bool,
}

impl View for SessionSummary {
    type V = SessionSummaryView;

    closed spec fn view(&self) -> SessionSummaryView {
        SessionSummaryView {
            session_id: self.session_id@,
            state: self.state,
            total_tasks: self.total_tasks,
            completed_tasks: self.completed_tasks,
            failed_tasks: self.failed_tasks,
            urls_processed: self.urls_processed,
            errors_encountered: self.errors_encountered,
            duration: self.duration,
            is_completed: self.is_completed,
        }
    }
}

impl SessionSummary {
    pub fn session_id(&self) -> (r: &SessionId)
        ensures
            r@ == self@.session_id,
    {
        &self.session_id
    }

    pub fn state(&self) -> (r: SessionState)
        ensures
            r == self@.state,
    {
        self.state
    }

    pub fn total_tasks(&self) -> (r: u64)
        ensures
            r == self@.total_tasks,
    {
        self.total_tasks
    }

    pub fn completed_tasks(&self) -> (r: u64)
        ensures
            r == self@.completed_tasks,
    {
        self.completed_tasks
    }

    pub fn failed_tasks(&self) -> (r: u64)
        ensures
            r == self@.failed_tasks,
    {
        self.failed_tasks
    }

    pub fn urls_processed(&self) -> (r: u64)
        ensures
            r == self@.urls_processed,
    {
        self.urls_processed
    }

    pub fn errors_encountered(&self) -> (r: u64)
        ensures
            r == self@.errors_encountered,
    {
        self.errors_encountered
    }

    pub fn duration(&self) -> (r: Option<u64>)
        ensures
            r == self@.duration,
    {
        self.duration
    }

    pub fn is_completed(&self) -> (r: bool)
        ensures
            r == self@.is_completed,
    {
        self.is_completed
    }
}

impl<R> CrawlSession<R> {
    /// Well-formedness: one value per metadata key, one outcome per result,
    /// and as many counted tasks as results.
    pub closed spec fn wf(&self) -> bool {
        &&& keys_unique(self.metadata@)
        &&& self.results@.len() == self.outcomes@.len()
        &&& self.metrics@.completed + self.metrics@.failed == self.results@.len()
    }

    /// A new session in the `Created` state.
    pub fn new(config: SessionConfig) -> (r: Self)
        ensures
            r.wf(),
            r@.config == config@,
            r@.state == SessionState::Created,
            r@.metrics.completed == 0,
            r@.metrics.failed == 0,
            r@.metrics.end_time is None,
            r@.metrics.urls_processed == 0,
            r@.metrics.errors_encountered == 0,
            r@.results.len() == 0,
            r@.errors.len() == 0,
            r@.metadata == Map::<Seq<char>, String>::empty(),
            r@.execution_start is None,
            !r@.cancelled,
    {
        let r = CrawlSession {
            config,
            state: SessionState::Created,
            metrics: SessionMetrics::new(),
            results: Vec::new(),
            outcomes: Vec::new(),
            errors: Vec::new(),
            metadata: Vec::new(),
            execution_start: None,
            cancelled: false,
        };
        proof {
            assert(assoc_view(r.metadata@) =~= Map::empty());
            assert(errors_view(r.errors@) =~= Seq::empty());
        }
        r
    }

    /// A new session with the default configuration.
    pub fn with_defaults() -> (r: Self)
        ensures
            r.wf(),
            r@.config == default_session_config(r@.config.session_id),
            r@.state == SessionState::Created,
            r@.results.len() == 0,
    {
        Self::new(SessionConfig::default())
    }

    pub fn config(&self) -> (r: &SessionConfig)
        ensures
            r@ == self@.config,
    {
        &self.config
    }

    pub fn session_id(&self) -> (r: &SessionId)
        ensures
            self@.config.session_id == Some(r@),
    {
        self.config.session_id()
    }

    pub fn state(&self) -> (r: SessionState)
        ensures
            r == self@.state,
    {
        self.state
    }

    /// A copy of the metrics.
    pub fn metrics(&self) -> (r: SessionMetrics)
        ensures
            r@ == self@.metrics,
    {
        self.metrics
    }

    pub fn is_running(&self) -> (r: bool)
        ensures
            r == (self@.state == SessionState::Running),
    {
        self.state == SessionState::Running
    }

    /// Completed, failed or cancelled.
    pub fn is_completed(&self) -> (r: bool)
        ensures
            r == is_finished(self@.state),
    {
        match self.state {
            SessionState::Completed | SessionState::Failed | SessionState::Cancelled => true,
            _ => false,
        }
    }

    /// Whether the session has run longer than its timeout as of `now`.
    pub fn is_timed_out(&self, now: u64) -> (r: bool)
        ensures
            r == (self@.config.session_timeout is Some && self@.execution_start is Some
                && elapsed_ms(now, self@.execution_start->0) > self@.config.session_timeout->0),
    {
        match (self.config.session_timeout(), self.execution_start) {
            (Some(timeout), Some(start)) => {
                let elapsed = if now >= start { now - start } else { 0 };
                elapsed > timeout.as_millis()
            },
            _ => false,
        }
    }

    /// Created becomes Initialized, remembering `now` as the start of
    /// execution; any other state refuses.
    pub fn initialize(&mut self, now: u64) -> (r: Result<(), TaskError>)
        requires
            old(self).wf(),
        ensures
            final(self).wf(),
            r is Ok <==> initialized(old(self)@.state) is Some,
            r is Ok ==> final(self)@.state == initialized(old(self)@.state)->0,
            old(self)@.state == SessionState::Created ==> r is Ok && final(self)@ == (CrawlSessionView {
                state: SessionState::Initialized,
                execution_start: Some(now),
                ..old(self)@
            }),
            old(self)@.state != SessionState::Created ==> (r matches Err(e) && session_error(
                e@,
                "Session already initialized"@,
            ) && final(self)@ == old(self)@),
    {
        if self.state == SessionState::Created {
            self.state = SessionState::Initialized;
            self.execution_start = Some(now);
            Ok(())
        } else {
            proof {
                reveal_strlit("Session already initialized");
            }
            Err(TaskError::session("Session already initialized"))
        }
    }

    /// Initialized or Paused becomes Running; Created must be initialized
    /// first; any other state refuses.
    pub fn start(&mut self) -> (r: Result<(), TaskError>)
        requires
            old(self).wf(),
        ensures
            final(self).wf(),
            r is Ok <==> started(old(self)@.state) is Some,
            r is Ok ==> final(self)@.state == started(old(self)@.state)->0,
            (old(self)@.state == SessionState::Initialized || old(self)@.state == SessionState::Paused)
                ==> r is Ok && final(self)@ == (CrawlSessionView { state: SessionState::Running, ..old(self)@ }),
            old(self)@.state == SessionState::Created ==> (r matches Err(e) && session_error(
                e@,
                "Session must be initialized before starting"@,
            ) && final(self)@ == old(self)@),
            !(old(self)@.state == SessionState::Initialized || old(self)@.state == SessionState::Paused
                || old(self)@.state == SessionState::Created) ==> (r matches Err(e) && session_error(
                e@,
                "Session cannot be started in current state"@,
            ) && final(self)@ == old(self)@),
    {
        match self.state {
            SessionState::Initialized | SessionState::Paused => {
                self.state = SessionState::Running;
                Ok(())
            },
            SessionState::Created => {
                proof {
                    reveal_strlit("Session must be initialized before starting");
                }
                Err(TaskError::session("Session must be initialized before starting"))
            },
            _ => {
                proof {
                    reveal_strlit("Session cannot be started in current state");
                }
                Err(TaskError::session("Session cannot be started in current state"))
            },
        }
    }

    /// Running becomes Paused; any other state refuses.
    pub fn pause(&mut self) -> (r: Result<(), TaskError>)
        requires
            old(self).wf(),
        ensures
            final(self).wf(),
            r is Ok <==> paused(old(self)@.state) is Some,
            r is Ok ==> final(self)@.state == paused(old(self)@.state)->0,
            old(self)@.state == SessionState::Running ==> r is Ok && final(self)@ == (CrawlSessionView {
                state: SessionState::Paused,
                ..old(self)@
            }),
            old(self)@.state != SessionState::Running ==> (r matches Err(e) && session_error(
                e@,
                "Session must be running to pause"@,
            ) && final(self)@ == old(self)@),
    {
        if self.state == SessionState::Running {
            self.state = SessionState::Paused;
            Ok(())
        } else {
            proof {
                reveal_strlit("Session must be running to pause");
            }
            Err(TaskError::session("Session must be running to pause"))
        }
    }

    /// Marks the session Completed, ending its metrics at `now`.
    pub fn complete(&mut self, now: u64) -> (r: Result<(), TaskError>)
        requires
            old(self).wf(),
        ensures
            final(self).wf(),
            r is Ok,
            final(self)@ == (CrawlSessionView {
                state: SessionState::Completed,
                metrics: completed_at(old(self)@.metrics, now),
                ..old(self)@
            }),
    {
        self.state = SessionState::Completed;
        self.metrics.complete_at(now);
        Ok(())
    }

    /// Marks the session Failed with `error`, ending its metrics at `now`.
    pub fn fail(&mut self, error: TaskError, now: u64) -> (r: Result<(), TaskError>)
        requires
            old(self).wf(),
        ensures
            final(self).wf(),
            r is Ok,
            final(self)@ == (CrawlSessionView {
                state: SessionState::Failed,
                errors: old(self)@.errors.push(error@),
                metrics: completed_at(old(self)@.metrics, now),
                ..old(self)@
            }),
    {
        self.state = SessionState::Failed;
        self.errors.push(error);
        proof {
            assert(errors_view(self.errors@) =~= errors_view(old(self).errors@).push(error@));
        }
        self.metrics.complete_at(now);
        Ok(())
    }

    /// Marks the session Cancelled and signals cancellation, ending its
    /// metrics at `now`.
    pub fn cancel(&mut self, now: u64) -> (r: Result<(), TaskError>)
        requires
            old(self).wf(),
        ensures
            final(self).wf(),
            r is Ok,
            final(self)@ == (CrawlSessionView {
                state: SessionState::Cancelled,
                cancelled: true,
                metrics: completed_at(old(self)@.metrics, now),
                ..old(self)@
            }),
    {
        self.state = SessionState::Cancelled;
        self.cancelled = true;
        self.metrics.complete_at(now);
        Ok(())
    }

    /// Whether cancellation was signalled.
    pub fn is_cancelled(&self) -> (r: bool)
        ensures
            r == self@.cancelled,
    {
        self.cancelled
    }

    /// Adds a task's result: a success counts a completed task and a
    /// processed URL; a failure counts a failed task and an error, and
    /// records the task's error when it has one.
    pub fn add_result(&mut self, result: R, success: bool, error: Option<TaskError>) -> (r: Result<(), TaskError>)
        requires
            old(self).wf(),
            old(self)@.metrics.completed < u64::MAX,
            old(self)@.metrics.failed < u64::MAX,
            old(self)@.metrics.urls_processed < u64::MAX,
            old(self)@.metrics.errors_encountered < u64::MAX,
        ensures
            final(self).wf(),
            r is Ok,
            final(self)@.results == old(self)@.results.push(result),
            final(self)@.outcomes == old(self)@.outcomes.push(success),
            success ==> final(self)@.metrics == (SessionMetricsView {
                completed: old(self)@.metrics.completed + 1,
                urls_processed: (old(self)@.metrics.urls_processed + 1) as u64,
                ..old(self)@.metrics
            }) && final(self)@.errors == old(self)@.errors,
            !success ==> final(self)@.metrics == (SessionMetricsView {
                failed: old(self)@.metrics.failed + 1,
                errors_encountered: (old(self)@.metrics.errors_encountered + 1) as u64,
                ..old(self)@.metrics
            }),
            !success && error is Some ==> final(self)@.errors == old(self)@.errors.push(error->0@),
            !success && error is None ==> final(self)@.errors == old(self)@.errors,
            final(self)@.state == old(self)@.state,
            final(self)@.config == old(self)@.config,
            final(self)@.metadata == old(self)@.metadata,
            final(self)@.execution_start == old(self)@.execution_start,
            final(self)@.cancelled == old(self)@.cancelled,
    {
        if success {
            self.metrics.increment_completed();
            self.metrics.increment_urls_processed();
        } else {
            self.metrics.increment_failed();
            self.metrics.increment_errors();
            match error {
                Some(e) => {
                    let ghost ev = e@;
                    self.errors.push(e);
                    proof {
                        assert(errors_view(self.errors@) =~= errors_view(old(self).errors@).push(ev));
                    }
                },
                None => {},
            }
        }
        self.results.push(result);
        self.outcomes.push(success);
        Ok(())
    }

    /// The results, in the order they were added.
    pub fn results(&self) -> (r: &Vec<R>)
        ensures
            r@ == self@.results,
    {
        &self.results
    }

    /// Whether each result succeeded, in the order of `results`.
    pub fn outcomes(&self) -> (r: &Vec<bool>)
        ensures
            r@ == self@.outcomes,
    {
        &self.outcomes
    }

    /// The errors recorded, in order.
    pub fn errors(&self) -> (r: &Vec<TaskError>)
        ensures
            errors_view(r@) == self@.errors,
    {
        &self.errors
    }

    /// Sets one metadata entry.
    pub fn add_metadata(&mut self, key: String, value: String) -> (r: Result<(), TaskError>)
        requires
            old(self).wf(),
        ensures
            final(self).wf(),
            r is Ok,
            final(self)@ == (CrawlSessionView {
                metadata: old(self)@.metadata.insert(key@, value),
                ..old(self)@
            }),
    {
        assoc_insert(&mut self.metadata, key, value);
        Ok(())
    }

    /// The metadata, as (key, value) pairs with distinct keys.
    pub fn metadata(&self) -> (r: &Vec<(String, String)>)
        requires
            self.wf(),
        ensures
            keys_unique(r@),
            assoc_view(r@) == self@.metadata,
    {
        &self.metadata
    }

    /// The session's status at a glance.
    pub fn get_summary(&self) -> (r: SessionSummary)
        requires
            self.wf(),
            self@.metrics.completed + self@.metrics.failed <= u64::MAX,
        ensures
            Some(r@.session_id) == self@.config.session_id,
            r@.state == self@.state,
            r@.total_tasks == self@.metrics.completed + self@.metrics.failed,
            r@.completed_tasks == self@.metrics.completed,
            r@.failed_tasks == self@.metrics.failed,
            r@.urls_processed == self@.metrics.urls_processed,
            r@.errors_encountered == self@.metrics.errors_encountered,
            r@.duration == self@.metrics.duration,
            r@.is_completed == (self@.metrics.end_time is Some),
    {
        SessionSummary {
            session_id: self.config.session_id().clone(),
            state: self.state,
            total_tasks: self.metrics.task_counts().total(),
            completed_tasks: self.metrics.task_counts().completed(),
            failed_tasks: self.metrics.task_counts().failed(),
            urls_processed: self.metrics.urls_processed(),
            errors_encountered: self.metrics.errors_encountered(),
            duration: self.metrics.duration(),
            is_completed: self.metrics.is_completed(),
        }
    }

    /// A finished session with automatic cleanup is cleaned up once the
    /// cleanup interval has passed since it was initialized.
    pub fn should_cleanup(&self, now: u64) -> (r: bool)
        ensures
            r == (self@.config.auto_cleanup && is_finished(self@.state) && self@.execution_start is Some
                && elapsed_ms(now, self@.execution_start->0) > self@.config.cleanup_interval),
    {
        if !self.config.is_auto_cleanup_enabled() {
            return false;
        }
        if !self.is_completed() {
            return false;
        }
        match self.execution_start {
            Some(start) => {
                let elapsed = if now >= start { now - start } else { 0 };
                elapsed > self.config.cleanup_interval().as_millis()
            },
            None => false,
        }
    }
}

impl<R> Default for CrawlSession<R> {
    fn default() -> (r: Self)
        ensures
            r.wf(),
            r@.state == SessionState::Created,
    {
        Self::with_defaults()
    }
}

/// Pausing can always be undone: starting a paused session brings back the
/// state it was paused from.
pub proof fn lemma_pause_then_start(s: SessionState)
    requires
        paused(s) is Some,
    ensures
        started(paused(s)->0) == Some(s),
{
}

/// A session is initialized at most once, and only a session that was
/// initialized (or paused) can start.
pub proof fn lemma_initialize_once(s: SessionState)
    ensures
        initialized(s) is Some ==> initialized(initialized(s)->0) is None,
        started(s) is Some ==> s != SessionState::Created,
        is_finished(s) ==> started(s) is None && paused(s) is None && initialized(s) is None,
{
}

/// Every session counts exactly one task per result it holds.
pub proof fn lemma_session_counts<R>(s: &CrawlSession<R>)
    requires
        s.wf(),
    ensures
        s@.metrics.completed + s@.metrics.failed == s@.results.len(),
        s@.outcomes.len() == s@.results.len(),
{
}

impl<T> CrawlSession<TaskResult<T>> {
    /// Adds a task's result, reading its success and error from it (see
    /// `add_result`).
    pub fn add_task_result(&mut self, result: TaskResult<T>) -> (r: Result<(), TaskError>)
        requires
            old(self).wf(),
            old(self)@.metrics.completed < u64::MAX,
            old(self)@.metrics.failed < u64::MAX,
            old(self)@.metrics.urls_processed < u64::MAX,
            old(self)@.metrics.errors_encountered < u64::MAX,
        ensures
            final(self).wf(),
            r is Ok,
            final(self)@.results == old(self)@.results.push(result),
            final(self)@.outcomes == old(self)@.outcomes.push(result@.success),
            result@.success ==> final(self)@.metrics == (SessionMetricsView {
                completed: old(self)@.metrics.completed + 1,
                urls_processed: (old(self)@.metrics.urls_processed + 1) as u64,
                ..old(self)@.metrics
            }) && final(self)@.errors == old(self)@.errors,
            !result@.success ==> final(self)@.metrics == (SessionMetricsView {
                failed: old(self)@.metrics.failed + 1,
                errors_encountered: (old(self)@.metrics.errors_encountered + 1) as u64,
                ..old(self)@.metrics
            }),
            !result@.success ==> final(self)@.errors == match result@.error {
                Some(e) => old(self)@.errors.push(e),
                None => old(self)@.errors,
            },
            final(self)@.state == old(self)@.state,
            final(self)@.config == old(self)@.config,
            final(self)@.metadata == old(self)@.metadata,
            final(self)@.execution_start == old(self)@.execution_start,
            final(self)@.cancelled == old(self)@.cancelled,
    {
        let success = result.is_success();
        let error = match result.error() {
            Some(e) => Some(e.clone()),
            None => None,
        };
        self.add_result(result, success, error)
    }
}

} // verus!
