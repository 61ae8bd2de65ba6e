//! Metrics of a crawl: what is collected and kept, error counts by type
//! with the most frequent ones, queue counters, and the basic request
//! counters. Times are milliseconds since the Unix epoch.
use vstd::prelude::*;
use crate::assoc::{assoc_find, assoc_insert, assoc_view, has_key, keys_unique, lemma_key_index};
use crate::common::{prefixed_uuid_text, BooleanFlag, LimitValue, SessionId, TaskError, now_millis, prefixed_uuid};
use crate::text_util::has_prefix;

verus! {

/// Abstract content of a metrics configuration (and its builder).
pub struct MetricsConfigView {
    pub collect_domain_stats: bool,
    pub collect_timing_stats: bool,
    pub collect_error_stats: bool,
    pub collect_queue_stats: bool,
    pub max_domain_entries: u64,
    pub max_error_entries: u64,
    pub retention_hours: u64,
    pub snapshot_interval_secs: u64,
    pub top_domains_count: u64,
    pub detailed_reporting: bool,
    pub session_id: Seq<char>,
    pub enable_persistence: bool,
}

/// The default metrics settings: everything collected, a thousand domains
/// and five hundred errors kept for 24 hours, snapshots every minute, the
/// top ten domains reported in detail, no persistence.
pub open spec fn default_metrics_config(session_id: Seq<char>) -> MetricsConfigView {
    MetricsConfigView {
        collect_domain_stats: true,
        collect_timing_stats: true,
        collect_error_stats: true,
        collect_queue_stats: true,
        max_domain_entries: 1000,
        max_error_entries: 500,
        retention_hours: 24,
        snapshot_interval_secs: 60,
        top_domains_count: 10,
        detailed_reporting: true,
        session_id,
        enable_persistence: false,
    }
}

/// What metrics are collected, kept and reported.
#[derive(Debug)]
pub struct MetricsConfig {
    collect_domain_stats: BooleanFlag,
    collect_timing_stats: BooleanFlag,
    collect_error_stats: BooleanFlag,
    collect_queue_stats: BooleanFlag,
    max_domain_entries: LimitValue,
    max_error_entries: LimitValue,
    retention_hours: LimitValue,
    snapshot_interval_secs: LimitValue,
    top_domains_count: LimitValue,
    detailed_reporting: BooleanFlag,
    session_id: SessionId,
    enable_persistence: BooleanFlag,
}

impl View for MetricsConfig {
    type V = MetricsConfigView;

    closed spec fn view(&self) -> MetricsConfigView {
        MetricsConfigView {
            collect_domain_stats: self.collect_domain_stats@,
            collect_timing_stats: self.collect_timing_stats@,
            collect_error_stats: self.collect_error_stats@,
            collect_queue_stats: self.collect_queue_stats@,
            max_domain_entries: self.max_domain_entries@,
            max_error_entries: self.max_error_entries@,
            retention_hours: self.retention_hours@,
            snapshot_interval_secs: self.snapshot_interval_secs@,
            top_domains_count: self.top_domains_count@,
            detailed_reporting: self.detailed_reporting@,
            session_id: self.session_id@,
            enable_persistence: self.enable_persistence@,
        }
    }
}

impl MetricsConfig {
    pub fn builder() -> (r: MetricsConfigBuilder)
        ensures
            r@ == default_metrics_config(r@.session_id),
            prefixed_uuid_text(r@.session_id, "metrics_"@),
    {
        MetricsConfigBuilder::new()
    }

    pub fn should_collect_domain_stats(&self) -> (r: bool)
        ensures
            r == self@.collect_domain_stats,
    {
        self.collect_domain_stats.is_enabled()
    }

    pub fn should_collect_timing_stats(&self) -> (r: bool)
        ensures
            r == self@.collect_timing_stats,
    {
        self.collect_timing_stats.is_enabled()
    }

    pub fn should_collect_error_stats(&self) -> (r: bool)
        ensures
            r == self@.collect_error_stats,
    {
        self.collect_error_stats.is_enabled()
    }

    pub fn should_collect_queue_stats(&self) -> (r: bool)
        ensures
            r == self@.collect_queue_stats,
    {
        self.collect_queue_stats.is_enabled()
    }

    pub fn max_domain_entries(&self) -> (r: u64)
        ensures
            r == self@.max_domain_entries,
    {
        self.max_domain_entries.value()
    }

    pub fn max_error_entries(&self) -> (r: u64)
        ensures
            r == self@.max_error_entries,
    {
        self.max_error_entries.value()
    }

    pub fn retention_hours(&self) -> (r: u64)
        ensures
            r == self@.retention_hours,
    {
        self.retention_hours.value()
    }

    pub fn snapshot_interval_secs(&self) -> (r: u64)
        ensures
            r == self@.snapshot_interval_secs,
    {
        self.snapshot_interval_secs.value()
    }

    pub fn top_domains_count(&self) -> (r: u64)
        ensures
            r == self@.top_domains_count,
    {
        self.top_domains_count.value()
    }

    pub fn should_use_detailed_reporting(&self) -> (r: bool)
        ensures
            r == self@.detailed_reporting,
    {
        self.detailed_reporting.is_enabled()
    }

    pub fn session_id(&self) -> (r: &SessionId)
        ensures
            r@ == self@.session_id,
    {
        &self.session_id
    }

    pub fn should_enable_persistence(&self) -> (r: bool)
        ensures
            r == self@.enable_persistence,
    {
        self.enable_persistence.is_enabled()
    }
}

impl Default for MetricsConfig {
    fn default() -> (r: Self)
        ensures
            r@ == default_metrics_config(r@.session_id),
            prefixed_uuid_text(r@.session_id, "metrics_"@),
    {
        MetricsConfigBuilder::new().build()
    }
}

/// Builder of a metrics configuration.
#[derive(Debug)]
pub struct MetricsConfigBuilder {
    config: MetricsConfig,
}

impl View for MetricsConfigBuilder {
    type V = MetricsConfigView;

    closed spec fn view(&self) -> MetricsConfigView {
        self.config@
    }
}

impl MetricsConfigBuilder {
    /// The default settings, with a fresh identifier `metrics_<uuid>`.
    pub fn new() -> (r: Self)
        ensures
            r@ == default_metrics_config(r@.session_id),
            prefixed_uuid_text(r@.session_id, "metrics_"@),
    {
        proof {
            reveal_strlit("metrics_");
        }
        MetricsConfigBuilder {
            config: MetricsConfig {
                collect_domain_stats: BooleanFlag::enabled(),
                collect_timing_stats: BooleanFlag::enabled(),
                collect_error_stats: BooleanFlag::enabled(),
                collect_queue_stats: BooleanFlag::enabled(),
                max_domain_entries: LimitValue::new(1000),
                max_error_entries: LimitValue::new(500),
                retention_hours: LimitValue::new(24),
                snapshot_interval_secs: LimitValue::new(60),
                top_domains_count: LimitValue::new(10),
                detailed_reporting: BooleanFlag::enabled(),
                session_id: SessionId::from_string(prefixed_uuid("metrics_")),
                enable_persistence: BooleanFlag::disabled(),
            },
        }
    }

    pub fn with_collection_settings(
        self,
        domain_stats: BooleanFlag,
        timing_stats: BooleanFlag,
        error_stats: BooleanFlag,
        queue_stats: BooleanFlag,
    ) -> (r: Self)
        ensures
            r@ == (MetricsConfigView {
                collect_domain_stats: domain_stats@,
                collect_timing_stats: timing_stats@,
                collect_error_stats: error_stats@,
                collect_queue_stats: queue_stats@,
                ..self@
            }),
    {
        let mut this = self;
        this.config.collect_domain_stats = domain_stats;
        this.config.collect_timing_stats = timing_stats;
        this.config.collect_error_stats = error_stats;
        this.config.collect_queue_stats = queue_stats;
        this
    }

    pub fn with_retention_settings(
        self,
        max_domains: LimitValue,
        max_errors: LimitValue,
        retention_hours: LimitValue,
    ) -> (r: Self)
        ensures
            r@ == (MetricsConfigView {
                max_domain_entries: max_domains@,
                max_error_entries: max_errors@,
                retention_hours: retention_hours@,
                ..self@
            }),
    {
        let mut this = self;
        this.config.max_domain_entries = max_domains;
        this.config.max_error_entries = max_errors;
        this.config.retention_hours = retention_hours;
        this
    }

    pub fn with_reporting_settings(
        self,
        snapshot_interval: LimitValue,
        top_domains_count: LimitValue,
        detailed: BooleanFlag,
    ) -> (r: Self)
        ensures
            r@ == (MetricsConfigView {
                snapshot_interval_secs: snapshot_interval@,
                top_domains_count: top_domains_count@,
                detailed_reporting: detailed@,
                ..self@
            }),
    {
        let mut this = self;
        this.config.snapshot_interval_secs = snapshot_interval;
        this.config.top_domains_count = top_domains_count;
        this.config.detailed_reporting = detailed;
        this
    }

    pub fn with_session_id(self, session_id: SessionId) -> (r: Self)
        ensures
            r@ == (MetricsConfigView { session_id: session_id@, ..self@ }),
    {
        let mut this = self;
        this.config.session_id = session_id;
        this
    }

    pub fn with_persistence(self, enabled: BooleanFlag) -> (r: Self)
        ensures
            r@ == (MetricsConfigView { enable_persistence: enabled@, ..self@ }),
    {
        let mut this = self;
        this.config.enable_persistence = enabled;
        this
    }

    pub fn build(self) -> (r: MetricsConfig)
        ensures
            r@ == self@,
    {
        self.config
    }
}

impl Default for MetricsConfigBuilder {
    fn default() -> (r: Self)
        ensures
            r@ == default_metrics_config(r@.session_id),
            prefixed_uuid_text(r@.session_id, "metrics_"@),
    {
        Self::new()
    }
}

/// Abstract content of error statistics.
pub struct ErrorStatisticsView {
    pub error_counts: Map<Seq<char>, u64>,
    pub total_errors: u64,
    pub first_error_time: Option<u64>,
    pub last_error_time: Option<u64>,
}

/// Counts of errors by type.
#[derive(Debug)]
pub struct ErrorStatistics {
    error_counts: Vec<(String, u64)>,
    total_errors: u64,
    first_error_time: Option<u64>,
    last_error_time: Option<u64>,
}

impl View for ErrorStatistics {
    type V = ErrorStatisticsView;

    closed spec fn view(&self) -> ErrorStatisticsView {
        ErrorStatisticsView {
            error_counts: assoc_view(self.error_counts@),
            total_errors: self.total_errors,
            first_error_time: self.first_error_time,
            last_error_time: self.last_error_time,
        }
    }
}

/// The count of `k` in a count map, zero when absent.
pub open spec fn count_in(m: Map<Seq<char>, u64>, k: Seq<char>) -> int {
    if m.contains_key(k) { m[k] as int } else { 0 }
}

impl ErrorStatistics {
    /// Well-formedness: one count per error type.
    pub closed spec fn wf(&self) -> bool {
        keys_unique(self.error_counts@)
    }

    pub fn new() -> (r: Self)
        ensures
            r.wf(),
            r@.error_counts == Map::<Seq<char>, u64>::empty(),
            r@.total_errors == 0,
            r@.first_error_time is None,
            r@.last_error_time is None,
    {
        let r = ErrorStatistics {
            error_counts: Vec::new(),
            total_errors: 0,
            first_error_time: None,
            last_error_time: None,
        };
        proof {
            assert(assoc_view(r.error_counts@) =~= Map::empty());
        }
        r
    }

    /// Counts an error of the given type, now.
    pub fn record_error(&mut self, error_type: &str)
        requires
            old(self).wf(),
            count_in(old(self)@.error_counts, error_type@) < u64::MAX,
            old(self)@.total_errors < u64::MAX,
        ensures
            final(self).wf(),
            final(self)@.error_counts == old(self)@.error_counts.insert(
                error_type@,
                (count_in(old(self)@.error_counts, error_type@) + 1) as u64,
            ),
            final(self)@.total_errors == old(self)@.total_errors + 1,
            old(self)@.first_error_time is Some ==> final(self)@.first_error_time == old(self)@.first_error_time,
            old(self)@.first_error_time is None ==> final(self)@.first_error_time == final(self)@.last_error_time,
            final(self)@.last_error_time is Some,
    {
        self.record_error_at(error_type, now_millis());
    }

    /// Counts an error of the given type at `now`.
    pub fn record_error_at(&mut self, error_type: &str, now: u64)
        requires
            old(self).wf(),
            count_in(old(self)@.error_counts, error_type@) < u64::MAX,
            old(self)@.total_errors < u64::MAX,
        ensures
            final(self).wf(),
            final(self)@.error_counts == old(self)@.error_counts.insert(
                error_type@,
                (count_in(old(self)@.error_counts, error_type@) + 1) as u64,
            ),
            final(self)@.total_errors == old(self)@.total_errors + 1,
            final(self)@.first_error_time == (match old(self)@.first_error_time {
                Some(t) => Some(t),
                None => Some(now),
            }),
            final(self)@.last_error_time == Some(now),
    {
        let current = match assoc_find(&self.error_counts, error_type) {
            Some(i) => {
                proof {
                    lemma_key_index(self.error_counts@, i as int);
                }
                self.error_counts[i].1
            },
            None => 0,
        };
        assoc_insert(&mut self.error_counts, error_type.to_string(), current + 1);
        self.total_errors = self.total_errors + 1;
        if self.first_error_time.is_none() {
            self.first_error_time = Some(now);
        }
        self.last_error_time = Some(now);
    }

    /// The counts by type, as (type, count) pairs with distinct types.
    pub fn error_counts(&self) -> (r: &Vec<(String, u64)>)
        requires
            self.wf(),
        ensures
            keys_unique(r@),
            assoc_view(r@) == self@.error_counts,
    {
        &self.error_counts
    }

    pub fn total_errors(&self) -> (r: u64)
        ensures
            r == self@.total_errors,
    {
        self.total_errors
    }

    pub fn first_error_time(&self) -> (r: Option<u64>)
        ensures
            r == self@.first_error_time,
    {
        self.first_error_time
    }

    pub fn last_error_time(&self) -> (r: Option<u64>)
        ensures
            r == self@.last_error_time,
    {
        self.last_error_time
    }

    /// The `count` most frequent error types with their counts, most
    /// frequent first. Among equal counts the order is unspecified.
    pub fn top_errors(&self, count: usize) -> (r: Vec<(String, u64)>)
        requires
            self.wf(),
        ensures
            is_top_counts(r@, self@.error_counts, count as int),
    {
        top_by_count(&self.error_counts, count)
    }
}

/// The `count` largest counts of a keyed list, with their keys, largest
/// first. Among equal counts the order is unspecified.
pub fn top_by_count(entries: &Vec<(String, u64)>, count: usize) -> (r: Vec<(String, u64)>)
    requires
        keys_unique(entries@),
    ensures
        is_top_counts(r@, assoc_view(entries@), count as int),
{
    let n = entries.len();
    let mut rest: Vec<(String, u64)> = Vec::new();
    let mut i: usize = 0;
    while i < n
        invariant
            n == entries@.len(),
            keys_unique(entries@),
            i <= n,
            rest@.len() == i,
            forall|j: int| 0 <= j < i ==> #[trigger] rest@[j].0@ == entries@[j].0@
                && rest@[j].1 == entries@[j].1,
        decreases n - i,
    {
        rest.push((entries[i].0.clone(), entries[i].1));
        i = i + 1;
    }
    let ghost m = assoc_view(entries@);
    proof {
        crate::assoc::lemma_assoc_len(entries@);
        assert forall|a: int, b: int| 0 <= a < b < rest@.len() implies #[trigger] rest@[a].0@
            != #[trigger] rest@[b].0@ by {
            assert(entries@[a].0@ != entries@[b].0@);
        }
        assert forall|j: int| 0 <= j < rest@.len() implies #[trigger] m.contains_key(rest@[j].0@)
            && m[rest@[j].0@] == rest@[j].1 by {
            lemma_key_index(entries@, j);
        }
        assert forall|k: Seq<char>| #[trigger] m.contains_key(k) implies has_key(rest@, k) by {
            let j = crate::assoc::key_index(entries@, k);
            assert(rest@[j].0@ == k);
        }
    }
    let mut result: Vec<(String, u64)> = Vec::new();
    while result.len() < count && rest.len() > 0
        invariant
            m.len() == rest@.len() + result@.len(),
            result@.len() <= count,
            keys_unique(rest@),
            keys_unique(result@),
            forall|a: int, b: int| 0 <= a < rest@.len() && 0 <= b < result@.len()
                ==> #[trigger] rest@[a].0@ != #[trigger] result@[b].0@,
            forall|j: int| 0 <= j < rest@.len() ==> #[trigger] m.contains_key(rest@[j].0@)
                && m[rest@[j].0@] == rest@[j].1,
            forall|j: int| 0 <= j < result@.len() ==> #[trigger] m.contains_key(result@[j].0@)
                && m[result@[j].0@] == result@[j].1,
            forall|k: Seq<char>| #[trigger] m.contains_key(k) ==> has_key(rest@, k) || has_key(result@, k),
            forall|a: int, b: int| 0 <= a < b < result@.len() ==> #[trigger] result@[a].1
                >= #[trigger] result@[b].1,
            forall|a: int, b: int| 0 <= a < result@.len() && 0 <= b < rest@.len()
                ==> #[trigger] result@[a].1 >= #[trigger] rest@[b].1,
        decreases rest@.len(),
    {
        let mut best: usize = 0;
        let mut j: usize = 1;
        while j < rest.len()
            invariant
                0 < rest@.len(),
                best < rest@.len(),
                1 <= j <= rest@.len(),
                forall|t: int| 0 <= t < j ==> #[trigger] rest@[t].1 <= rest@[best as int].1,
            decreases rest@.len() - j,
        {
            if rest[j].1 > rest[best].1 {
                best = j;
            }
            j = j + 1;
        }
        let ghost old_rest = rest@;
        let ghost old_result = result@;
        let picked = rest.remove(best);
        proof {
            assert(picked == old_rest[best as int]);
            assert forall|t: int| 0 <= t < rest@.len() implies #[trigger] rest@[t] == old_rest[
                if t < best { t } else { t + 1 }
            ] by {}
        }
        result.push(picked);
        proof {
            let bi = best as int;
            assert forall|a: int, b: int| 0 <= a < b < rest@.len() implies #[trigger] rest@[a].0@
                != #[trigger] rest@[b].0@ by {
                let a2 = if a < bi { a } else { a + 1 };
                let b2 = if b < bi { b } else { b + 1 };
                assert(old_rest[a2].0@ != old_rest[b2].0@);
            }
            assert forall|a: int, b: int| 0 <= a < b < result@.len() implies #[trigger] result@[a].0@
                != #[trigger] result@[b].0@ by {
                if b == result@.len() - 1 {
                    assert(old_rest[bi].0@ != old_result[a].0@);
                } else {
                    assert(old_result[a].0@ != old_result[b].0@);
                }
            }
            assert forall|a: int, b: int| 0 <= a < rest@.len() && 0 <= b < result@.len()
                implies #[trigger] rest@[a].0@ != #[trigger] result@[b].0@ by {
                let a2 = if a < bi { a } else { a + 1 };
                if b == result@.len() - 1 {
                    assert(old_rest[a2].0@ != old_rest[bi].0@);
                } else {
                    assert(old_rest[a2].0@ != old_result[b].0@);
                }
            }
            assert forall|t: int| 0 <= t < rest@.len() implies #[trigger] m.contains_key(rest@[t].0@)
                && m[rest@[t].0@] == rest@[t].1 by {
                let t2 = if t < bi { t } else { t + 1 };
                assert(m.contains_key(old_rest[t2].0@));
            }
            assert forall|t: int| 0 <= t < result@.len() implies #[trigger] m.contains_key(result@[t].0@)
                && m[result@[t].0@] == result@[t].1 by {
                if t == result@.len() - 1 {
                    assert(m.contains_key(old_rest[bi].0@));
                } else {
                    assert(m.contains_key(old_result[t].0@));
                }
            }
            assert forall|k: Seq<char>| #[trigger] m.contains_key(k) implies has_key(rest@, k) || has_key(
                result@,
                k,
            ) by {
                if has_key(old_rest, k) {
                    let w = choose|w: int| 0 <= w < old_rest.len() && #[trigger] old_rest[w].0@ == k;
                    if w == bi {
                        assert(result@[result@.len() - 1].0@ == k);
                    } else {
                        let w2 = if w < bi { w } else { w - 1 };
                        assert(rest@[w2].0@ == k);
                    }
                } else {
                    let w = choose|w: int| 0 <= w < old_result.len() && #[trigger] old_result[w].0@ == k;
                    assert(result@[w].0@ == k);
                }
            }
            assert forall|a: int, b: int| 0 <= a < b < result@.len() implies #[trigger] result@[a].1
                >= #[trigger] result@[b].1 by {
                if b == result@.len() - 1 {
                    assert(old_result[a].1 >= old_rest[bi].1);
                } else {
                    assert(old_result[a].1 >= old_result[b].1);
                }
            }
            assert forall|a: int, b: int| 0 <= a < result@.len() && 0 <= b < rest@.len()
                implies #[trigger] result@[a].1 >= #[trigger] rest@[b].1 by {
                let b2 = if b < bi { b } else { b + 1 };
                if a == result@.len() - 1 {
                    assert(old_rest[b2].1 <= old_rest[bi].1);
                } else {
                    assert(old_result[a].1 >= old_rest[b2].1);
                }
            }
        }
    }
    proof {
        assert forall|k: Seq<char>| #[trigger] m.contains_key(k) && !has_key(result@, k) implies (
        forall|j: int| 0 <= j < result@.len() ==> m[k] <= #[trigger] result@[j].1) by {
            let w = choose|w: int| 0 <= w < rest@.len() && #[trigger] rest@[w].0@ == k;
            assert forall|j: int| 0 <= j < result@.len() implies m[k] <= #[trigger] result@[j].1 by {
                assert(result@[j].1 >= rest@[w].1);
            }
        }
    }
    result
}

/// `r` lists the `count` largest counts of `m` (all of them when there are
/// fewer), each with its type, types distinct, largest first; every type
/// left out counts no more than any listed one.
pub open spec fn is_top_counts(r: Seq<(String, u64)>, m: Map<Seq<char>, u64>, count: int) -> bool {
    &&& r.len() == (if count < m.len() { count } else { m.len() as int })
    &&& forall|a: int, b: int| 0 <= a < b < r.len() ==> #[trigger] r[a].0@ != #[trigger] r[b].0@
    &&& forall|j: int| 0 <= j < r.len() ==> #[trigger] m.contains_key(r[j].0@) && m[r[j].0@] == r[j].1
    &&& forall|a: int, b: int| 0 <= a < b < r.len() ==> #[trigger] r[a].1 >= #[trigger] r[b].1
    &&& forall|k: Seq<char>| #[trigger] m.contains_key(k) && !has_key(r, k) ==> (forall|j: int|
        0 <= j < r.len() ==> m[k] <= #[trigger] r[j].1)
}

impl Default for ErrorStatistics {
    fn default() -> (r: Self)
        ensures
            r.wf(),
            r@.error_counts == Map::<Seq<char>, u64>::empty(),
            r@.total_errors == 0,
    {
        Self::new()
    }
}

/// Counts of queue operations.
#[derive(Clone, Copy, Debug)]
pub struct QueueMetrics {
    tasks_enqueued: u64,
    tasks_completed: u64,
    tasks_failed: u64,
    tasks_retried: u64,
}

/// Abstract content of queue metrics.
pub struct QueueMetricsView {
    pub tasks_enqueued: u64,
    pub tasks_completed: u64,
    pub tasks_failed: u64,
    pub tasks_retried: u64,
}

impl View for QueueMetrics {
    type V = QueueMetricsView;

    closed spec fn view(&self) -> QueueMetricsView {
        QueueMetricsView {
            tasks_enqueued: self.tasks_enqueued,
            tasks_completed: self.tasks_completed,
            tasks_failed: self.tasks_failed,
            tasks_retried: self.tasks_retried,
        }
    }
}

impl QueueMetrics {
    pub fn new() -> (r: Self)
        ensures
            r@ == (QueueMetricsView { tasks_enqueued: 0, tasks_completed: 0, tasks_failed: 0, tasks_retried: 0 }),
    {
        QueueMetrics { tasks_enqueued: 0, tasks_completed: 0, tasks_failed: 0, tasks_retried: 0 }
    }

    /// Counts an enqueued task; the count wraps around at the top, as an
    /// atomic add does.
    pub fn record_enqueued(&mut self)
        ensures
            final(self)@ == (QueueMetricsView {
                tasks_enqueued: old(self)@.tasks_enqueued.wrapping_add(1),
                ..old(self)@
            }),
    {
        self.tasks_enqueued = self.tasks_enqueued.wrapping_add(1);
    }

    pub fn record_completed(&mut self)
        ensures
            final(self)@ == (QueueMetricsView {
                tasks_completed: old(self)@.tasks_completed.wrapping_add(1),
                ..old(self)@
            }),
    {
        self.tasks_completed = self.tasks_completed.wrapping_add(1);
    }

    pub fn record_failed(&mut self)
        ensures
            final(self)@ == (QueueMetricsView {
                tasks_failed: old(self)@.tasks_failed.wrapping_add(1),
                ..old(self)@
            }),
    {
        self.tasks_failed = self.tasks_failed.wrapping_add(1);
    }

    pub fn record_retried(&mut self)
        ensures
            final(self)@ == (QueueMetricsView {
                tasks_retried: old(self)@.tasks_retried.wrapping_add(1),
                ..old(self)@
            }),
    {
        self.tasks_retried = self.tasks_retried.wrapping_add(1);
    }

    pub fn tasks_enqueued(&self) -> (r: u64)
        ensures
            r == self@.tasks_enqueued,
    {
        self.tasks_enqueued
    }

    pub fn tasks_completed(&self) -> (r: u64)
        ensures
            r == self@.tasks_completed,
    {
        self.tasks_completed
    }

    pub fn tasks_failed(&self) -> (r: u64)
        ensures
            r == self@.tasks_failed,
    {
        self.tasks_failed
    }

    pub fn tasks_retried(&self) -> (r: u64)
        ensures
            r == self@.tasks_retried,
    {
        self.tasks_retried
    }
}

impl Default for QueueMetrics {
    fn default() -> (r: Self)
        ensures
            r@ == (QueueMetricsView { tasks_enqueued: 0, tasks_completed: 0, tasks_failed: 0, tasks_retried: 0 }),
    {
        Self::new()
    }
}

/// Request counters of a crawl, read without a full snapshot.
#[derive(Clone, Copy, Debug)]
pub struct BasicMetricsStats {
    uptime_secs: u64,
    total_requests: u64,
    successful_requests: u64,
    failed_requests: u64,
    total_bytes: u64,
}

/// Abstract content of basic metrics.
pub struct BasicMetricsStatsView {
    pub uptime_secs: u64,
    pub total_requests: u64,
    pub successful_requests: u64,
    pub failed_requests: u64,
    pub total_bytes: u64,
}

impl View for BasicMetricsStats {
    type V = BasicMetricsStatsView;

    closed spec fn view(&self) -> BasicMetricsStatsView {
        BasicMetricsStatsView {
            uptime_secs: self.uptime_secs,
            total_requests: self.total_requests,
            successful_requests: self.successful_requests,
            failed_requests: self.failed_requests,
            total_bytes: self.total_bytes,
        }
    }
}

impl BasicMetricsStats {
    pub fn uptime_secs(&self) -> (r: u64)
        ensures
            r == self@.uptime_secs,
    {
        self.uptime_secs
    }

    pub fn total_requests(&self) -> (r: u64)
        ensures
            r == self@.total_requests,
    {
        self.total_requests
    }

    pub fn successful_requests(&self) -> (r: u64)
        ensures
            r == self@.successful_requests,
    {
        self.successful_requests
    }

    pub fn failed_requests(&self) -> (r: u64)
        ensures
            r == self@.failed_requests,
    {
        self.failed_requests
    }

    pub fn total_bytes(&self) -> (r: u64)
        ensures
            r == self@.total_bytes,
    {
        self.total_bytes
    }
}

/// Abstract content of the crawler's metrics.
pub struct CrawlerMetricsView {
    pub config: MetricsConfigView,
    pub start_time: u64,
    pub total_requests: u64,
    pub successful_requests: u64,
    pub failed_requests: u64,
    pub total_bytes: u64,
    pub errors: ErrorStatisticsView,
    pub queue: QueueMetricsView,
}

/// The crawler's request, error and queue metrics. Counters wrap around at
/// the top, as the atomic adds they stand for do.
#[derive(Debug)]
pub struct CrawlerMetrics {
    config: MetricsConfig,
    start_time: u64,
    total_requests: u64,
    successful_requests: u64,
    failed_requests: u64,
    total_bytes: u64,
    error_statistics: ErrorStatistics,
    queue_metrics: QueueMetrics,
}

impl View for CrawlerMetrics {
    type V = CrawlerMetricsView;

    closed spec fn view(&self) -> CrawlerMetricsView {
        CrawlerMetricsView {
            config: self.config@,
            start_time: self.start_time,
            total_requests: self.total_requests,
            successful_requests: self.successful_requests,
            failed_requests: self.failed_requests,
            total_bytes: self.total_bytes,
            errors: self.error_statistics@,
            queue: self.queue_metrics@,
        }
    }
}

impl CrawlerMetrics {
    /// Well-formedness of the error statistics.
    pub closed spec fn wf(&self) -> bool {
        self.error_statistics.wf()
    }

    /// Fresh metrics starting at `now`.
    pub fn new(config: MetricsConfig, now: u64) -> (r: Self)
        ensures
            r.wf(),
            r@.config == config@,
            r@.start_time == now,
            r@.total_requests == 0,
            r@.successful_requests == 0,
            r@.failed_requests == 0,
            r@.total_bytes == 0,
            r@.errors.error_counts == Map::<Seq<char>, u64>::empty(),
            r@.errors.total_errors == 0,
            r@.queue == (QueueMetricsView { tasks_enqueued: 0, tasks_completed: 0, tasks_failed: 0, tasks_retried: 0 }),
    {
        CrawlerMetrics {
            config,
            start_time: now,
            total_requests: 0,
            successful_requests: 0,
            failed_requests: 0,
            total_bytes: 0,
            error_statistics: ErrorStatistics::new(),
            queue_metrics: QueueMetrics::new(),
        }
    }

    pub fn config(&self) -> (r: &MetricsConfig)
        ensures
            r@ == self@.config,
    {
        &self.config
    }

    /// Counts a successful request of `bytes` bytes.
    pub fn record_success(&mut self, bytes: u64)
        ensures
            final(self).wf() == old(self).wf(),
            final(self)@ == (CrawlerMetricsView {
                total_requests: old(self)@.total_requests.wrapping_add(1),
                successful_requests: old(self)@.successful_requests.wrapping_add(1),
                total_bytes: old(self)@.total_bytes.wrapping_add(bytes),
                ..old(self)@
            }),
    {
        self.total_requests = self.total_requests.wrapping_add(1);
        self.successful_requests = self.successful_requests.wrapping_add(1);
        self.total_bytes = self.total_bytes.wrapping_add(bytes);
    }

    /// Counts a failed request; when error statistics are collected the
    /// error's type is counted too.
    pub fn record_failure(&mut self, error: &TaskError)
        requires
            old(self).wf(),
            count_in(old(self)@.errors.error_counts, crate::common::task_error_kind_name(error@.kind)) < u64::MAX,
            old(self)@.errors.total_errors < u64::MAX,
        ensures
            final(self).wf(),
            final(self)@.total_requests == old(self)@.total_requests.wrapping_add(1),
            final(self)@.failed_requests == old(self)@.failed_requests.wrapping_add(1),
            final(self)@.successful_requests == old(self)@.successful_requests,
            final(self)@.total_bytes == old(self)@.total_bytes,
            final(self)@.queue == old(self)@.queue,
            final(self)@.config == old(self)@.config,
            !old(self)@.config.collect_error_stats ==> final(self)@.errors == old(self)@.errors,
            old(self)@.config.collect_error_stats ==> final(self)@.errors.error_counts
                == old(self)@.errors.error_counts.insert(
                crate::common::task_error_kind_name(error@.kind),
                (count_in(old(self)@.errors.error_counts, crate::common::task_error_kind_name(error@.kind))
                    + 1) as u64,
            ) && final(self)@.errors.total_errors == old(self)@.errors.total_errors + 1,
    {
        self.total_requests = self.total_requests.wrapping_add(1);
        self.failed_requests = self.failed_requests.wrapping_add(1);
        if self.config.should_collect_error_stats() {
            self.error_statistics.record_error(error.error_type());
        }
    }

    pub fn record_task_enqueued(&mut self)
        ensures
            final(self).wf() == old(self).wf(),
            old(self)@.config.collect_queue_stats ==> final(self)@ == (CrawlerMetricsView {
                queue: QueueMetricsView {
                    tasks_enqueued: old(self)@.queue.tasks_enqueued.wrapping_add(1),
                    ..old(self)@.queue
                },
                ..old(self)@
            }),
            !old(self)@.config.collect_queue_stats ==> final(self)@ == old(self)@,
    {
        if self.config.should_collect_queue_stats() {
            self.queue_metrics.record_enqueued();
        }
    }

    pub fn record_task_completed(&mut self)
        ensures
            final(self).wf() == old(self).wf(),
            old(self)@.config.collect_queue_stats ==> final(self)@ == (CrawlerMetricsView {
                queue: QueueMetricsView {
                    tasks_completed: old(self)@.queue.tasks_completed.wrapping_add(1),
                    ..old(self)@.queue
                },
                ..old(self)@
            }),
            !old(self)@.config.collect_queue_stats ==> final(self)@ == old(self)@,
    {
        if self.config.should_collect_queue_stats() {
            self.queue_metrics.record_completed();
        }
    }

    pub fn record_task_failed(&mut self)
        ensures
            final(self).wf() == old(self).wf(),
            old(self)@.config.collect_queue_stats ==> final(self)@ == (CrawlerMetricsView {
                queue: QueueMetricsView {
                    tasks_failed: old(self)@.queue.tasks_failed.wrapping_add(1),
                    ..old(self)@.queue
                },
                ..old(self)@
            }),
            !old(self)@.config.collect_queue_stats ==> final(self)@ == old(self)@,
    {
        if self.config.should_collect_queue_stats() {
            self.queue_metrics.record_failed();
        }
    }

    pub fn record_task_retried(&mut self)
        ensures
            final(self).wf() == old(self).wf(),
            old(self)@.config.collect_queue_stats ==> final(self)@ == (CrawlerMetricsView {
                queue: QueueMetricsView {
                    tasks_retried: old(self)@.queue.tasks_retried.wrapping_add(1),
                    ..old(self)@.queue
                },
                ..old(self)@
            }),
            !old(self)@.config.collect_queue_stats ==> final(self)@ == old(self)@,
    {
        if self.config.should_collect_queue_stats() {
            self.queue_metrics.record_retried();
        }
    }

    /// Clears the request counters and the error statistics.
    pub fn reset(&mut self)
        ensures
            final(self).wf(),
            final(self)@.total_requests == 0,
            final(self)@.successful_requests == 0,
            final(self)@.failed_requests == 0,
            final(self)@.total_bytes == 0,
            final(self)@.errors.error_counts == Map::<Seq<char>, u64>::empty(),
            final(self)@.errors.total_errors == 0,
            final(self)@.errors.first_error_time is None,
            final(self)@.queue == old(self)@.queue,
            final(self)@.config == old(self)@.config,
            final(self)@.start_time == old(self)@.start_time,
    {
        self.total_requests = 0;
        self.successful_requests = 0;
        self.failed_requests = 0;
        self.total_bytes = 0;
        self.error_statistics = ErrorStatistics::new();
    }

    /// The counters, with the whole seconds elapsed from the start to `now`.
    pub fn basic_stats(&self, now: u64) -> (r: BasicMetricsStats)
        ensures
            r@ == (BasicMetricsStatsView {
                uptime_secs: (if now >= self@.start_time { (now - self@.start_time) / 1000 } else { 0 }) as u64,
                total_requests: self@.total_requests,
                successful_requests: self@.successful_requests,
                failed_requests: self@.failed_requests,
                total_bytes: self@.total_bytes,
            }),
    {
        let elapsed = if now >= self.start_time { now - self.start_time } else { 0 };
        BasicMetricsStats {
            uptime_secs: elapsed / 1000,
            total_requests: self.total_requests,
            successful_requests: self.successful_requests,
            failed_requests: self.failed_requests,
            total_bytes: self.total_bytes,
        }
    }

    /// The queue counters.
    pub fn queue_metrics(&self) -> (r: &QueueMetrics)
        ensures
            r@ == self@.queue,
    {
        &self.queue_metrics
    }

    /// The `count` most frequent error types.
    pub fn top_errors(&self, count: usize) -> (r: Vec<(String, u64)>)
        requires
            self.wf(),
        ensures
            is_top_counts(r@, self@.errors.error_counts, count as int),
    {
        self.error_statistics.top_errors(count)
    }
}

} // verus!
