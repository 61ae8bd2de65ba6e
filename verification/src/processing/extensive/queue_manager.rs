//! The queue of pages found by extensive crawling: turning processed
//! links as crawl tasks (once per hour per URL, within the queue size),
//! discovery statistics, and ordering the queue by priority.
use vstd::prelude::*;
use crate::assoc::{assoc_get, assoc_insert, assoc_view, keys_unique};
use crate::crawl_core::error::CrawlError;
use crate::crawl_core::types::{CrawlTask, TaskPriority, TaskStatus};
use crate::processing::extensive::config::{ExtensiveConfig, PriorityThresholds};
use crate::processing::extensive::link_processor::{processed_view, LinkCategory, ProcessedLink, ProcessedLinkView};
use crate::queue::task_queue::{copy_tasks, same_tasks};
use crate::web_url::{parse_url, url_parse_result};

verus! {

/// How many discovered links fell in each category.
#[derive(Debug, Clone, Copy, PartialEq, Eq, Structural)]
pub struct CategoryCounts {
    pub internal: usize,
    pub external: usize,
    pub resource: usize,
    pub document: usize,
    pub media: usize,
    pub other: usize,
}

/// Statistics of link discovery.
#[derive(Debug, Clone, Copy, PartialEq, Eq, Structural)]
pub struct DiscoveryStats {
    pub total_discovered: usize,
    pub queued: usize,
    pub filtered: usize,
    pub categories: CategoryCounts,
    /// The average priority is this divided by `total_discovered`: each new
    /// link adds its priority to the previous average's integer part times
    /// the number of links before it.
    pub priority_numerator: u64,
    /// The discovery rate is `rate_links / rate_pages` (links per page), as
    /// of the last page finished; zero before any.
    pub rate_links: usize,
    pub rate_pages: usize,
}

pub open spec fn zero_stats() -> DiscoveryStats {
    DiscoveryStats {
        total_discovered: 0,
        queued: 0,
        filtered: 0,
        categories: CategoryCounts { internal: 0, external: 0, resource: 0, document: 0, media: 0, other: 0 },
        priority_numerator: 0,
        rate_links: 0,
        rate_pages: 0,
    }
}

impl Default for DiscoveryStats {
    fn default() -> (r: Self)
        ensures
            r == zero_stats(),
    {
        DiscoveryStats {
            total_discovered: 0,
            queued: 0,
            filtered: 0,
            categories: CategoryCounts { internal: 0, external: 0, resource: 0, document: 0, media: 0, other: 0 },
            priority_numerator: 0,
            rate_links: 0,
            rate_pages: 0,
        }
    }
}

/// The queue size and how many links were queued and refused.
#[derive(Debug, Clone, Copy, PartialEq, Eq, Structural)]
pub struct QueueStatus {
    pub total_queued: usize,
    pub processed: usize,
    pub failed: usize,
}

/// What became of one processed link.
#[derive(Debug, Clone, Copy, PartialEq, Eq, Structural)]
pub enum Admission {
    /// Queued as a crawl task.
    Queued,
    /// Not to be crawled, or crawled less than an hour ago.
    Skipped,
    /// The queue is full: this and later links are not considered.
    QueueFull,
}

/// How a batch of links ended.
pub enum BatchEnd {
    Done,
    Full,
    Invalid(Seq<char>),
}

/// The abstract state: the queued tasks' URLs and priorities, when each
/// URL was last queued, the statistics and the pages processed.
pub struct ManagerModel {
    pub keys: Seq<(Seq<char>, TaskPriority)>,
    pub recent: Map<Seq<char>, u64>,
    pub stats: DiscoveryStats,
    pub pages: usize,
}

pub open spec fn task_keys(q: Seq<CrawlTask>) -> Seq<(Seq<char>, TaskPriority)> {
    q.map_values(|t: CrawlTask| (t.url@, t.priority))
}

pub open spec fn category_total(c: CategoryCounts) -> int {
    c.internal + c.external + c.resource + c.document + c.media + c.other
}

pub open spec fn bumped(c: CategoryCounts, cat: LinkCategory) -> CategoryCounts {
    match cat {
        LinkCategory::Internal => CategoryCounts { internal: (c.internal + 1) as usize, ..c },
        LinkCategory::External => CategoryCounts { external: (c.external + 1) as usize, ..c },
        LinkCategory::Resource => CategoryCounts { resource: (c.resource + 1) as usize, ..c },
        LinkCategory::Document => CategoryCounts { document: (c.document + 1) as usize, ..c },
        LinkCategory::Media => CategoryCounts { media: (c.media + 1) as usize, ..c },
        LinkCategory::Other => CategoryCounts { other: (c.other + 1) as usize, ..c },
    }
}

/// The integer part of the average priority.
pub open spec fn average_floor(s: DiscoveryStats) -> int {
    if s.total_discovered == 0 {
        0
    } else {
        (s.priority_numerator / (s.total_discovered as u64)) as int
    }
}

/// The statistics with one more discovered link counted.
pub open spec fn counted(s: DiscoveryStats, cat: LinkCategory, priority: u8) -> DiscoveryStats {
    DiscoveryStats {
        total_discovered: (s.total_discovered + 1) as usize,
        categories: bumped(s.categories, cat),
        priority_numerator: (average_floor(s) * s.total_discovered + priority) as u64,
        ..s
    }
}

/// The statistics hold together: every discovered link is counted in one
/// category and at most once as queued or filtered, and the average
/// priority is at most 255.
pub open spec fn stats_consistent(s: DiscoveryStats) -> bool {
    &&& s.queued + s.filtered <= s.total_discovered
    &&& category_total(s.categories) == s.total_discovered
    &&& s.priority_numerator <= 255 * s.total_discovered
}

/// The task priority a link priority maps to under the thresholds.
pub open spec fn mapped_priority(t: PriorityThresholds, p: u8) -> TaskPriority {
    if p <= t.low_threshold {
        TaskPriority::Low
    } else if p <= t.normal_threshold {
        TaskPriority::Normal
    } else if p <= t.high_threshold {
        TaskPriority::High
    } else {
        TaskPriority::Critical
    }
}

/// Room to count `k` more links: the total stays below 2^56 (so that the
/// priority sums fit in a `u64`) and fits in a `usize`.
pub open spec fn count_room(total: int, k: int) -> bool {
    total + k < 0x0100_0000_0000_0000 && total + k <= usize::MAX
}

/// An entry recorded less than `max_age` milliseconds before `now`.
pub open spec fn young(now: u64, max_age: u64) -> spec_fn((String, u64)) -> bool {
    |e: (String, u64)| age(now, e.1) < max_age
}

/// Milliseconds from `then` to `now`, zero when `then` is later.
pub open spec fn age(now: u64, then: u64) -> int {
    if now >= then { now - then } else { 0 }
}

/// The URL was queued less than an hour before `start`.
pub open spec fn queued_recently(recent: Map<Seq<char>, u64>, url: Seq<char>, start: u64) -> bool {
    recent.contains_key(url) && age(start, recent[url]) < 3_600_000
}

pub open spec fn with_filtered(m: ManagerModel) -> ManagerModel {
    ManagerModel { stats: DiscoveryStats { filtered: (m.stats.filtered + 1) as usize, ..m.stats }, ..m }
}

/// One processed link considered at `start`: counted in the statistics,
/// then skipped (not to be crawled, or queued within the hour), refused
/// (queue full), rejected (its URL does not parse), or queued with the
/// priority its score maps to.
pub open spec fn consider_link(c: ExtensiveConfig, m: ManagerModel, l: ProcessedLinkView, start: u64) -> (ManagerModel, Option<
    Admission,
>) {
    let m1 = ManagerModel { stats: counted(m.stats, l.category, l.priority), ..m };
    if !l.should_crawl {
        (with_filtered(m1), Some(Admission::Skipped))
    } else if queued_recently(m.recent, l.normalized_url, start) {
        (with_filtered(m1), Some(Admission::Skipped))
    } else if c.max_queue_size matches Some(max) && m.keys.len() >= max {
        (m1, Some(Admission::QueueFull))
    } else if url_parse_result(l.normalized_url) is Err {
        (m1, None)
    } else {
        (
            ManagerModel {
                keys: m1.keys.push((l.normalized_url, mapped_priority(c.priority_thresholds, l.priority))),
                recent: m1.recent.insert(l.normalized_url, start),
                stats: DiscoveryStats { queued: (m1.stats.queued + 1) as usize, ..m1.stats },
                ..m1
            },
            Some(Admission::Queued),
        )
    }
}

/// The links considered in order until the queue is full or a URL does
/// not parse: the state after, how many were queued, and how it ended.
pub open spec fn consider_links(c: ExtensiveConfig, m: ManagerModel, links: Seq<ProcessedLinkView>, start: u64) -> (
    ManagerModel,
    nat,
    BatchEnd,
)
    decreases links.len(),
{
    if links.len() == 0 {
        (m, 0, BatchEnd::Done)
    } else {
        let (m1, a) = consider_link(c, m, links[0], start);
        match a {
            None => (m1, 0, BatchEnd::Invalid(links[0].normalized_url)),
            Some(Admission::QueueFull) => (m1, 0, BatchEnd::Full),
            Some(Admission::Skipped) => consider_links(c, m1, links.drop_first(), start),
            Some(Admission::Queued) => {
                let (m2, n, e) = consider_links(c, m1, links.drop_first(), start);
                (m2, n + 1, e)
            },
        }
    }
}

/// The state once a page is finished: one more page, and the discovery
/// rate taken.
pub open spec fn finished(m: ManagerModel) -> ManagerModel {
    ManagerModel {
        pages: (m.pages + 1) as usize,
        stats: DiscoveryStats {
            rate_links: m.stats.total_discovered,
            rate_pages: (m.pages + 1) as usize,
            ..m.stats
        },
        ..m
    }
}

/// A task as queued from a link: pending, never tried, three retries.
pub open spec fn fresh_task(t: CrawlTask) -> bool {
    &&& t.status == TaskStatus::Pending
    &&& t.attempt_count == 0
    &&& t.max_retries == 3
    &&& t.started_at is None
    &&& t.last_attempt_at is None
    &&& t.delay_until is None
    &&& t.error_message is None
}

/// A URL just queued is skipped when it comes again within the hour.
pub proof fn lemma_no_requeue_within_hour(
    c: ExtensiveConfig,
    m: ManagerModel,
    first: ProcessedLinkView,
    again: ProcessedLinkView,
    s1: u64,
    s2: u64,
)
    requires
        consider_link(c, m, first, s1).1 == Some(Admission::Queued),
        again.normalized_url == first.normalized_url,
        s1 <= s2 < s1 + 3_600_000,
    ensures
        consider_link(c, consider_link(c, m, first, s1).0, again, s2).1 == Some(Admission::Skipped),
{
    let m1 = consider_link(c, m, first, s1).0;
    assert(m1.recent.contains_key(first.normalized_url));
    assert(m1.recent[first.normalized_url] == s1);
}

/// Considering a link never takes the queue past `max_queue_size`.
pub proof fn lemma_queue_within_limit(c: ExtensiveConfig, m: ManagerModel, l: ProcessedLinkView, start: u64)
    requires
        c.max_queue_size matches Some(max) && m.keys.len() <= max,
    ensures
        consider_link(c, m, l, start).0.keys.len() <= c.max_queue_size->0,
{
}

/// The tasks of one priority, in their order.
pub open spec fn with_task_priority(q: Seq<CrawlTask>, p: TaskPriority) -> Seq<CrawlTask> {
    q.filter(|t: CrawlTask| t.priority == p)
}

/// The tasks by priority, highest first, keeping their order within a
/// priority.
pub open spec fn tasks_by_priority(q: Seq<CrawlTask>) -> Seq<CrawlTask> {
    with_task_priority(q, TaskPriority::Critical) + with_task_priority(q, TaskPriority::High) + with_task_priority(
        q,
        TaskPriority::Normal,
    ) + with_task_priority(q, TaskPriority::Low)
}

/// The entries at or after index `from` of a list with distinct keys stay
/// distinct when some are left out.
proof fn lemma_filter_keys_unique(s: Seq<(String, u64)>, f: spec_fn((String, u64)) -> bool)
    requires
        keys_unique(s),
    ensures
        keys_unique(s.filter(f)),
    decreases s.len(),
{
    reveal(Seq::filter);
    if s.len() > 0 {
        let d = s.drop_last();
        assert(keys_unique(d)) by {
            assert forall|i: int, j: int| 0 <= i < j < d.len() implies #[trigger] d[i].0@ != #[trigger] d[j].0@ by {
                assert(d[i] == s[i] && d[j] == s[j]);
            }
        }
        lemma_filter_keys_unique(d, f);
        let sub = d.filter(f);
        if f(s.last()) {
            let t = sub.push(s.last());
            assert(s.filter(f) == t);
            assert forall|i: int, j: int| 0 <= i < j < t.len() implies #[trigger] t[i].0@ != #[trigger] t[j].0@ by {
                if j == t.len() - 1 {
                    assert(t[i] == sub[i]);
                    assert(sub.contains(sub[i]));
                    d.lemma_filter_contains_rev(f, sub[i]);
                    let k = choose|k: int| 0 <= k < d.len() && d[k] == sub[i];
                    assert(s[k] == d[k]);
                    assert(s[k].0@ != s[s.len() - 1].0@);
                } else {
                    assert(t[i] == sub[i] && t[j] == sub[j]);
                }
            }
        }
    }
}

proof fn lemma_floor_bound(num: u64, n: u64)
    requires
        n > 0,
        num <= 255 * n,
        n < 0x0100_0000_0000_0000,
    ensures
        num / n <= 255,
        (num / n) * n + 255 <= u64::MAX,
        (num / n) * n + 255 <= 255 * (n + 1),
{
    assert(num / n <= 255) by (nonlinear_arith)
        requires
            n > 0,
            num <= 255 * n,
    ;
    assert((num / n) * n <= 255 * n) by (nonlinear_arith)
        requires
            num / n <= 255,
            n > 0,
    ;
}

/// Holds the crawl tasks of extensive crawling.
#[derive(Debug)]
pub struct ExtensiveQueueManager {
    config: ExtensiveConfig,
    queue: Vec<CrawlTask>,
    recent: Vec<(String, u64)>,
    stats: DiscoveryStats,
    pages_processed: usize,
}

impl ExtensiveQueueManager {
    pub closed spec fn model(&self) -> ManagerModel {
        ManagerModel {
            keys: task_keys(self.queue@),
            recent: assoc_view(self.recent@),
            stats: self.stats,
            pages: self.pages_processed,
        }
    }

    pub closed spec fn config_spec(&self) -> ExtensiveConfig {
        self.config
    }

    pub closed spec fn queue_spec(&self) -> Seq<CrawlTask> {
        self.queue@
    }

    pub closed spec fn wf(&self) -> bool {
        &&& keys_unique(self.recent@)
        &&& stats_consistent(self.stats)
    }

    /// An empty queue with empty statistics.
    pub fn new(config: ExtensiveConfig) -> (r: Result<Self, CrawlError>)
        ensures
            r matches Ok(m) && {
                &&& m.wf()
                &&& m.config_spec() == config
                &&& m.queue_spec().len() == 0
                &&& m.model().recent.is_empty()
                &&& m.model().stats == zero_stats()
                &&& m.model().pages == 0
            },
    {
        let m = ExtensiveQueueManager {
            config,
            queue: Vec::new(),
            recent: Vec::new(),
            stats: DiscoveryStats::default(),
            pages_processed: 0,
        };
        proof {
            assert(assoc_view(m.recent@) =~= Map::<Seq<char>, u64>::empty());
        }
        Ok(m)
    }

    pub closed spec fn recent_spec(&self) -> Seq<(String, u64)> {
        self.recent@
    }

    pub fn config(&self) -> (r: &ExtensiveConfig)
        ensures
            *r == self.config_spec(),
    {
        &self.config
    }

    /// The number of pages finished since the last reset.
    pub fn pages_processed(&self) -> (r: usize)
        ensures
            r == self.model().pages,
    {
        self.pages_processed
    }

    /// Counts one discovered link in the statistics.
    fn count_link(&mut self, category: LinkCategory, priority: u8)
        requires
            stats_consistent(old(self).stats),
            count_room(old(self).stats.total_discovered as int, 1),
        ensures
            final(self).stats == counted(old(self).stats, category, priority),
            stats_consistent(final(self).stats),
            final(self).queue@ == old(self).queue@,
            final(self).recent@ == old(self).recent@,
            final(self).config == old(self).config,
            final(self).pages_processed == old(self).pages_processed,
    {
        let n = self.stats.total_discovered as u64;
        let floor: u64 = if n == 0 {
            0
        } else {
            proof {
                lemma_floor_bound(self.stats.priority_numerator, n);
            }
            self.stats.priority_numerator / n
        };
        proof {
            if n > 0 {
                lemma_floor_bound(self.stats.priority_numerator, n);
            }
        }
        let numerator = floor * n + priority as u64;
        let mut cats = self.stats.categories;
        match category {
            LinkCategory::Internal => cats.internal = cats.internal + 1,
            LinkCategory::External => cats.external = cats.external + 1,
            LinkCategory::Resource => cats.resource = cats.resource + 1,
            LinkCategory::Document => cats.document = cats.document + 1,
            LinkCategory::Media => cats.media = cats.media + 1,
            LinkCategory::Other => cats.other = cats.other + 1,
        }
        self.stats.total_discovered = self.stats.total_discovered + 1;
        self.stats.categories = cats;
        self.stats.priority_numerator = numerator;
    }

    /// Considers one processed link at time `start` (see `consider_link`);
    /// an unparsable URL is an error.
    pub fn add_link(&mut self, link: ProcessedLink, start: u64) -> (r: Result<Admission, CrawlError>)
        requires
            old(self).wf(),
            count_room(old(self).model().stats.total_discovered as int, 1),
        ensures
            final(self).wf(),
            final(self).config_spec() == old(self).config_spec(),
            ({
                let (m, a) = consider_link(old(self).config_spec(), old(self).model(), link@, start);
                &&& final(self).model() == m
                &&& match a {
                    Some(x) => r == Ok::<Admission, CrawlError>(x),
                    None => r matches Err(CrawlError::InvalidUrl(u)) && u@ == link@.normalized_url,
                }
            }),
            r == Ok::<Admission, CrawlError>(Admission::Queued) ==> final(self).queue_spec().drop_last() == old(
                self,
            ).queue_spec() && final(self).queue_spec().len() == old(self).queue_spec().len() + 1 && fresh_task(
                final(self).queue_spec().last(),
            ),
            r != Ok::<Admission, CrawlError>(Admission::Queued) ==> final(self).queue_spec() == old(self).queue_spec(),
    {
        let ghost m0 = self.model();
        self.count_link(link.category, link.priority);
        if !link.should_crawl {
            self.stats.filtered = self.stats.filtered + 1;
            return Ok(Admission::Skipped);
        }
        match assoc_get(&self.recent, link.normalized_url.as_str()) {
            Some(t) => {
                let elapsed = if start >= *t { start - *t } else { 0 };
                if elapsed < 3_600_000 {
                    self.stats.filtered = self.stats.filtered + 1;
                    return Ok(Admission::Skipped);
                }
            },
            None => {},
        }
        match self.config.max_queue_size {
            Some(max) => {
                if self.queue.len() >= max {
                    return Ok(Admission::QueueFull);
                }
            },
            None => {},
        }
        let th = self.config.priority_thresholds;
        let priority = if link.priority <= th.low_threshold {
            TaskPriority::Low
        } else if link.priority <= th.normal_threshold {
            TaskPriority::Normal
        } else if link.priority <= th.high_threshold {
            TaskPriority::High
        } else {
            TaskPriority::Critical
        };
        match parse_url(link.normalized_url.as_str()) {
            Ok(_) => {},
            Err(_) => {
                return Err(CrawlError::InvalidUrl(link.normalized_url.clone()));
            },
        }
        let url = link.normalized_url;
        let task = CrawlTask::new(url.clone(), priority, 3);
        let ghost q0 = self.queue@;
        self.queue.push(task);
        proof {
            assert(task_keys(self.queue@) =~= task_keys(q0).push((url@, priority)));
        }
        assoc_insert(&mut self.recent, url, start);
        self.stats.queued = self.stats.queued + 1;
        Ok(Admission::Queued)
    }

    /// Counts a finished page and takes the discovery rate.
    pub fn finish_page(&mut self)
        requires
            old(self).model().pages < usize::MAX,
        ensures
            final(self).model() == finished(old(self).model()),
            final(self).queue_spec() == old(self).queue_spec(),
            final(self).config_spec() == old(self).config_spec(),
            final(self).recent_spec() == old(self).recent_spec(),
            stats_consistent(old(self).model().stats) ==> stats_consistent(final(self).model().stats),
    {
        self.pages_processed = self.pages_processed + 1;
        self.stats.rate_links = self.stats.total_discovered;
        self.stats.rate_pages = self.pages_processed;
    }

    /// Considers the links found on a page, in order, at time `start`
    /// (see `consider_links`), then counts the page unless a URL did not
    /// parse; nothing happens while extensive crawling is off. Returns how
    /// many links were queued.
    pub fn add_discovered_links_at(&mut self, processed_links: Vec<ProcessedLink>, start: u64) -> (r: Result<
        usize,
        CrawlError,
    >)
        requires
            old(self).wf(),
            count_room(old(self).model().stats.total_discovered as int, processed_links@.len() as int),
            old(self).model().pages < usize::MAX,
        ensures
            final(self).wf(),
            final(self).config_spec() == old(self).config_spec(),
            !old(self).config_spec().enabled ==> r == Ok::<usize, CrawlError>(0) && final(self).model() == old(
                self,
            ).model() && final(self).queue_spec() == old(self).queue_spec(),
            old(self).config_spec().enabled ==> ({
                let (mf, n, e) = consider_links(
                    old(self).config_spec(),
                    old(self).model(),
                    processed_view(processed_links@),
                    start,
                );
                match e {
                    BatchEnd::Invalid(u) => final(self).model() == mf && (r matches Err(CrawlError::InvalidUrl(s))
                        && s@ == u),
                    _ => final(self).model() == finished(mf) && r == Ok::<usize, CrawlError>(n as usize),
                }
            }),
            final(self).queue_spec().len() >= old(self).queue_spec().len(),
            final(self).queue_spec().take(old(self).queue_spec().len() as int) == old(self).queue_spec(),
            forall|i: int|
                old(self).queue_spec().len() <= i < final(self).queue_spec().len() ==> fresh_task(
                    #[trigger] final(self).queue_spec()[i],
                ),
    {
        if !self.config.should_crawl_extensively() {
            return Ok(0);
        }
        let ghost c = self.config;
        let ghost src = processed_view(processed_links@);
        let ghost m0 = self.model();
        let ghost q0 = self.queue@;
        let total: usize = processed_links.len();
        let mut rest = processed_links;
        let mut added: usize = 0;
        let mut k: usize = 0;
        let mut full = false;
        proof {
            assert(src.skip(0) =~= src);
            assert(self.queue@.take(q0.len() as int) =~= q0);
        }
        while !full && rest.len() > 0
            invariant
                self.wf(),
                self.config == c,
                c.enabled,
                src.len() == total,
                processed_view(rest@) == src.skip(k as int),
                k <= src.len(),
                added <= k,
                count_room(self.model().stats.total_discovered as int, src.len() - k),
                c == old(self).config,
                m0 == old(self).model(),
                q0 == old(self).queue@,
                src == processed_view(processed_links@),
                self.model().pages == m0.pages,
                m0.pages < usize::MAX,
                !full ==> ({
                    let (mf, n, e) = consider_links(c, self.model(), src.skip(k as int), start);
                    consider_links(c, m0, src, start) == (mf, (added + n) as nat, e)
                }),
                full ==> consider_links(c, m0, src, start) == (self.model(), added as nat, BatchEnd::Full),
                self.queue@.len() >= q0.len(),
                self.queue@.take(q0.len() as int) == q0,
                forall|i: int| q0.len() <= i < self.queue@.len() ==> fresh_task(#[trigger] self.queue@[i]),
            decreases rest@.len(),
        {
            let ghost r0 = rest@;
            let ghost mk = self.model();
            let ghost qk = self.queue@;
            proof {
                assert(processed_view(r0).len() == r0.len());
                assert(src.skip(k as int)[0] == src[k as int]);
                assert(src.skip(k as int).drop_first() =~= src.skip(k + 1));
            }
            let link = rest.remove(0);
            proof {
                assert(link@ == processed_view(r0)[0]);
                assert(rest@ =~= r0.subrange(1, r0.len() as int));
                assert forall|i: int| 0 <= i < rest@.len() implies #[trigger] processed_view(rest@)[i] == src.skip(
                    k + 1,
                )[i] by {
                    assert(processed_view(rest@)[i] == rest@[i]@);
                    assert(rest@[i] == r0[i + 1]);
                    assert(processed_view(r0)[i + 1] == r0[i + 1]@);
                }
                assert(processed_view(rest@) =~= src.skip(k + 1));
            }
            let ghost url = link@.normalized_url;
            match self.add_link(link, start) {
                Ok(Admission::Queued) => {
                    proof {
                        assert(self.queue@ =~= qk.push(self.queue@.last()));
                        assert(self.queue@.take(q0.len() as int) =~= q0);
                    }
                    added = added + 1;
                },
                Ok(Admission::Skipped) => {},
                Ok(Admission::QueueFull) => {
                    full = true;
                },
                Err(e) => {
                    proof {
                        assert(consider_links(c, mk, src.skip(k as int), start) == (
                            self.model(),
                            0nat,
                            BatchEnd::Invalid(url),
                        ));
                    }
                    return Err(e);
                },
            }
            k = k + 1;
        }
        proof {
            if !full {
                assert(src.skip(k as int).len() == 0);
            }
        }
        self.finish_page();
        Ok(added)
    }

    /// Takes the first task of the queue.
    pub fn get_next_url(&mut self) -> (r: Option<CrawlTask>)
        ensures
            final(self).config_spec() == old(self).config_spec(),
            final(self).model().recent == old(self).model().recent,
            final(self).model().stats == old(self).model().stats,
            final(self).model().pages == old(self).model().pages,
            final(self).wf() == old(self).wf(),
            old(self).queue_spec().len() == 0 ==> r is None && final(self).queue_spec() == old(self).queue_spec(),
            old(self).queue_spec().len() > 0 ==> r == Some(old(self).queue_spec()[0]) && final(self).queue_spec()
                == old(self).queue_spec().drop_first(),
    {
        if self.queue.len() == 0 {
            return None;
        }
        let t = self.queue.remove(0);
        proof {
            assert(self.queue@ =~= old(self).queue@.drop_first());
        }
        Some(t)
    }

    /// The queue size and the numbers of links queued and refused.
    pub fn get_queue_status(&self) -> (r: QueueStatus)
        ensures
            r.total_queued == self.queue_spec().len(),
            r.processed == self.model().stats.queued,
            r.failed == self.model().stats.filtered,
    {
        QueueStatus { total_queued: self.queue.len(), processed: self.stats.queued, failed: self.stats.filtered }
    }

    pub fn get_discovery_stats(&self) -> (r: DiscoveryStats)
        ensures
            r == self.model().stats,
    {
        self.stats
    }

    /// Forgets the URLs queued `max_age` or more milliseconds before `now`.
    pub fn cleanup_processed_urls_at(&mut self, max_age: u64, now: u64)
        requires
            old(self).wf(),
        ensures
            final(self).wf(),
            final(self).recent_spec() == old(self).recent_spec().filter(young(now, max_age)),
            final(self).queue_spec() == old(self).queue_spec(),
            final(self).model().stats == old(self).model().stats,
            final(self).model().pages == old(self).model().pages,
            final(self).config_spec() == old(self).config_spec(),
    {
        let ghost f = young(now, max_age);
        let ghost src = self.recent@;
        let mut kept: Vec<(String, u64)> = Vec::new();
        let mut rest: Vec<(String, u64)> = Vec::new();
        std::mem::swap(&mut rest, &mut self.recent);
        let mut i: usize = 0;
        let total: usize = rest.len();
        proof {
            assert(src.skip(0) =~= src);
            assert(src.take(0).filter(f) =~= Seq::<(String, u64)>::empty());
        }
        while rest.len() > 0
            invariant
                rest@ == src.skip(i as int),
                i <= src.len(),
                src.len() == total,
                kept@ == src.take(i as int).filter(f),
                f == young(now, max_age),
            decreases rest@.len(),
        {
            proof {
                assert(src.skip(i as int)[0] == src[i as int]);
                assert(src.take(i + 1).drop_last() =~= src.take(i as int));
                assert(src.take(i + 1).last() == src[i as int]);
                reveal(Seq::filter);
            }
            let e = rest.remove(0);
            proof {
                assert(rest@ =~= src.skip(i + 1));
            }
            let keep = if now >= e.1 { now - e.1 < max_age } else { 0 < max_age };
            let ghost k0 = kept@;
            proof {
                assert(f(e) == keep);
                assert(src.take(i + 1).filter(f) == if f(e) { k0.push(e) } else { k0 });
            }
            if keep {
                kept.push(e);
            }
            i = i + 1;
        }
        proof {
            assert(src.take(src.len() as int) =~= src);
            lemma_filter_keys_unique(src, f);
        }
        self.recent = kept;
    }

    /// Whether the queue has room for another task.
    pub fn has_capacity(&self) -> (r: bool)
        ensures
            r == match self.config_spec().max_queue_size {
                Some(m) => self.queue_spec().len() < m,
                None => true,
            },
    {
        match self.config.max_queue_size {
            Some(m) => self.queue.len() < m,
            None => true,
        }
    }

    /// How many more tasks fit, when the queue size is limited.
    pub fn remaining_capacity(&self) -> (r: Option<usize>)
        ensures
            r == match self.config_spec().max_queue_size {
                Some(m) => Some(if m >= self.queue_spec().len() { (m - self.queue_spec().len()) as usize } else { 0usize }),
                None => None::<usize>,
            },
    {
        match self.config.max_queue_size {
            Some(m) => Some(m.saturating_sub(self.queue.len())),
            None => None,
        }
    }

    /// Clears the statistics and the page count.
    pub fn reset_stats(&mut self)
        ensures
            final(self).model().stats == zero_stats(),
            final(self).model().pages == 0,
            final(self).model().recent == old(self).model().recent,
            final(self).recent_spec() == old(self).recent_spec(),
            final(self).queue_spec() == old(self).queue_spec(),
            final(self).config_spec() == old(self).config_spec(),
            old(self).wf() ==> final(self).wf(),
    {
        self.stats = DiscoveryStats::default();
        self.pages_processed = 0;
    }

    /// A copy of the queued tasks.
    pub fn export_queue(&self) -> (r: Vec<CrawlTask>)
        ensures
            same_tasks(r@, self.queue_spec()),
    {
        copy_tasks(&self.queue)
    }

    /// Replaces the queue with the given tasks, as many as fit.
    pub fn import_queue(&mut self, tasks: Vec<CrawlTask>) -> (r: Result<(), CrawlError>)
        ensures
            r is Ok,
            final(self).queue_spec() == tasks@.take(
                match old(self).config_spec().max_queue_size {
                    Some(m) => if m < tasks@.len() { m as int } else { tasks@.len() as int },
                    None => tasks@.len() as int,
                },
            ),
            final(self).model().recent == old(self).model().recent,
            final(self).recent_spec() == old(self).recent_spec(),
            final(self).model().stats == old(self).model().stats,
            final(self).model().pages == old(self).model().pages,
            final(self).config_spec() == old(self).config_spec(),
            old(self).wf() ==> final(self).wf(),
    {
        let ghost src = tasks@;
        let limit: usize = match self.config.max_queue_size {
            Some(m) => if m < tasks.len() { m } else { tasks.len() },
            None => tasks.len(),
        };
        let mut rest = tasks;
        let mut q: Vec<CrawlTask> = Vec::new();
        proof {
            assert(src.skip(0) =~= src);
            assert(q@ =~= src.take(0));
        }
        while q.len() < limit
            invariant
                limit <= src.len(),
                q@.len() <= limit,
                q@ == src.take(q@.len() as int),
                rest@ == src.skip(q@.len() as int),
            decreases limit - q@.len(),
        {
            let ghost n = q@.len();
            proof {
                assert(src.skip(n as int)[0] == src[n as int]);
            }
            let t = rest.remove(0);
            q.push(t);
            proof {
                assert(rest@ =~= src.skip(n as int + 1));
                assert(q@ =~= src.take(n as int + 1));
            }
        }
        self.queue = q;
        Ok(())
    }

    /// Orders the queue by priority, highest first, keeping the order of
    /// tasks of one priority.
    pub fn prioritize_queue(&mut self)
        ensures
            final(self).queue_spec() == tasks_by_priority(old(self).queue_spec()),
            final(self).model().recent == old(self).model().recent,
            final(self).recent_spec() == old(self).recent_spec(),
            final(self).model().stats == old(self).model().stats,
            final(self).model().pages == old(self).model().pages,
            final(self).config_spec() == old(self).config_spec(),
            old(self).wf() ==> final(self).wf(),
    {
        let ghost src = self.queue@;
        let mut rest: Vec<CrawlTask> = Vec::new();
        std::mem::swap(&mut rest, &mut self.queue);
        let mut critical: Vec<CrawlTask> = Vec::new();
        let mut high: Vec<CrawlTask> = Vec::new();
        let mut normal: Vec<CrawlTask> = Vec::new();
        let mut low: Vec<CrawlTask> = Vec::new();
        let mut i: usize = 0;
        let total: usize = rest.len();
        proof {
            assert(src.skip(0) =~= src);
            assert(with_task_priority(src.take(0), TaskPriority::Critical) =~= Seq::<CrawlTask>::empty());
            assert(with_task_priority(src.take(0), TaskPriority::High) =~= Seq::<CrawlTask>::empty());
            assert(with_task_priority(src.take(0), TaskPriority::Normal) =~= Seq::<CrawlTask>::empty());
            assert(with_task_priority(src.take(0), TaskPriority::Low) =~= Seq::<CrawlTask>::empty());
        }
        while rest.len() > 0
            invariant
                rest@ == src.skip(i as int),
                i <= src.len(),
                src.len() == total,
                critical@ == with_task_priority(src.take(i as int), TaskPriority::Critical),
                high@ == with_task_priority(src.take(i as int), TaskPriority::High),
                normal@ == with_task_priority(src.take(i as int), TaskPriority::Normal),
                low@ == with_task_priority(src.take(i as int), TaskPriority::Low),
            decreases rest@.len(),
        {
            proof {
                assert(src.skip(i as int)[0] == src[i as int]);
                assert(src.take(i + 1).drop_last() =~= src.take(i as int));
                assert(src.take(i + 1).last() == src[i as int]);
                reveal(Seq::filter);
            }
            let t = rest.remove(0);
            proof {
                assert(rest@ =~= src.skip(i + 1));
            }
            match t.priority {
                TaskPriority::Critical => critical.push(t),
                TaskPriority::High => high.push(t),
                TaskPriority::Normal => normal.push(t),
                TaskPriority::Low => low.push(t),
            }
            i = i + 1;
        }
        proof {
            assert(src.take(src.len() as int) =~= src);
        }
        critical.append(&mut high);
        critical.append(&mut normal);
        critical.append(&mut low);
        self.queue = critical;
    }
}

} // verus!
