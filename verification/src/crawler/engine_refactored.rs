//! Crawler engine state: configuration with its builder, request statistics,
//! duplicate detection, per-domain and global rate limiting, and the
//! bookkeeping around each request. Durations are nanoseconds (statistics)
//! or milliseconds (configuration and clock readings).
use vstd::prelude::*;
use vstd::string::StringSliceAdditionalSpecFns;
use crate::common::{
    BooleanFlag, DelayDuration, LimitValue, SessionId, TaskError, TaskErrorKind, TimeoutDuration,
    prefixed_uuid, prefixed_uuid_text,
};
use crate::crawl_core::types_refactored::TaskContent;
use crate::crawler::visited::{
    bloom_items, bloom_num_bits, bloom_num_hashes, filter_clear, filter_contains, filter_insert,
    filter_num_bits, filter_num_hashes,
};
use crate::assoc::{assoc_find, assoc_insert, assoc_view, keys_unique};
use crate::text_util::{concat_str, decimal, has_prefix, u64_to_string, word_count};
use crate::web_url::{parse_url, url_parse_result};
use bloom::BloomFilter;
use vstd::utf8::encode_utf8;

verus! {

/// The largest duration std can hold, in nanoseconds.
pub open spec fn max_duration_nanos() -> int {
    18446744073709551615999999999int
}

/// Abstract content of crawler statistics; durations in nanoseconds.
pub struct CrawlerStatisticsView {
    pub total_requests: u64,
    pub successful_requests: u64,
    pub failed_requests: u64,
    pub cached_responses: u64,
    pub total_processing_time: u128,
    pub average_response_time: u128,
    pub fastest_response: u128,
    pub slowest_response: u128,
    pub unique_domains: u64,
    pub duplicate_urls_filtered: u64,
    pub robots_txt_blocked: u64,
    pub timeout_errors: u64,
    pub network_errors: u64,
    pub parsing_errors: u64,
    pub rate_limit_hits: u64,
}

/// Fresh statistics: every count and time zero, except the fastest response,
/// which starts at `u64::MAX` seconds so that the first response replaces it.
pub open spec fn fresh_statistics() -> CrawlerStatisticsView {
    CrawlerStatisticsView {
        total_requests: 0,
        successful_requests: 0,
        failed_requests: 0,
        cached_responses: 0,
        total_processing_time: 0,
        average_response_time: 0,
        fastest_response: 18446744073709551615000000000,
        slowest_response: 0,
        unique_domains: 0,
        duplicate_urls_filtered: 0,
        robots_txt_blocked: 0,
        timeout_errors: 0,
        network_errors: 0,
        parsing_errors: 0,
        rate_limit_hits: 0,
    }
}

/// What recording a response time of `d` nanoseconds does: the total grows
/// by `d`, the fastest and slowest follow `d`, and when requests have been
/// counted the average becomes the total (taken modulo 2^64, as the
/// nanosecond count is narrowed to 64 bits) divided by the request count.
pub open spec fn after_response_time(s: CrawlerStatisticsView, d: u128) -> CrawlerStatisticsView {
    let total = (s.total_processing_time + d) as u128;
    CrawlerStatisticsView {
        total_processing_time: total,
        fastest_response: if d < s.fastest_response { d } else { s.fastest_response },
        slowest_response: if d > s.slowest_response { d } else { s.slowest_response },
        average_response_time: if s.total_requests > 0 {
            ((total as u64) / s.total_requests) as u128
        } else {
            s.average_response_time
        },
        ..s
    }
}

/// Counts and timings of the requests a crawler engine made.
#[derive(Debug)]
pub struct CrawlerStatistics {
    total_requests: u64,
    successful_requests: u64,
    failed_requests: u64,
    cached_responses: u64,
    total_processing_time: u128,
    average_response_time: u128,
    fastest_response: u128,
    slowest_response: u128,
    unique_domains: u64,
    duplicate_urls_filtered: u64,
    robots_txt_blocked: u64,
    timeout_errors: u64,
    network_errors: u64,
    parsing_errors: u64,
    rate_limit_hits: u64,
}

impl View for CrawlerStatistics {
    type V = CrawlerStatisticsView;

    closed spec fn view(&self) -> CrawlerStatisticsView {
        CrawlerStatisticsView {
            total_requests: self.total_requests,
            successful_requests: self.successful_requests,
            failed_requests: self.failed_requests,
            cached_responses: self.cached_responses,
            total_processing_time: self.total_processing_time,
            average_response_time: self.average_response_time,
            fastest_response: self.fastest_response,
            slowest_response: self.slowest_response,
            unique_domains: self.unique_domains,
            duplicate_urls_filtered: self.duplicate_urls_filtered,
            robots_txt_blocked: self.robots_txt_blocked,
            timeout_errors: self.timeout_errors,
            network_errors: self.network_errors,
            parsing_errors: self.parsing_errors,
            rate_limit_hits: self.rate_limit_hits,
        }
    }
}

impl Clone for CrawlerStatistics {
    fn clone(&self) -> (r: Self)
        ensures
            r@ == self@,
    {
        CrawlerStatistics { ..*self }
    }
}

impl CrawlerStatistics {
    pub fn new() -> (r: Self)
        ensures
            r@ == fresh_statistics(),
    {
        CrawlerStatistics {
            total_requests: 0,
            successful_requests: 0,
            failed_requests: 0,
            cached_responses: 0,
            total_processing_time: 0,
            average_response_time: 0,
            fastest_response: 18446744073709551615000000000,
            slowest_response: 0,
            unique_domains: 0,
            duplicate_urls_filtered: 0,
            robots_txt_blocked: 0,
            timeout_errors: 0,
            network_errors: 0,
            parsing_errors: 0,
            rate_limit_hits: 0,
        }
    }

    pub fn total_requests(&self) -> (r: u64)
        ensures
            r == self@.total_requests,
    {
        self.total_requests
    }

    pub fn successful_requests(&self) -> (r: u64)
        ensures
            r == self@.successful_requests,
    {
        self.successful_requests
    }

    pub fn failed_requests(&self) -> (r: u64)
        ensures
            r == self@.failed_requests,
    {
        self.failed_requests
    }

    pub fn cached_responses(&self) -> (r: u64)
        ensures
            r == self@.cached_responses,
    {
        self.cached_responses
    }

    /// Total time spent on responses, in nanoseconds.
    pub fn total_processing_time(&self) -> (r: u128)
        ensures
            r == self@.total_processing_time,
    {
        self.total_processing_time
    }

    /// Average response time, in nanoseconds.
    pub fn average_response_time(&self) -> (r: u128)
        ensures
            r == self@.average_response_time,
    {
        self.average_response_time
    }

    /// Fastest response seen, in nanoseconds.
    pub fn fastest_response(&self) -> (r: u128)
        ensures
            r == self@.fastest_response,
    {
        self.fastest_response
    }

    /// Slowest response seen, in nanoseconds.
    pub fn slowest_response(&self) -> (r: u128)
        ensures
            r == self@.slowest_response,
    {
        self.slowest_response
    }

    pub fn unique_domains(&self) -> (r: u64)
        ensures
            r == self@.unique_domains,
    {
        self.unique_domains
    }

    pub fn duplicate_urls_filtered(&self) -> (r: u64)
        ensures
            r == self@.duplicate_urls_filtered,
    {
        self.duplicate_urls_filtered
    }

    pub fn robots_txt_blocked(&self) -> (r: u64)
        ensures
            r == self@.robots_txt_blocked,
    {
        self.robots_txt_blocked
    }

    pub fn timeout_errors(&self) -> (r: u64)
        ensures
            r == self@.timeout_errors,
    {
        self.timeout_errors
    }

    pub fn network_errors(&self) -> (r: u64)
        ensures
            r == self@.network_errors,
    {
        self.network_errors
    }

    pub fn parsing_errors(&self) -> (r: u64)
        ensures
            r == self@.parsing_errors,
    {
        self.parsing_errors
    }

    pub fn rate_limit_hits(&self) -> (r: u64)
        ensures
            r == self@.rate_limit_hits,
    {
        self.rate_limit_hits
    }

    pub fn increment_total_requests(&mut self)
        requires
            old(self)@.total_requests < u64::MAX,
        ensures
            final(self)@ == (CrawlerStatisticsView {
                total_requests: (old(self)@.total_requests + 1) as u64,
                ..old(self)@
            }),
    {
        self.total_requests = self.total_requests + 1;
    }

    pub fn increment_successful_requests(&mut self)
        requires
            old(self)@.successful_requests < u64::MAX,
        ensures
            final(self)@ == (CrawlerStatisticsView {
                successful_requests: (old(self)@.successful_requests + 1) as u64,
                ..old(self)@
            }),
    {
        self.successful_requests = self.successful_requests + 1;
    }

    pub fn increment_failed_requests(&mut self)
        requires
            old(self)@.failed_requests < u64::MAX,
        ensures
            final(self)@ == (CrawlerStatisticsView {
                failed_requests: (old(self)@.failed_requests + 1) as u64,
                ..old(self)@
            }),
    {
        self.failed_requests = self.failed_requests + 1;
    }

    /// Counts a URL that was skipped as already processed.
    pub fn increment_duplicate_urls_filtered(&mut self)
        requires
            old(self)@.duplicate_urls_filtered < u64::MAX,
        ensures
            final(self)@ == (CrawlerStatisticsView {
                duplicate_urls_filtered: (old(self)@.duplicate_urls_filtered + 1) as u64,
                ..old(self)@
            }),
    {
        self.duplicate_urls_filtered = self.duplicate_urls_filtered + 1;
    }

    /// Counts a request refused by the global rate limit.
    pub fn increment_rate_limit_hits(&mut self)
        requires
            old(self)@.rate_limit_hits < u64::MAX,
        ensures
            final(self)@ == (CrawlerStatisticsView {
                rate_limit_hits: (old(self)@.rate_limit_hits + 1) as u64,
                ..old(self)@
            }),
    {
        self.rate_limit_hits = self.rate_limit_hits + 1;
    }

    /// Records one response time, in nanoseconds.
    pub fn record_response_time(&mut self, duration: u128)
        requires
            old(self)@.total_processing_time + duration <= max_duration_nanos(),
        ensures
            final(self)@ == after_response_time(old(self)@, duration),
    {
        self.total_processing_time = self.total_processing_time + duration;
        if duration < self.fastest_response {
            self.fastest_response = duration;
        }
        if duration > self.slowest_response {
            self.slowest_response = duration;
        }
        if self.total_requests > 0 {
            #[verifier::truncate]
            let narrowed = self.total_processing_time as u64;
            self.average_response_time = (narrowed / self.total_requests) as u128;
        }
    }
}

impl Default for CrawlerStatistics {
    fn default() -> (r: Self)
        ensures
            r@ == fresh_statistics(),
    {
        Self::new()
    }
}


/// Abstract content of a crawler engine configuration (and of its builder).
/// Delays and timeouts are milliseconds.
pub struct CrawlerEngineConfigView {
    pub max_concurrent_requests: u64,
    pub request_delay: u64,
    pub retry_delay: u64,
    pub request_timeout: u64,
    pub bloom_filter_capacity: u64,
    pub max_url_length: u64,
    pub follow_redirects: bool,
    pub max_redirects: u64,
    pub respect_robots_txt: bool,
    pub requests_per_second: u64,
    pub burst_capacity: u64,
    pub domain_delay: u64,
    pub session_id: Seq<char>,
    pub enable_statistics: bool,
    pub enable_logging: bool,
}

/// The default engine configuration, with the given session identifier: ten
/// concurrent requests, 100 ms between requests, 1 s before a retry, a 30 s
/// timeout, a filter sized for a million URLs, URLs up to 2048 characters,
/// up to five redirects followed, robots.txt respected, ten requests a
/// second with bursts of twenty, 500 ms between requests to one domain,
/// statistics and logging on.
pub open spec fn default_engine_config(session_id: Seq<char>) -> CrawlerEngineConfigView {
    CrawlerEngineConfigView {
        max_concurrent_requests: 10,
        request_delay: 100,
        retry_delay: 1000,
        request_timeout: 30000,
        bloom_filter_capacity: 1000000,
        max_url_length: 2048,
        follow_redirects: true,
        max_redirects: 5,
        respect_robots_txt: true,
        requests_per_second: 10,
        burst_capacity: 20,
        domain_delay: 500,
        session_id,
        enable_statistics: true,
        enable_logging: true,
    }
}

/// Configuration of a crawler engine. The false positive rate of the URL
/// filter is a float and stays with the caller that builds the filter.
#[derive(Debug)]
pub struct CrawlerEngineConfig {
    max_concurrent_requests: LimitValue,
    request_delay: DelayDuration,
    retry_delay: DelayDuration,
    request_timeout: TimeoutDuration,
    bloom_filter_capacity: LimitValue,
    max_url_length: LimitValue,
    follow_redirects: BooleanFlag,
    max_redirects: LimitValue,
    respect_robots_txt: BooleanFlag,
    requests_per_second: LimitValue,
    burst_capacity: LimitValue,
    domain_delay: DelayDuration,
    session_id: SessionId,
    enable_statistics: BooleanFlag,
    enable_logging: BooleanFlag,
}

impl View for CrawlerEngineConfig {
    type V = CrawlerEngineConfigView;

    closed spec fn view(&self) -> CrawlerEngineConfigView {
        CrawlerEngineConfigView {
            max_concurrent_requests: self.max_concurrent_requests@,
            request_delay: self.request_delay@,
            retry_delay: self.retry_delay@,
            request_timeout: self.request_timeout@,
            bloom_filter_capacity: self.bloom_filter_capacity@,
            max_url_length: self.max_url_length@,
            follow_redirects: self.follow_redirects@,
            max_redirects: self.max_redirects@,
            respect_robots_txt: self.respect_robots_txt@,
            requests_per_second: self.requests_per_second@,
            burst_capacity: self.burst_capacity@,
            domain_delay: self.domain_delay@,
            session_id: self.session_id@,
            enable_statistics: self.enable_statistics@,
            enable_logging: self.enable_logging@,
        }
    }
}

impl Clone for CrawlerEngineConfig {
    fn clone(&self) -> (r: Self)
        ensures
            r@ == self@,
    {
        CrawlerEngineConfig { session_id: self.session_id.clone(), ..*self }
    }
}

impl CrawlerEngineConfig {
    pub fn builder() -> (r: CrawlerEngineConfigBuilder)
        ensures
            r@ == default_engine_config(r@.session_id),
            prefixed_uuid_text(r@.session_id, "crawler_"@),
    {
        CrawlerEngineConfigBuilder::new()
    }

    pub fn max_concurrent_requests(&self) -> (r: u64)
        ensures
            r == self@.max_concurrent_requests,
    {
        self.max_concurrent_requests.value()
    }

    pub fn request_delay(&self) -> (r: DelayDuration)
        ensures
            r@ == self@.request_delay,
    {
        self.request_delay
    }

    pub fn retry_delay(&self) -> (r: DelayDuration)
        ensures
            r@ == self@.retry_delay,
    {
        self.retry_delay
    }

    pub fn request_timeout(&self) -> (r: TimeoutDuration)
        ensures
            r@ == self@.request_timeout,
    {
        self.request_timeout
    }

    pub fn bloom_filter_capacity(&self) -> (r: u64)
        ensures
            r == self@.bloom_filter_capacity,
    {
        self.bloom_filter_capacity.value()
    }

    pub fn max_url_length(&self) -> (r: u64)
        ensures
            r == self@.max_url_length,
    {
        self.max_url_length.value()
    }

    pub fn should_follow_redirects(&self) -> (r: bool)
        ensures
            r == self@.follow_redirects,
    {
        self.follow_redirects.is_enabled()
    }

    pub fn max_redirects(&self) -> (r: u64)
        ensures
            r == self@.max_redirects,
    {
        self.max_redirects.value()
    }

    pub fn should_respect_robots_txt(&self) -> (r: bool)
        ensures
            r == self@.respect_robots_txt,
    {
        self.respect_robots_txt.is_enabled()
    }

    pub fn requests_per_second(&self) -> (r: u64)
        ensures
            r == self@.requests_per_second,
    {
        self.requests_per_second.value()
    }

    pub fn burst_capacity(&self) -> (r: u64)
        ensures
            r == self@.burst_capacity,
    {
        self.burst_capacity.value()
    }

    pub fn domain_delay(&self) -> (r: DelayDuration)
        ensures
            r@ == self@.domain_delay,
    {
        self.domain_delay
    }

    pub fn session_id(&self) -> (r: &SessionId)
        ensures
            r@ == self@.session_id,
    {
        &self.session_id
    }

    pub fn is_statistics_enabled(&self) -> (r: bool)
        ensures
            r == self@.enable_statistics,
    {
        self.enable_statistics.is_enabled()
    }

    pub fn is_logging_enabled(&self) -> (r: bool)
        ensures
            r == self@.enable_logging,
    {
        self.enable_logging.is_enabled()
    }
}

impl Default for CrawlerEngineConfig {
    fn default() -> (r: Self)
        ensures
            r@ == default_engine_config(r@.session_id),
            prefixed_uuid_text(r@.session_id, "crawler_"@),
    {
        CrawlerEngineConfigBuilder::new().build()
    }
}

/// Builder of a crawler engine configuration.
#[derive(Debug)]
pub struct CrawlerEngineConfigBuilder {
    config: CrawlerEngineConfig,
}

impl View for CrawlerEngineConfigBuilder {
    type V = CrawlerEngineConfigView;

    closed spec fn view(&self) -> CrawlerEngineConfigView {
        self.config@
    }
}

impl CrawlerEngineConfigBuilder {
    /// A builder holding the default configuration, with a fresh session
    /// identifier `crawler_<uuid>`.
    pub fn new() -> (r: Self)
        ensures
            r@ == default_engine_config(r@.session_id),
            prefixed_uuid_text(r@.session_id, "crawler_"@),
    {
        let id = prefixed_uuid("crawler_");
        proof {
            reveal_strlit("crawler_");
        }
        CrawlerEngineConfigBuilder {
            config: CrawlerEngineConfig {
                max_concurrent_requests: LimitValue::new(10),
                request_delay: DelayDuration::from_millis(100),
                retry_delay: DelayDuration::from_secs(1),
                request_timeout: TimeoutDuration::from_secs(30),
                bloom_filter_capacity: LimitValue::new(1000000),
                max_url_length: LimitValue::new(2048),
                follow_redirects: BooleanFlag::enabled(),
                max_redirects: LimitValue::new(5),
                respect_robots_txt: BooleanFlag::enabled(),
                requests_per_second: LimitValue::new(10),
                burst_capacity: LimitValue::new(20),
                domain_delay: DelayDuration::from_millis(500),
                session_id: SessionId::from_string(id),
                enable_statistics: BooleanFlag::enabled(),
                enable_logging: BooleanFlag::enabled(),
            },
        }
    }

    pub fn with_concurrency_settings(
        self,
        max_concurrent: LimitValue,
        request_delay: DelayDuration,
        retry_delay: DelayDuration,
    ) -> (r: Self)
        ensures
            r@ == (CrawlerEngineConfigView {
                max_concurrent_requests: max_concurrent@,
                request_delay: request_delay@,
                retry_delay: retry_delay@,
                ..self@
            }),
    {
        let mut this = self;
        this.config.max_concurrent_requests = max_concurrent;
        this.config.request_delay = request_delay;
        this.config.retry_delay = retry_delay;
        this
    }

    pub fn with_timeout_settings(self, request_timeout: TimeoutDuration) -> (r: Self)
        ensures
            r@ == (CrawlerEngineConfigView { request_timeout: request_timeout@, ..self@ }),
    {
        let mut this = self;
        this.config.request_timeout = request_timeout;
        this
    }

    /// Sets the capacity the URL filter is sized for (its false positive
    /// rate is chosen by whoever builds the filter).
    pub fn with_bloom_filter_settings(self, capacity: LimitValue) -> (r: Self)
        ensures
            r@ == (CrawlerEngineConfigView { bloom_filter_capacity: capacity@, ..self@ }),
    {
        let mut this = self;
        this.config.bloom_filter_capacity = capacity;
        this
    }

    pub fn with_url_settings(
        self,
        max_url_length: LimitValue,
        follow_redirects: BooleanFlag,
        max_redirects: LimitValue,
    ) -> (r: Self)
        ensures
            r@ == (CrawlerEngineConfigView {
                max_url_length: max_url_length@,
                follow_redirects: follow_redirects@,
                max_redirects: max_redirects@,
                ..self@
            }),
    {
        let mut this = self;
        this.config.max_url_length = max_url_length;
        this.config.follow_redirects = follow_redirects;
        this.config.max_redirects = max_redirects;
        this
    }

    pub fn with_rate_limiting(
        self,
        requests_per_second: LimitValue,
        burst_capacity: LimitValue,
        domain_delay: DelayDuration,
    ) -> (r: Self)
        ensures
            r@ == (CrawlerEngineConfigView {
                requests_per_second: requests_per_second@,
                burst_capacity: burst_capacity@,
                domain_delay: domain_delay@,
                ..self@
            }),
    {
        let mut this = self;
        this.config.requests_per_second = requests_per_second;
        this.config.burst_capacity = burst_capacity;
        this.config.domain_delay = domain_delay;
        this
    }

    pub fn with_session_id(self, session_id: SessionId) -> (r: Self)
        ensures
            r@ == (CrawlerEngineConfigView { session_id: session_id@, ..self@ }),
    {
        let mut this = self;
        this.config.session_id = session_id;
        this
    }

    pub fn with_features(
        self,
        respect_robots_txt: BooleanFlag,
        enable_statistics: BooleanFlag,
        enable_logging: BooleanFlag,
    ) -> (r: Self)
        ensures
            r@ == (CrawlerEngineConfigView {
                respect_robots_txt: respect_robots_txt@,
                enable_statistics: enable_statistics@,
                enable_logging: enable_logging@,
                ..self@
            }),
    {
        let mut this = self;
        this.config.respect_robots_txt = respect_robots_txt;
        this.config.enable_statistics = enable_statistics;
        this.config.enable_logging = enable_logging;
        this
    }

    pub fn build(self) -> (r: CrawlerEngineConfig)
        ensures
            r@ == self@,
    {
        self.config
    }
}

impl Default for CrawlerEngineConfigBuilder {
    fn default() -> (r: Self)
        ensures
            r@ == default_engine_config(r@.session_id),
            prefixed_uuid_text(r@.session_id, "crawler_"@),
    {
        Self::new()
    }
}

/// Time elapsed from `then` to `now` on a monotonic clock; zero when `now`
/// is not later.
pub open spec fn elapsed_since(now: u64, then: u64) -> int {
    if now >= then { now - then } else { 0 }
}

/// Abstract content of a crawler engine's state: its configuration, the
/// URLs recorded as processed, the statistics, when each domain was last
/// requested, the global request budget and when it was last refilled.
/// Times are milliseconds of a monotonic clock.
pub struct CrawlerEngineStateView {
    pub config: CrawlerEngineConfigView,
    pub processed: Set<Seq<char>>,
    pub statistics: CrawlerStatisticsView,
    pub domain_last_request: Map<Seq<char>, u64>,
    pub request_budget: u64,
    pub last_refill: u64,
}

/// How long a request to `domain` must wait at `now` so that requests to
/// one domain are at least the configured domain delay apart.
pub open spec fn domain_wait_for(v: CrawlerEngineStateView, domain: Seq<char>, now: u64) -> u64 {
    if v.domain_last_request.contains_key(domain) {
        let elapsed = elapsed_since(now, v.domain_last_request[domain]);
        if elapsed < v.config.domain_delay {
            (v.config.domain_delay - elapsed) as u64
        } else {
            0
        }
    } else {
        0
    }
}

/// The smaller of two counts.
pub open spec fn min_u64(a: u64, b: u64) -> u64 {
    if a <= b { a } else { b }
}

/// Refilling the budget at `now`: once a second has passed since the last
/// refill, the budget becomes the smaller of the per-second rate and the
/// burst capacity.
pub open spec fn refilled(v: CrawlerEngineStateView, now: u64) -> CrawlerEngineStateView {
    if elapsed_since(now, v.last_refill) >= 1000 {
        CrawlerEngineStateView {
            request_budget: min_u64(v.config.requests_per_second, v.config.burst_capacity),
            last_refill: now,
            ..v
        }
    } else {
        v
    }
}

/// Records that `domain` was requested at `now`.
pub open spec fn with_domain_request(v: CrawlerEngineStateView, domain: Seq<char>, now: u64) -> CrawlerEngineStateView {
    CrawlerEngineStateView { domain_last_request: v.domain_last_request.insert(domain, now), ..v }
}

/// Spends one unit of the request budget.
pub open spec fn budget_spent(v: CrawlerEngineStateView) -> CrawlerEngineStateView {
    CrawlerEngineStateView { request_budget: (v.request_budget - 1) as u64, ..v }
}

/// What recording the outcome of a request to `url` that took `elapsed`
/// nanoseconds does: the request is counted and timed, and a success marks
/// the URL processed and counts a success, a failure counts a failure.
pub open spec fn after_task_outcome(
    v: CrawlerEngineStateView,
    url: Seq<char>,
    elapsed: u128,
    success: bool,
) -> CrawlerEngineStateView {
    let counted = CrawlerStatisticsView {
        total_requests: (v.statistics.total_requests + 1) as u64,
        ..v.statistics
    };
    let timed = after_response_time(counted, elapsed);
    if success {
        CrawlerEngineStateView {
            processed: v.processed.insert(url),
            statistics: CrawlerStatisticsView {
                successful_requests: (timed.successful_requests + 1) as u64,
                ..timed
            },
            ..v
        }
    } else {
        CrawlerEngineStateView {
            statistics: CrawlerStatisticsView {
                failed_requests: (timed.failed_requests + 1) as u64,
                ..timed
            },
            ..v
        }
    }
}

/// The outcome of asking for a slot under the global rate limit after the
/// domain delay was waited.
#[derive(Debug, PartialEq, Eq, Structural)]
pub enum RateLimitGrant {
    /// The request may go ahead; one unit of budget was spent.
    Granted,
    /// The budget is spent: wait this many milliseconds, then ask again
    /// with `grant_after_budget_wait`.
    WaitForBudget(u64),
}

/// The mutable state of a crawler engine: everything that decides whether a
/// request goes ahead, and what it leaves behind. The HTTP client, the
/// concurrency permits and the clock stay with the caller, which reads the
/// clock and passes the reading in.
pub struct CrawlerEngineState {
    config: CrawlerEngineConfig,
    visited: BloomFilter,
    statistics: CrawlerStatistics,
    domain_last_request: Vec<(String, u64)>,
    request_budget: u64,
    last_refill: u64,
}

impl View for CrawlerEngineState {
    type V = CrawlerEngineStateView;

    closed spec fn view(&self) -> CrawlerEngineStateView {
        CrawlerEngineStateView {
            config: self.config@,
            processed: bloom_items(self.visited),
            statistics: self.statistics@,
            domain_last_request: assoc_view(self.domain_last_request@),
            request_budget: self.request_budget,
            last_refill: self.last_refill,
        }
    }
}

/// The error returned for a URL given to the rate limiter: the parse error,
/// or the lack of a domain (an IP address host, for one).
pub open spec fn rate_limit_domain_result(url: Seq<char>) -> Result<Seq<char>, Seq<char>> {
    match url_parse_result(url) {
        Err(e) => Err("Invalid URL: "@ + e),
        Ok(p) => match p.domain {
            Some(d) => Ok(d),
            None => Err("No domain in URL"@),
        },
    }
}

impl CrawlerEngineState {
    /// Well-formedness: one entry per domain, a usable filter (with bits and
    /// hash functions), and a budget no larger than the per-second rate.
    pub closed spec fn wf(&self) -> bool {
        &&& keys_unique(self.domain_last_request@)
        &&& bloom_num_bits(self.visited) > 0
        &&& bloom_num_hashes(self.visited) > 0
        &&& self.request_budget <= self.config@.requests_per_second
    }

    /// A fresh state at `now`, remembering the URLs `visited` holds (none
    /// for a new filter), with a full per-second budget.
    pub fn new(config: CrawlerEngineConfig, visited: BloomFilter, now: u64) -> (r: Self)
        requires
            bloom_num_bits(visited) > 0,
            bloom_num_hashes(visited) > 0,
        ensures
            r.wf(),
            r@ == (CrawlerEngineStateView {
                config: config@,
                processed: bloom_items(visited),
                statistics: fresh_statistics(),
                domain_last_request: Map::empty(),
                request_budget: config@.requests_per_second,
                last_refill: now,
            }),
    {
        let budget = config.requests_per_second();
        let r = CrawlerEngineState {
            config,
            visited,
            statistics: CrawlerStatistics::new(),
            domain_last_request: Vec::new(),
            request_budget: budget,
            last_refill: now,
        };
        proof {
            assert(assoc_view(r.domain_last_request@) =~= Map::empty());
        }
        r
    }

    /// `new` for a filter that has bits and hash functions; `None` for a
    /// filter without either, which could not answer.
    pub fn try_new(config: CrawlerEngineConfig, visited: BloomFilter, now: u64) -> (r: Option<Self>)
        ensures
            (bloom_num_bits(visited) > 0 && bloom_num_hashes(visited) > 0) <==> r is Some,
            r matches Some(st) ==> st.wf() && st@ == (CrawlerEngineStateView {
                config: config@,
                processed: bloom_items(visited),
                statistics: fresh_statistics(),
                domain_last_request: Map::empty(),
                request_budget: config@.requests_per_second,
                last_refill: now,
            }),
    {
        if filter_num_bits(&visited) == 0 || filter_num_hashes(&visited) == 0 {
            None
        } else {
            Some(Self::new(config, visited, now))
        }
    }

    pub fn config(&self) -> (r: &CrawlerEngineConfig)
        ensures
            r@ == self@.config,
    {
        &self.config
    }

    /// A copy of the current statistics.
    pub fn statistics(&self) -> (r: CrawlerStatistics)
        ensures
            r@ == self@.statistics,
    {
        self.statistics.clone()
    }

    /// Whether the URL may have been processed. A processed URL always
    /// answers `true`; the filter may also answer `true` for a URL it never
    /// saw, but a state with no processed URL (a new or reset one) answers
    /// `false`.
    pub fn is_url_processed(&self, url: &str) -> (r: bool)
        requires
            self.wf(),
        ensures
            self@.processed.contains(url@) ==> r,
            self@.processed == Set::<Seq<char>>::empty() ==> !r,
    {
        filter_contains(&self.visited, url)
    }

    pub fn mark_url_processed(&mut self, url: &str)
        requires
            old(self).wf(),
        ensures
            final(self).wf(),
            final(self)@ == (CrawlerEngineStateView {
                processed: old(self)@.processed.insert(url@),
                ..old(self)@
            }),
    {
        filter_insert(&mut self.visited, url);
    }

    /// The first step of a task: a URL that may have been processed is
    /// refused (and counted as a request and as a filtered duplicate);
    /// otherwise nothing changes.
    pub fn admit_task_url(&mut self, url: &str) -> (r: Result<(), TaskError>)
        requires
            old(self).wf(),
            old(self)@.statistics.total_requests < u64::MAX,
            old(self)@.statistics.duplicate_urls_filtered < u64::MAX,
        ensures
            final(self).wf(),
            old(self)@.processed.contains(url@) ==> r is Err,
            old(self)@.processed == Set::<Seq<char>>::empty() ==> r is Ok,
            r is Ok ==> final(self)@ == old(self)@,
            r matches Err(e) ==> e@.kind == TaskErrorKind::Crawler
                && e@.message == "URL already processed: "@ + url@
                && final(self)@ == (CrawlerEngineStateView {
                    statistics: CrawlerStatisticsView {
                        total_requests: (old(self)@.statistics.total_requests + 1) as u64,
                        duplicate_urls_filtered: (old(self)@.statistics.duplicate_urls_filtered + 1) as u64,
                        ..old(self)@.statistics
                    },
                    ..old(self)@
                }),
    {
        let seen = filter_contains(&self.visited, url);
        self.after_processed_lookup(url, seen)
    }

    /// What the first step of a task does with the filter's answer `seen`
    /// for the URL: a seen URL is refused and counted; otherwise nothing
    /// changes.
    pub fn after_processed_lookup(&mut self, url: &str, seen: bool) -> (r: Result<(), TaskError>)
        requires
            old(self).wf(),
            old(self)@.statistics.total_requests < u64::MAX,
            old(self)@.statistics.duplicate_urls_filtered < u64::MAX,
        ensures
            final(self).wf(),
            seen <==> r is Err,
            r is Ok ==> final(self)@ == old(self)@,
            r matches Err(e) ==> e@.kind == TaskErrorKind::Crawler
                && e@.message == "URL already processed: "@ + url@
                && final(self)@ == (CrawlerEngineStateView {
                    statistics: CrawlerStatisticsView {
                        total_requests: (old(self)@.statistics.total_requests + 1) as u64,
                        duplicate_urls_filtered: (old(self)@.statistics.duplicate_urls_filtered + 1) as u64,
                        ..old(self)@.statistics
                    },
                    ..old(self)@
                }),
    {
        if seen {
            self.statistics.increment_total_requests();
            self.statistics.increment_duplicate_urls_filtered();
            let msg = concat_str("URL already processed: ", url);
            proof {
                reveal_strlit("URL already processed: ");
            }
            Err(TaskError::crawler(msg.as_str()))
        } else {
            Ok(())
        }
    }

    /// The domain whose delay applies to a URL.
    pub fn domain_for_rate_limiting(url: &str) -> (r: Result<String, TaskError>)
        ensures
            match rate_limit_domain_result(url@) {
                Ok(d) => r matches Ok(s) && s@ == d,
                Err(m) => r matches Err(e) && e@.kind == TaskErrorKind::Crawler && e@.message == m,
            },
    {
        match parse_url(url) {
            Err(e) => {
                let msg = concat_str("Invalid URL: ", e.as_str());
                proof {
                    reveal_strlit("Invalid URL: ");
                }
                Err(TaskError::crawler(msg.as_str()))
            },
            Ok(p) => match p.domain {
                Some(d) => Ok(d),
                None => {
                    proof {
                        reveal_strlit("No domain in URL");
                    }
                    Err(TaskError::crawler("No domain in URL"))
                },
            },
        }
    }

    /// How many milliseconds a request to `domain` must wait at `now`.
    pub fn domain_wait(&self, domain: &str, now: u64) -> (r: u64)
        requires
            self.wf(),
        ensures
            r == domain_wait_for(self@, domain@, now),
    {
        match assoc_find(&self.domain_last_request, domain) {
            Some(i) => {
                proof {
                    crate::assoc::lemma_key_index(self.domain_last_request@, i as int);
                }
                let last = self.domain_last_request[i].1;
                let elapsed = if now >= last { now - last } else { 0 };
                let delay = self.config.domain_delay().as_millis();
                if elapsed < delay {
                    delay - elapsed
                } else {
                    0
                }
            },
            None => 0,
        }
    }

    /// First step of rate limiting a URL: its domain, and how long to wait
    /// before asking for a slot.
    pub fn begin_rate_limiting(&self, url: &str, now: u64) -> (r: Result<(String, u64), TaskError>)
        requires
            self.wf(),
        ensures
            match rate_limit_domain_result(url@) {
                Ok(d) => r matches Ok(p) && p.0@ == d && p.1 == domain_wait_for(self@, d, now),
                Err(m) => r matches Err(e) && e@.kind == TaskErrorKind::Crawler && e@.message == m,
            },
    {
        let domain = Self::domain_for_rate_limiting(url)?;
        let wait = self.domain_wait(domain.as_str(), now);
        Ok((domain, wait))
    }

    /// Refills the global budget when a second has passed since the last
    /// refill.
    pub fn refill_rate_limit_budget(&mut self, now: u64)
        requires
            old(self).wf(),
        ensures
            final(self).wf(),
            final(self)@ == refilled(old(self)@, now),
    {
        let elapsed = if now >= self.last_refill { now - self.last_refill } else { 0 };
        if elapsed >= 1000 {
            let rps = self.config.requests_per_second();
            let burst = self.config.burst_capacity();
            self.request_budget = if rps <= burst { rps } else { burst };
            self.last_refill = now;
        }
    }

    /// Second step, once the domain delay has been waited: the domain is
    /// recorded as requested at `now`, the budget refilled if due, and one
    /// unit spent if there is one; otherwise the caller waits a second.
    pub fn grant_after_domain_wait(&mut self, domain: String, now: u64) -> (r: RateLimitGrant)
        requires
            old(self).wf(),
        ensures
            final(self).wf(),
            ({
                let s1 = refilled(with_domain_request(old(self)@, domain@, now), now);
                if s1.request_budget > 0 {
                    r == RateLimitGrant::Granted && final(self)@ == budget_spent(s1)
                } else {
                    r == RateLimitGrant::WaitForBudget(1000) && final(self)@ == s1
                }
            }),
    {
        assoc_insert(&mut self.domain_last_request, domain, now);
        self.refill_rate_limit_budget(now);
        if self.request_budget > 0 {
            self.request_budget = self.request_budget - 1;
            RateLimitGrant::Granted
        } else {
            RateLimitGrant::WaitForBudget(1000)
        }
    }

    /// Last step, after waiting for the budget: refill if due and spend one
    /// unit, or refuse the request and count a rate limit hit.
    pub fn grant_after_budget_wait(&mut self, now: u64) -> (r: Result<(), TaskError>)
        requires
            old(self).wf(),
            old(self)@.statistics.rate_limit_hits < u64::MAX,
        ensures
            final(self).wf(),
            ({
                let s1 = refilled(old(self)@, now);
                if s1.request_budget > 0 {
                    r is Ok && final(self)@ == budget_spent(s1)
                } else {
                    r matches Err(e) && e@.kind == TaskErrorKind::Crawler
                        && e@.message == "Rate limit exceeded"@
                        && final(self)@ == (CrawlerEngineStateView {
                            statistics: CrawlerStatisticsView {
                                rate_limit_hits: (s1.statistics.rate_limit_hits + 1) as u64,
                                ..s1.statistics
                            },
                            ..s1
                        })
                }
            }),
    {
        self.refill_rate_limit_budget(now);
        if self.request_budget == 0 {
            self.statistics.increment_rate_limit_hits();
            proof {
                reveal_strlit("Rate limit exceeded");
            }
            Err(TaskError::crawler("Rate limit exceeded"))
        } else {
            self.request_budget = self.request_budget - 1;
            Ok(())
        }
    }

    /// Records what a request to `url` came to, and how long it took in
    /// nanoseconds.
    pub fn record_task_outcome(&mut self, url: &str, elapsed: u128, success: bool)
        requires
            old(self).wf(),
            old(self)@.statistics.total_requests < u64::MAX,
            old(self)@.statistics.successful_requests < u64::MAX,
            old(self)@.statistics.failed_requests < u64::MAX,
            old(self)@.statistics.total_processing_time + elapsed <= max_duration_nanos(),
        ensures
            final(self).wf(),
            final(self)@ == after_task_outcome(old(self)@, url@, elapsed, success),
    {
        self.statistics.increment_total_requests();
        self.statistics.record_response_time(elapsed);
        if success {
            filter_insert(&mut self.visited, url);
            self.statistics.increment_successful_requests();
        } else {
            self.statistics.increment_failed_requests();
        }
    }

    /// Healthy while a concurrency permit is free or budget is left.
    pub fn health_check(&self, available_permits: usize) -> (r: bool)
        ensures
            r == (available_permits > 0 || self@.request_budget > 0),
    {
        available_permits > 0 || self.request_budget > 0
    }

    /// Forgets every processed URL, the statistics and the domain times,
    /// and restores the full per-second budget as of `now`.
    pub fn reset(&mut self, now: u64)
        requires
            old(self).wf(),
        ensures
            final(self).wf(),
            final(self)@ == (CrawlerEngineStateView {
                config: old(self)@.config,
                processed: Set::empty(),
                statistics: fresh_statistics(),
                domain_last_request: Map::empty(),
                request_budget: old(self)@.config.requests_per_second,
                last_refill: now,
            }),
    {
        filter_clear(&mut self.visited);
        self.statistics = CrawlerStatistics::new();
        self.domain_last_request = Vec::new();
        self.request_budget = self.config.requests_per_second();
        self.last_refill = now;
        proof {
            assert(assoc_view(self.domain_last_request@) =~= Map::empty());
        }
    }
}

/// The global budget never exceeds the per-second rate: it starts there,
/// refills to at most it, and only decreases in between.
pub proof fn lemma_budget_within_rate(s: &CrawlerEngineState)
    requires
        s.wf(),
    ensures
        s@.request_budget <= s@.config.requests_per_second,
{
}

/// A URL whose request succeeded is afterwards among the processed URLs,
/// so a later task for it is refused as a duplicate.
pub proof fn lemma_success_marks_processed(
    v: CrawlerEngineStateView,
    url: Seq<char>,
    elapsed: u128,
)
    ensures
        after_task_outcome(v, url, elapsed, true).processed.contains(url),
        after_task_outcome(v, url, elapsed, false).processed == v.processed,
{
}

/// Waiting the time `domain_wait` asks for is enough: at the end of the
/// wait the domain needs no further wait (for a last request time that is
/// not in the future).
pub proof fn lemma_domain_wait_satisfied(v: CrawlerEngineStateView, domain: Seq<char>, now: u64)
    requires
        v.domain_last_request.contains_key(domain) ==> v.domain_last_request[domain] <= now,
        now + domain_wait_for(v, domain, now) <= u64::MAX,
    ensures
        domain_wait_for(v, domain, (now + domain_wait_for(v, domain, now)) as u64) == 0,
{
}

/// The error for a failed request: a timeout is a crawler error, a
/// connection failure or any other failure a network error.
pub open spec fn request_error_of(is_timeout: bool, is_connect: bool, detail: Seq<char>) -> (TaskErrorKind, Seq<char>) {
    if is_timeout {
        (TaskErrorKind::Crawler, "Request timeout: "@ + detail)
    } else if is_connect {
        (TaskErrorKind::Network, "Connection error: "@ + detail)
    } else {
        (TaskErrorKind::Network, "Request error: "@ + detail)
    }
}

/// The error for a request that could not be sent or answered; `detail` is
/// the client's description of the failure.
pub fn request_error(is_timeout: bool, is_connect: bool, detail: &str) -> (r: TaskError)
    ensures
        (r@.kind, r@.message) == request_error_of(is_timeout, is_connect, detail@),
{
    proof {
        reveal_strlit("Request timeout: ");
        reveal_strlit("Connection error: ");
        reveal_strlit("Request error: ");
    }
    if is_timeout {
        TaskError::crawler(concat_str("Request timeout: ", detail).as_str())
    } else if is_connect {
        TaskError::network(concat_str("Connection error: ", detail).as_str())
    } else {
        TaskError::network(concat_str("Request error: ", detail).as_str())
    }
}

/// A success status is one in 200..300.
pub fn is_success_status(status: u16) -> (r: bool)
    ensures
        r == (200 <= status < 300),
{
    200 <= status && status < 300
}

/// The text of an optional reason, or a fallback.
pub open spec fn reason_or(reason: Option<&str>, fallback: Seq<char>) -> Seq<char> {
    match reason {
        Some(s) => s@,
        None => fallback,
    }
}

/// The message for a response whose status is not a success: the status as
/// displayed (code and reason) followed by the reason again.
pub open spec fn http_status_message(status: u16, reason: Option<&str>) -> Seq<char> {
    "HTTP error "@ + decimal(status as nat) + " "@ + reason_or(reason, "<unknown status code>"@)
        + ": "@ + reason_or(reason, "Unknown error"@)
}

/// The network error for a non-success status; `reason` is the status's
/// canonical reason phrase, if it has one.
pub fn http_status_error(status: u16, reason: Option<&str>) -> (r: TaskError)
    ensures
        r@.kind == TaskErrorKind::Network,
        r@.message == http_status_message(status, reason),
{
    let mut msg = concat_str("HTTP error ", u64_to_string(status as u64).as_str());
    msg.append(" ");
    match reason {
        Some(s) => msg.append(s),
        None => msg.append("<unknown status code>"),
    }
    msg.append(": ");
    match reason {
        Some(s) => msg.append(s),
        None => msg.append("Unknown error"),
    }
    proof {
        reveal_strlit("HTTP error ");
        reveal_strlit(" ");
        reveal_strlit("<unknown status code>");
        reveal_strlit(": ");
        reveal_strlit("Unknown error");
    }
    TaskError::network(msg.as_str())
}

/// The content of a successful response: its body, with the declared
/// content type or `text/html` when none was declared.
pub fn response_content(body: String, content_type: Option<&str>) -> (r: TaskContent)
    requires
        encode_utf8(body@).len() <= usize::MAX,
    ensures
        r@.text == body@,
        r@.content_type == reason_or(content_type, "text/html"@),
        r@.word_count == word_count(body@),
        r@.content_length == encode_utf8(body@).len(),
        r@.detected_language is None,
{
    let ct = match content_type {
        Some(c) => c.to_string(),
        None => "text/html".to_string(),
    };
    proof {
        reveal_strlit("text/html");
    }
    TaskContent::new(body, ct)
}

} // verus!
