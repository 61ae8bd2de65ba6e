//! Structured crawl events: what each kind of crawl occurrence records.
//! The logger builds the event record; writing it to the log output is the
//! caller's part. Timestamps are milliseconds since the Unix epoch, and
//! durations are given in nanoseconds and recorded in milliseconds.
use vstd::prelude::*;
use crate::common::now_millis;
use crate::text_util::{concat_str, opt_seq};

verus! {

/// What happened to a URL.
#[derive(Clone, Copy, Debug, PartialEq, Eq, Structural)]
pub enum CrawlEventType {
    Started,
    Completed,
    Failed,
    Retrying,
    Blocked,
    RateLimited,
    Cached,
    Redirected,
    Timeout,
}

/// What a performance measurement was taken of.
#[derive(Clone, Copy, Debug, PartialEq, Eq, Structural)]
pub enum PerformanceEventType {
    RequestProcessed,
    QueueProcessed,
    CacheOperation,
    DnsResolution,
    RobotsTxtCheck,
    ContentExtraction,
    LinkExtraction,
    SessionComplete,
}

/// The category of a logged error.
#[derive(Clone, Copy, Debug, PartialEq, Eq, Structural)]
pub enum ErrorType {
    NetworkError,
    HttpError,
    ParseError,
    ConfigError,
    RateLimitError,
    TimeoutError,
    ValidationError,
    SystemError,
}

/// One crawl event.
#[derive(Debug)]
pub struct CrawlEvent {
    pub url: String,
    pub event_type: CrawlEventType,
    pub timestamp: u64,
    pub duration_ms: Option<u64>,
    pub status_code: Option<u16>,
    pub content_length: Option<u64>,
    pub word_count: Option<usize>,
    pub language: Option<String>,
    pub depth: Option<u32>,
    pub retry_count: Option<u32>,
    pub user_agent: Option<String>,
    pub proxy_used: Option<String>,
    pub error_message: Option<String>,
    pub session_id: Option<String>,
}

/// Abstract content of a crawl event.
pub struct CrawlEventView {
    pub url: Seq<char>,
    pub event_type: CrawlEventType,
    pub timestamp: u64,
    pub duration_ms: Option<u64>,
    pub status_code: Option<u16>,
    pub content_length: Option<u64>,
    pub word_count: Option<usize>,
    pub language: Option<Seq<char>>,
    pub depth: Option<u32>,
    pub retry_count: Option<u32>,
    pub user_agent: Option<Seq<char>>,
    pub proxy_used: Option<Seq<char>>,
    pub error_message: Option<Seq<char>>,
    pub session_id: Option<Seq<char>>,
}

impl View for CrawlEvent {
    type V = CrawlEventView;

    open spec fn view(&self) -> CrawlEventView {
        CrawlEventView {
            url: self.url@,
            event_type: self.event_type,
            timestamp: self.timestamp,
            duration_ms: self.duration_ms,
            status_code: self.status_code,
            content_length: self.content_length,
            word_count: self.word_count,
            language: opt_seq(self.language),
            depth: self.depth,
            retry_count: self.retry_count,
            user_agent: opt_seq(self.user_agent),
            proxy_used: opt_seq(self.proxy_used),
            error_message: opt_seq(self.error_message),
            session_id: opt_seq(self.session_id),
        }
    }
}

/// A performance measurement. Memory, CPU, connection and cache figures
/// are not collected, so only the kind, time and duration are held.
#[derive(Debug)]
pub struct PerformanceEvent {
    pub event_type: PerformanceEventType,
    pub timestamp: u64,
    pub duration_ms: u64,
}

/// One logged error.
#[derive(Debug)]
pub struct ErrorEvent {
    pub error_type: ErrorType,
    pub timestamp: u64,
    pub url: Option<String>,
    pub error_message: String,
    pub error_code: Option<String>,
    pub context: Option<String>,
    pub retry_count: Option<u32>,
    pub session_id: Option<String>,
}

/// Text of an optional borrowed string.
pub open spec fn opt_str(o: Option<&str>) -> Option<Seq<char>> {
    match o {
        Some(s) => Some(s@),
        None => None,
    }
}

fn own_opt(o: Option<&str>) -> (r: Option<String>)
    ensures
        opt_seq(r) == opt_str(o),
{
    match o {
        Some(s) => Some(s.to_string()),
        None => None,
    }
}

/// A duration in nanoseconds, in whole milliseconds narrowed to 64 bits.
pub open spec fn nanos_to_millis(d: u128) -> u64 {
    (d / 1000000) as u64
}

fn millis_of(d: u128) -> (r: u64)
    ensures
        r == nanos_to_millis(d),
{
    #[verifier::truncate]
    let ms = (d / 1000000) as u64;
    ms
}

/// An event with only its URL, kind, time and session set.
pub open spec fn bare_event(url: Seq<char>, t: CrawlEventType, ts: u64, session: Seq<char>) -> CrawlEventView {
    CrawlEventView {
        url,
        event_type: t,
        timestamp: ts,
        duration_ms: None,
        status_code: None,
        content_length: None,
        word_count: None,
        language: None,
        depth: None,
        retry_count: None,
        user_agent: None,
        proxy_used: None,
        error_message: None,
        session_id: Some(session),
    }
}

/// The failure event `log_crawl_failure` builds.
pub open spec fn crawl_failure_view(
    url: Seq<char>,
    duration: u128,
    error_message: Seq<char>,
    retry_count: Option<u32>,
    depth: Option<u32>,
    will_retry: bool,
    ts: u64,
    session: Seq<char>,
) -> CrawlEventView {
    CrawlEventView {
        duration_ms: Some(nanos_to_millis(duration)),
        depth,
        retry_count,
        error_message: Some(error_message),
        ..bare_event(
            url,
            if will_retry { CrawlEventType::Retrying } else { CrawlEventType::Failed },
            ts,
            session,
        )
    }
}

/// The success event `log_crawl_success` builds.
pub open spec fn crawl_success_view(
    url: Seq<char>,
    duration: u128,
    status_code: u16,
    content_length: u64,
    word_count: usize,
    language: Option<Seq<char>>,
    depth: Option<u32>,
    proxy_used: Option<Seq<char>>,
    ts: u64,
    session: Seq<char>,
) -> CrawlEventView {
    CrawlEventView {
        duration_ms: Some(nanos_to_millis(duration)),
        status_code: Some(status_code),
        content_length: Some(content_length),
        word_count: Some(word_count),
        language,
        depth,
        proxy_used,
        ..bare_event(url, CrawlEventType::Completed, ts, session)
    }
}

/// Builds the events of one crawl session.
#[derive(Debug)]
pub struct CrawlEventLogger {
    session_id: String,
}

impl View for CrawlEventLogger {
    type V = Seq<char>;

    closed spec fn view(&self) -> Seq<char> {
        self.session_id@
    }
}

impl CrawlEventLogger {
    pub fn new(session_id: String) -> (r: Self)
        ensures
            r@ == session_id@,
    {
        CrawlEventLogger { session_id }
    }

    /// The session the events belong to.
    pub fn session_id(&self) -> (r: &str)
        ensures
            r@ == self@,
    {
        self.session_id.as_str()
    }

    fn event(&self, url: &str, event_type: CrawlEventType) -> (r: CrawlEvent)
        ensures
            r@ == bare_event(url@, event_type, r@.timestamp, self@),
    {
        CrawlEvent {
            url: url.to_string(),
            event_type,
            timestamp: now_millis(),
            duration_ms: None,
            status_code: None,
            content_length: None,
            word_count: None,
            language: None,
            depth: None,
            retry_count: None,
            user_agent: None,
            proxy_used: None,
            error_message: None,
            session_id: Some(self.session_id.clone()),
        }
    }

    /// The event for starting to crawl a URL.
    pub fn log_crawl_start(&self, url: &str, depth: Option<u32>, user_agent: Option<&str>) -> (r: CrawlEvent)
        ensures
            r@ == (CrawlEventView {
                depth,
                user_agent: opt_str(user_agent),
                ..bare_event(url@, CrawlEventType::Started, r@.timestamp, self@)
            }),
    {
        let mut e = self.event(url, CrawlEventType::Started);
        e.depth = depth;
        e.user_agent = own_opt(user_agent);
        e
    }

    /// The event for a URL crawled successfully.
    pub fn log_crawl_success(
        &self,
        url: &str,
        duration: u128,
        status_code: u16,
        content_length: u64,
        word_count: usize,
        language: Option<&str>,
        depth: Option<u32>,
        proxy_used: Option<&str>,
    ) -> (r: CrawlEvent)
        ensures
            r@ == crawl_success_view(
                url@,
                duration,
                status_code,
                content_length,
                word_count,
                opt_str(language),
                depth,
                opt_str(proxy_used),
                r@.timestamp,
                self@,
            ),
    {
        let mut e = self.event(url, CrawlEventType::Completed);
        e.duration_ms = Some(millis_of(duration));
        e.status_code = Some(status_code);
        e.content_length = Some(content_length);
        e.word_count = Some(word_count);
        e.language = own_opt(language);
        e.depth = depth;
        e.proxy_used = own_opt(proxy_used);
        e
    }

    /// The event for a failed crawl: `Retrying` when another attempt will
    /// follow, `Failed` otherwise.
    pub fn log_crawl_failure(
        &self,
        url: &str,
        duration: u128,
        error_message: &str,
        retry_count: Option<u32>,
        depth: Option<u32>,
        will_retry: bool,
    ) -> (r: CrawlEvent)
        ensures
            r@ == crawl_failure_view(
                url@,
                duration,
                error_message@,
                retry_count,
                depth,
                will_retry,
                r@.timestamp,
                self@,
            ),
    {
        let event_type = if will_retry {
            CrawlEventType::Retrying
        } else {
            CrawlEventType::Failed
        };
        let mut e = self.event(url, event_type);
        e.duration_ms = Some(millis_of(duration));
        e.depth = depth;
        e.retry_count = retry_count;
        e.error_message = Some(error_message.to_string());
        e
    }

    /// The event for a URL that robots.txt forbids.
    pub fn log_robots_blocked(&self, url: &str, robots_url: &str) -> (r: CrawlEvent)
        ensures
            r@ == (CrawlEventView {
                error_message: Some("Blocked by robots.txt: "@ + robots_url@),
                ..bare_event(url@, CrawlEventType::Blocked, r@.timestamp, self@)
            }),
    {
        let mut e = self.event(url, CrawlEventType::Blocked);
        e.error_message = Some(concat_str("Blocked by robots.txt: ", robots_url));
        proof {
            reveal_strlit("Blocked by robots.txt: ");
        }
        e
    }

    /// The event for a request held back by a domain's rate limit.
    pub fn log_rate_limited(&self, url: &str, wait_time_ms: u64, domain: &str) -> (r: CrawlEvent)
        ensures
            r@ == (CrawlEventView {
                duration_ms: Some(wait_time_ms),
                error_message: Some("Rate limited for domain: "@ + domain@),
                ..bare_event(url@, CrawlEventType::RateLimited, r@.timestamp, self@)
            }),
    {
        let mut e = self.event(url, CrawlEventType::RateLimited);
        e.duration_ms = Some(wait_time_ms);
        e.error_message = Some(concat_str("Rate limited for domain: ", domain));
        proof {
            reveal_strlit("Rate limited for domain: ");
        }
        e
    }

    /// The event for a request that timed out.
    pub fn log_timeout(&self, url: &str, timeout_duration: u128) -> (r: CrawlEvent)
        ensures
            r@ == (CrawlEventView {
                duration_ms: Some(nanos_to_millis(timeout_duration)),
                error_message: Some("Request timeout"@),
                ..bare_event(url@, CrawlEventType::Timeout, r@.timestamp, self@)
            }),
    {
        let mut e = self.event(url, CrawlEventType::Timeout);
        e.duration_ms = Some(millis_of(timeout_duration));
        e.error_message = Some("Request timeout".to_string());
        proof {
            reveal_strlit("Request timeout");
        }
        e
    }

    /// The record of a performance measurement.
    pub fn log_performance(
        &self,
        event_type: PerformanceEventType,
        duration: u128,
        metadata: Option<&str>,
    ) -> (r: PerformanceEvent)
        ensures
            r.event_type == event_type,
            r.duration_ms == nanos_to_millis(duration),
    {
        PerformanceEvent { event_type, timestamp: now_millis(), duration_ms: millis_of(duration) }
    }

    /// The record of an error met while crawling.
    pub fn log_error(
        &self,
        error_type: ErrorType,
        error_message: &str,
        url: Option<&str>,
        context: Option<&str>,
    ) -> (r: ErrorEvent)
        ensures
            r.error_type == error_type,
            r.error_message@ == error_message@,
            opt_seq(r.url) == opt_str(url),
            r.error_code is None,
            opt_seq(r.context) == opt_str(context),
            r.retry_count is None,
            opt_seq(r.session_id) == Some(self@),
    {
        ErrorEvent {
            error_type,
            timestamp: now_millis(),
            url: own_opt(url),
            error_message: error_message.to_string(),
            error_code: None,
            context: own_opt(context),
            retry_count: None,
            session_id: Some(self.session_id.clone()),
        }
    }
}

} // verus!
