//! The decisions of the web crawler around each outside step of a crawl.
//! Crawling one URL alternates outside work (robots.txt, rate-limit waits,
//! DNS, the HTTP request, reading and extracting the body) with decisions;
//! the caller performs the outside work in order and asks this crawler,
//! after each step, whether to go on and which event to record.
use vstd::prelude::*;
use bloom::BloomFilter;
use crate::common::{hyphenated_uuid_text, new_uuid_v4};
use crate::crawl_core::types::DomainRateLimit;
use crate::crawler::visited::{
    bloom_items, bloom_num_bits, bloom_num_hashes, filter_contains, filter_insert, filter_num_bits,
    filter_num_hashes,
};
use crate::logging::events::{
    CrawlEvent, CrawlEventLogger, CrawlEventType, CrawlEventView, ErrorEvent, ErrorType,
    bare_event, crawl_failure_view, crawl_success_view, opt_str,
};
use crate::network::rate_limit::GlobalRateLimiter;
use crate::random::random_index;
use crate::text_util::{concat_str, decimal, has_prefix, opt_seq, starts_with, u64_to_string};

verus! {

/// Abstract content of the crawler's decision state.
pub struct WebCrawlerView {
    pub visited: Set<Seq<char>>,
    pub min_word_length: usize,
    pub proxy_pool: Seq<Seq<char>>,
    pub rate_limit_log_threshold_ms: u64,
    pub session_id: Seq<char>,
}

/// The kind of proxy a proxy URL names: SOCKS5 proxies carry all traffic,
/// others HTTP traffic.
#[derive(Clone, Copy, Debug, PartialEq, Eq, Structural)]
pub enum ProxyScope {
    All,
    Http,
}

/// The decision state of the web crawler: which URLs were already visited,
/// the minimum word count of useful content, the proxy pool, the threshold
/// above which rate-limit waits are logged and the event logger of the
/// session. The crawler's rate limiter and DNS cache are separate values
/// (see `rate_limiter_from_config` and `DnsCache`).
pub struct WebCrawler {
    visited: BloomFilter,
    min_word_length: usize,
    proxy_pool: Vec<String>,
    rate_limit_log_threshold_ms: u64,
    event_logger: CrawlEventLogger,
}

pub open spec fn texts(v: Seq<String>) -> Seq<Seq<char>> {
    v.map_values(|s: String| s@)
}

impl View for WebCrawler {
    type V = WebCrawlerView;

    closed spec fn view(&self) -> WebCrawlerView {
        WebCrawlerView {
            visited: bloom_items(self.visited),
            min_word_length: self.min_word_length,
            proxy_pool: texts(self.proxy_pool@),
            rate_limit_log_threshold_ms: self.rate_limit_log_threshold_ms,
            session_id: self.event_logger@,
        }
    }
}

/// The robots.txt address of a URL's site; `unknown` stands for a missing
/// host.
pub open spec fn robots_url_of(scheme: Seq<char>, host: Option<&str>) -> Seq<char> {
    scheme + "://"@ + (match host {
        Some(h) => h@,
        None => "unknown"@,
    }) + "/robots.txt"@
}

/// The failure message for a status that is not a success.
pub open spec fn status_failure_message(status: u16, reason: Option<Seq<char>>) -> Seq<char> {
    "HTTP error: "@ + decimal(status as nat) + " "@ + (match reason {
        Some(r) => r,
        None => "Unknown"@,
    })
}

/// The failure message for content with too few words.
pub open spec fn too_short_message(word_count: usize, min: usize) -> Seq<char> {
    "Content too short: "@ + decimal(word_count as nat) + " words < "@ + decimal(min as nat)
        + " minimum"@
}

/// The stages of the crawl of one URL, in order: the visited check,
/// robots.txt, the rate limiter, the request, reading the body (with the
/// response's status and announced length), extraction, and the end.
#[derive(Clone, Copy, Debug, PartialEq, Eq, Structural)]
pub enum CrawlStage {
    Visited,
    Robots,
    RateLimit,
    Fetch,
    ReadBody(u16, u64),
    Extract(u16, u64),
    Done,
}

/// What the caller observed at a stage.
#[derive(Debug, PartialEq, Eq)]
pub enum CrawlInput {
    /// The filter's answer for the URL (whether it may have been seen).
    VisitedAnswer(bool),
    /// Whether robots.txt allows the URL.
    RobotsAnswer(bool),
    /// How long the rate limiter made the request wait, in milliseconds.
    Waited(u64),
    /// The response's status, reason phrase and announced length (0 when
    /// not announced).
    Responded(u16, Option<String>, u64),
    /// The request could not be sent, with the error's text.
    SendFailed(String),
    /// The response body.
    BodyRead(String),
    /// The body could not be read, with the error's text.
    BodyFailed(String),
    /// The extracted text and its word count.
    Extracted(String, usize),
    /// Extraction failed, with the error's text.
    ExtractFailed(String),
}

/// The outcome of one stage.
#[derive(Debug)]
pub struct CrawlTransition {
    /// The stage to go on with.
    pub next: CrawlStage,
    /// The event to record, if any.
    pub event: Option<CrawlEvent>,
    /// When the crawl is over, its result: the content (`None` when there
    /// is none to keep), or the error's text.
    pub result: Option<Result<Option<String>, String>>,
}

/// The text of a crawl result.
pub open spec fn transition_result_view(r: Option<Result<Option<String>, String>>) -> Option<Result<Option<Seq<char>>, Seq<char>>> {
    match r {
        Some(Ok(Some(t))) => Some(Ok(Some(t@))),
        Some(Ok(None)) => Some(Ok(None)),
        Some(Err(e)) => Some(Err(e@)),
        None => None,
    }
}

/// The view of an optional event.
pub open spec fn event_view(e: Option<CrawlEvent>) -> Option<CrawlEventView> {
    match e {
        Some(x) => Some(x@),
        None => None,
    }
}

/// The time an optional event was made (0 for none).
pub open spec fn event_timestamp(e: Option<CrawlEvent>) -> u64 {
    match e {
        Some(x) => x@.timestamp,
        None => 0,
    }
}

/// The next stage and, once over, the result of the crawl, for an
/// observation at a stage. A URL the filter may have seen, one robots.txt
/// forbids, an empty body: the crawl ends with no content. A send or read
/// failure, a status outside 200..300 or a failed extraction: it ends with
/// the error. Extracted text ends it with the text when it has enough
/// words. Otherwise it goes on to the next stage.
pub open spec fn crawl_transition(c: WebCrawlerView, stage: CrawlStage, input: CrawlInput) -> (
    CrawlStage,
    Option<Result<Option<Seq<char>>, Seq<char>>>,
) {
    match (stage, input) {
        (CrawlStage::Visited, CrawlInput::VisitedAnswer(seen)) => if seen {
            (CrawlStage::Done, Some(Ok(None)))
        } else {
            (CrawlStage::Robots, None)
        },
        (CrawlStage::Robots, CrawlInput::RobotsAnswer(allowed)) => if allowed {
            (CrawlStage::RateLimit, None)
        } else {
            (CrawlStage::Done, Some(Ok(None)))
        },
        (CrawlStage::RateLimit, CrawlInput::Waited(_)) => (CrawlStage::Fetch, None),
        (CrawlStage::Fetch, CrawlInput::SendFailed(d)) => (CrawlStage::Done, Some(Err(d@))),
        (CrawlStage::Fetch, CrawlInput::Responded(status, reason, length)) => if 200 <= status < 300 {
            (CrawlStage::ReadBody(status, length), None)
        } else {
            (CrawlStage::Done, Some(Err(status_failure_message(status, crate::web_url::opt_text(reason)))))
        },
        (CrawlStage::ReadBody(_, _), CrawlInput::BodyFailed(d)) => (CrawlStage::Done, Some(Err(d@))),
        (CrawlStage::ReadBody(status, length), CrawlInput::BodyRead(body)) => if body@.len() == 0 {
            (CrawlStage::Done, Some(Ok(None)))
        } else {
            (CrawlStage::Extract(status, length), None)
        },
        (CrawlStage::Extract(_, _), CrawlInput::ExtractFailed(d)) => (CrawlStage::Done, Some(Err(d@))),
        (CrawlStage::Extract(_, _), CrawlInput::Extracted(text, wc)) => if wc >= c.min_word_length {
            (CrawlStage::Done, Some(Ok(Some(text@))))
        } else {
            (CrawlStage::Done, Some(Ok(None)))
        },
        (st, _) => (st, None),
    }
}

/// The event recorded for an observation at a stage (made at time `ts`).
pub open spec fn transition_event(
    c: WebCrawlerView,
    stage: CrawlStage,
    input: CrawlInput,
    url: Seq<char>,
    scheme: Seq<char>,
    host: Option<&str>,
    elapsed: u128,
    ts: u64,
) -> Option<CrawlEventView> {
    let fail = |m: Seq<char>| Some(crawl_failure_view(url, elapsed, m, None, None, false, ts, c.session_id));
    match (stage, input) {
        (CrawlStage::Visited, CrawlInput::VisitedAnswer(seen)) => if seen {
            fail("URL already visited (Bloom filter)"@)
        } else {
            None
        },
        (CrawlStage::Robots, CrawlInput::RobotsAnswer(allowed)) => if allowed {
            None
        } else {
            Some(CrawlEventView {
                error_message: Some("Blocked by robots.txt: "@ + robots_url_of(scheme, host)),
                ..bare_event(url, CrawlEventType::Blocked, ts, c.session_id)
            })
        },
        (CrawlStage::RateLimit, CrawlInput::Waited(ms)) => if ms > c.rate_limit_log_threshold_ms {
            Some(CrawlEventView {
                duration_ms: Some(ms),
                error_message: Some("Rate limited for domain: "@ + (match host {
                    Some(h) => h@,
                    None => "unknown"@,
                })),
                ..bare_event(url, CrawlEventType::RateLimited, ts, c.session_id)
            })
        } else {
            None
        },
        (CrawlStage::Fetch, CrawlInput::SendFailed(d)) => fail("Network error: "@ + d@),
        (CrawlStage::Fetch, CrawlInput::Responded(status, reason, _)) => if 200 <= status < 300 {
            None
        } else {
            fail(status_failure_message(status, crate::web_url::opt_text(reason)))
        },
        (CrawlStage::ReadBody(_, _), CrawlInput::BodyFailed(d)) => fail("Failed to read response body: "@ + d@),
        (CrawlStage::ReadBody(_, _), CrawlInput::BodyRead(body)) => if body@.len() == 0 {
            fail("Empty response content"@)
        } else {
            None
        },
        (CrawlStage::Extract(_, _), CrawlInput::ExtractFailed(d)) => fail("Content processing error: "@ + d@),
        (CrawlStage::Extract(status, length), CrawlInput::Extracted(_, wc)) => if wc >= c.min_word_length {
            Some(crawl_success_view(
                url,
                elapsed,
                status,
                length,
                wc,
                None,
                None,
                if c.proxy_pool.len() > 0 { Some("proxy"@) } else { None },
                ts,
                c.session_id,
            ))
        } else {
            fail(too_short_message(wc, c.min_word_length))
        },
        _ => None,
    }
}

impl WebCrawler {
    /// Well-formedness: a usable filter, with bits and hash functions.
    pub closed spec fn wf(&self) -> bool {
        bloom_num_bits(self.visited) > 0 && bloom_num_hashes(self.visited) > 0
    }

    /// A crawler for one session; the session gets a fresh identifier when
    /// none is given.
    pub fn new_with_session(
        visited: BloomFilter,
        min_word_length: usize,
        proxy_pool: Vec<String>,
        rate_limit_log_threshold_ms: u64,
        session_id: Option<String>,
    ) -> (r: Self)
        requires
            bloom_num_bits(visited) > 0,
            bloom_num_hashes(visited) > 0,
        ensures
            r.wf(),
            r@.visited == bloom_items(visited),
            r@.min_word_length == min_word_length,
            r@.proxy_pool == texts(proxy_pool@),
            r@.rate_limit_log_threshold_ms == rate_limit_log_threshold_ms,
            session_id matches Some(s) ==> r@.session_id == s@,
            session_id is None ==> hyphenated_uuid_text(r@.session_id),
    {
        let session = match session_id {
            Some(s) => s,
            None => new_uuid_v4(),
        };
        WebCrawler {
            visited,
            min_word_length,
            proxy_pool,
            rate_limit_log_threshold_ms,
            event_logger: CrawlEventLogger::new(session),
        }
    }

    /// `new_with_session` for a filter that has bits and hash functions;
    /// `None` for a filter without either, which could not answer.
    pub fn try_new_with_session(
        visited: BloomFilter,
        min_word_length: usize,
        proxy_pool: Vec<String>,
        rate_limit_log_threshold_ms: u64,
        session_id: Option<String>,
    ) -> (r: Option<Self>)
        ensures
            (bloom_num_bits(visited) > 0 && bloom_num_hashes(visited) > 0) <==> r is Some,
            r matches Some(c) ==> {
                &&& c.wf()
                &&& c@.visited == bloom_items(visited)
                &&& c@.min_word_length == min_word_length
                &&& c@.proxy_pool == texts(proxy_pool@)
                &&& c@.rate_limit_log_threshold_ms == rate_limit_log_threshold_ms
                &&& session_id matches Some(s) ==> c@.session_id == s@
                &&& session_id is None ==> hyphenated_uuid_text(c@.session_id)
            },
    {
        if filter_num_bits(&visited) == 0 || filter_num_hashes(&visited) == 0 {
            None
        } else {
            Some(Self::new_with_session(visited, min_word_length, proxy_pool, rate_limit_log_threshold_ms, session_id))
        }
    }

    /// The event logger of the session.
    pub fn event_logger(&self) -> (r: &CrawlEventLogger)
        ensures
            r@ == self@.session_id,
    {
        &self.event_logger
    }

    /// Step 1 of a crawl: a URL the filter may have seen is not crawled
    /// again (the failure event is returned); any other URL is recorded as
    /// visited and the crawl goes on (`None`). The filter's answer for a URL
    /// it never saw may be a false positive; `after_visited_lookup` says
    /// what follows from each answer. A crawler that has visited nothing
    /// always goes on.
    pub fn check_visited(&mut self, url: &str, elapsed: u128) -> (r: Option<CrawlEvent>)
        requires
            old(self).wf(),
        ensures
            final(self).wf(),
            old(self)@.visited.contains(url@) ==> r is Some,
            old(self)@.visited == Set::<Seq<char>>::empty() ==> r is None,
            r is None ==> final(self)@ == (WebCrawlerView {
                visited: old(self)@.visited.insert(url@),
                ..old(self)@
            }),
            r matches Some(e) ==> final(self)@ == old(self)@ && e@ == crawl_failure_view(
                url@,
                elapsed,
                "URL already visited (Bloom filter)"@,
                None,
                None,
                false,
                e@.timestamp,
                old(self)@.session_id,
            ),
    {
        let seen = filter_contains(&self.visited, url);
        self.after_visited_lookup(url, elapsed, seen)
    }

    /// The filter's answer for the URL: `true` for every visited URL, and
    /// possibly for one never visited (a false positive); `false` while
    /// nothing has been visited.
    pub fn may_have_visited(&self, url: &str) -> (r: bool)
        requires
            self.wf(),
        ensures
            self@.visited.contains(url@) ==> r,
            self@.visited == Set::<Seq<char>>::empty() ==> !r,
    {
        filter_contains(&self.visited, url)
    }

    /// What step 1 does with the filter's answer `seen` for the URL: a seen
    /// URL gives the failure event and changes nothing; an unseen one is
    /// recorded as visited and the crawl goes on.
    pub fn after_visited_lookup(&mut self, url: &str, elapsed: u128, seen: bool) -> (r: Option<CrawlEvent>)
        requires
            old(self).wf(),
        ensures
            final(self).wf(),
            !seen ==> r is None && final(self)@ == (WebCrawlerView {
                visited: old(self)@.visited.insert(url@),
                ..old(self)@
            }),
            seen ==> final(self)@ == old(self)@ && (r matches Some(e) && e@ == crawl_failure_view(
                url@,
                elapsed,
                "URL already visited (Bloom filter)"@,
                None,
                None,
                false,
                e@.timestamp,
                old(self)@.session_id,
            )),
    {
        if seen {
            proof {
                reveal_strlit("URL already visited (Bloom filter)");
            }
            Some(
                self.event_logger.log_crawl_failure(
                    url,
                    elapsed,
                    "URL already visited (Bloom filter)",
                    None,
                    None,
                    false,
                ),
            )
        } else {
            filter_insert(&mut self.visited, url);
            None
        }
    }

    /// The robots.txt address of the site of a URL with this scheme and host.
    pub fn robots_url(scheme: &str, host: Option<&str>) -> (r: String)
        ensures
            r@ == robots_url_of(scheme@, host),
    {
        let mut s = concat_str(scheme, "://");
        match host {
            Some(h) => s.append(h),
            None => s.append("unknown"),
        }
        s.append("/robots.txt");
        proof {
            reveal_strlit("://");
            reveal_strlit("unknown");
            reveal_strlit("/robots.txt");
        }
        s
    }

    /// Step 2, when robots.txt forbids the URL: the event to record; the
    /// crawl yields nothing.
    pub fn robots_blocked(&self, url: &str, scheme: &str, host: Option<&str>) -> (r: CrawlEvent)
        ensures
            r@ == (CrawlEventView {
                error_message: Some("Blocked by robots.txt: "@ + robots_url_of(scheme@, host)),
                ..bare_event(url@, CrawlEventType::Blocked, r@.timestamp, self@.session_id)
            }),
    {
        let robots = Self::robots_url(scheme, host);
        self.event_logger.log_robots_blocked(url, robots.as_str())
    }

    /// Step 3, after the rate limiter let the request through: a wait longer
    /// than the threshold is logged.
    pub fn rate_limit_notice(&self, url: &str, waited_ms: u64, domain: &str) -> (r: Option<CrawlEvent>)
        ensures
            waited_ms <= self@.rate_limit_log_threshold_ms ==> r is None,
            waited_ms > self@.rate_limit_log_threshold_ms ==> (r matches Some(e) && e@ == (
            CrawlEventView {
                duration_ms: Some(waited_ms),
                error_message: Some("Rate limited for domain: "@ + domain@),
                ..bare_event(url@, CrawlEventType::RateLimited, e@.timestamp, self@.session_id)
            })),
    {
        if waited_ms > self.rate_limit_log_threshold_ms {
            Some(self.event_logger.log_rate_limited(url, waited_ms, domain))
        } else {
            None
        }
    }

    /// A proxy from the pool, chosen at random; `None` when the pool is
    /// empty.
    pub fn choose_proxy(&self) -> (r: Option<String>)
        ensures
            self@.proxy_pool.len() == 0 ==> r is None,
            self@.proxy_pool.len() > 0 ==> (r matches Some(p) && self@.proxy_pool.contains(p@)),
    {
        if self.proxy_pool.len() == 0 {
            None
        } else {
            let i = random_index(self.proxy_pool.len());
            let p = self.proxy_pool[i].clone();
            proof {
                assert(texts(self.proxy_pool@)[i as int] == p@);
            }
            Some(p)
        }
    }

    /// Whether a proxy was in use for the request, as recorded in the
    /// success event.
    pub fn proxy_info(&self) -> (r: Option<&'static str>)
        ensures
            self@.proxy_pool.len() == 0 ==> r is None,
            self@.proxy_pool.len() > 0 ==> (r matches Some(s) && s@ == "proxy"@),
    {
        if self.proxy_pool.len() == 0 {
            None
        } else {
            proof {
                reveal_strlit("proxy");
            }
            Some("proxy")
        }
    }

    /// Step 4, when the request could not be sent: the failure event.
    pub fn network_failure(&self, url: &str, elapsed: u128, detail: &str) -> (r: CrawlEvent)
        ensures
            r@ == crawl_failure_view(
                url@,
                elapsed,
                "Network error: "@ + detail@,
                None,
                None,
                false,
                r@.timestamp,
                self@.session_id,
            ),
    {
        proof {
            reveal_strlit("Network error: ");
        }
        let msg = concat_str("Network error: ", detail);
        self.event_logger.log_crawl_failure(url, elapsed, msg.as_str(), None, None, false)
    }

    /// Step 5, the status check: a status outside 200..300 ends the crawl
    /// with its message and failure event.
    pub fn status_failure(
        &self,
        url: &str,
        elapsed: u128,
        status: u16,
        reason: Option<&str>,
    ) -> (r: Option<(String, CrawlEvent)>)
        ensures
            200 <= status < 300 ==> r is None,
            !(200 <= status < 300) ==> (r matches Some(p) && p.0@ == status_failure_message(
                status,
                opt_str(reason),
            ) && p.1@ == crawl_failure_view(
                url@,
                elapsed,
                status_failure_message(status, opt_str(reason)),
                None,
                None,
                false,
                p.1@.timestamp,
                self@.session_id,
            )),
    {
        if 200 <= status && status < 300 {
            return None;
        }
        let mut msg = concat_str("HTTP error: ", u64_to_string(status as u64).as_str());
        msg.append(" ");
        match reason {
            Some(s) => msg.append(s),
            None => msg.append("Unknown"),
        }
        proof {
            reveal_strlit("HTTP error: ");
            reveal_strlit(" ");
            reveal_strlit("Unknown");
        }
        let e = self.event_logger.log_crawl_failure(url, elapsed, msg.as_str(), None, None, false);
        Some((msg, e))
    }

    /// Step 6, when the body could not be read: the failure event.
    pub fn body_failure(&self, url: &str, elapsed: u128, detail: &str) -> (r: CrawlEvent)
        ensures
            r@ == crawl_failure_view(
                url@,
                elapsed,
                "Failed to read response body: "@ + detail@,
                None,
                None,
                false,
                r@.timestamp,
                self@.session_id,
            ),
    {
        proof {
            reveal_strlit("Failed to read response body: ");
        }
        let msg = concat_str("Failed to read response body: ", detail);
        self.event_logger.log_crawl_failure(url, elapsed, msg.as_str(), None, None, false)
    }

    /// Step 7: an empty body ends the crawl with nothing.
    pub fn empty_content(&self, url: &str, elapsed: u128, content: &str) -> (r: Option<CrawlEvent>)
        ensures
            content@.len() > 0 ==> r is None,
            content@.len() == 0 ==> (r matches Some(e) && e@ == crawl_failure_view(
                url@,
                elapsed,
                "Empty response content"@,
                None,
                None,
                false,
                e@.timestamp,
                self@.session_id,
            )),
    {
        if content.unicode_len() > 0 {
            return None;
        }
        proof {
            reveal_strlit("Empty response content");
        }
        Some(
            self.event_logger.log_crawl_failure(
                url,
                elapsed,
                "Empty response content",
                None,
                None,
                false,
            ),
        )
    }

    /// Step 8, when content extraction failed: the failure event.
    pub fn processing_failure(&self, url: &str, elapsed: u128, detail: &str) -> (r: CrawlEvent)
        ensures
            r@ == crawl_failure_view(
                url@,
                elapsed,
                "Content processing error: "@ + detail@,
                None,
                None,
                false,
                r@.timestamp,
                self@.session_id,
            ),
    {
        proof {
            reveal_strlit("Content processing error: ");
        }
        let msg = concat_str("Content processing error: ", detail);
        self.event_logger.log_crawl_failure(url, elapsed, msg.as_str(), None, None, false)
    }

    /// Last step: the extracted text is the crawl's result when it has at
    /// least the minimum number of words (with a success event); otherwise
    /// the crawl yields nothing (with a failure event).
    pub fn finish_crawl(
        &self,
        url: &str,
        elapsed: u128,
        status: u16,
        content_length: u64,
        text: String,
        word_count: usize,
    ) -> (r: (Option<String>, CrawlEvent))
        ensures
            word_count >= self@.min_word_length ==> (r.0 matches Some(t) && t@ == text@ && r.1@
                == crawl_success_view(
                url@,
                elapsed,
                status,
                content_length,
                word_count,
                None,
                None,
                if self@.proxy_pool.len() > 0 { Some("proxy"@) } else { None },
                r.1@.timestamp,
                self@.session_id,
            )),
            word_count < self@.min_word_length ==> r.0 is None && r.1@ == crawl_failure_view(
                url@,
                elapsed,
                too_short_message(word_count, self@.min_word_length),
                None,
                None,
                false,
                r.1@.timestamp,
                self@.session_id,
            ),
    {
        if word_count >= self.min_word_length {
            let proxy = self.proxy_info();
            let e = self.event_logger.log_crawl_success(
                url,
                elapsed,
                status,
                content_length,
                word_count,
                None,
                None,
                proxy,
            );
            (Some(text), e)
        } else {
            let mut msg = concat_str("Content too short: ", u64_to_string(word_count as u64).as_str());
            msg.append(" words < ");
            msg.append(u64_to_string(self.min_word_length as u64).as_str());
            msg.append(" minimum");
            proof {
                reveal_strlit("Content too short: ");
                reveal_strlit(" words < ");
                reveal_strlit(" minimum");
            }
            let e = self.event_logger.log_crawl_failure(url, elapsed, msg.as_str(), None, None, false);
            (None, e)
        }
    }

    /// One step of the crawl of a URL: given the stage it stands at and
    /// what the caller observed there, the next stage, the event to record
    /// and, once the crawl is over, its result (see `crawl_transition` and
    /// `transition_event`). An observation that does not belong to the
    /// stage changes nothing.
    pub fn advance(
        &mut self,
        stage: CrawlStage,
        input: CrawlInput,
        url: &str,
        scheme: &str,
        host: Option<&str>,
        elapsed: u128,
    ) -> (r: CrawlTransition)
        requires
            old(self).wf(),
        ensures
            final(self).wf(),
            (r.next, transition_result_view(r.result)) == crawl_transition(old(self)@, stage, input),
            event_view(r.event) == transition_event(
                old(self)@,
                stage,
                input,
                url@,
                scheme@,
                host,
                elapsed,
                event_timestamp(r.event),
            ),
            final(self)@ == (if stage == CrawlStage::Visited && input == CrawlInput::VisitedAnswer(false) {
                WebCrawlerView { visited: old(self)@.visited.insert(url@), ..old(self)@ }
            } else {
                old(self)@
            }),
    {
        match (stage, input) {
            (CrawlStage::Visited, CrawlInput::VisitedAnswer(seen)) => {
                let e = self.after_visited_lookup(url, elapsed, seen);
                if seen {
                    CrawlTransition { next: CrawlStage::Done, event: e, result: Some(Ok(None)) }
                } else {
                    CrawlTransition { next: CrawlStage::Robots, event: None, result: None }
                }
            },
            (CrawlStage::Robots, CrawlInput::RobotsAnswer(allowed)) => {
                if allowed {
                    CrawlTransition { next: CrawlStage::RateLimit, event: None, result: None }
                } else {
                    let e = self.robots_blocked(url, scheme, host);
                    CrawlTransition { next: CrawlStage::Done, event: Some(e), result: Some(Ok(None)) }
                }
            },
            (CrawlStage::RateLimit, CrawlInput::Waited(ms)) => {
                proof {
                    reveal_strlit("unknown");
                }
                let domain: &str = match host {
                    Some(h) => h,
                    None => "unknown",
                };
                let e = self.rate_limit_notice(url, ms, domain);
                CrawlTransition { next: CrawlStage::Fetch, event: e, result: None }
            },
            (CrawlStage::Fetch, CrawlInput::SendFailed(detail)) => {
                let e = self.network_failure(url, elapsed, detail.as_str());
                CrawlTransition { next: CrawlStage::Done, event: Some(e), result: Some(Err(detail)) }
            },
            (CrawlStage::Fetch, CrawlInput::Responded(status, reason, length)) => {
                let reason_str: Option<&str> = match &reason {
                    Some(x) => Some(x.as_str()),
                    None => None,
                };
                match self.status_failure(url, elapsed, status, reason_str) {
                    Some((msg, e)) => CrawlTransition { next: CrawlStage::Done, event: Some(e), result: Some(Err(msg)) },
                    None => CrawlTransition {
                        next: CrawlStage::ReadBody(status, length),
                        event: None,
                        result: None,
                    },
                }
            },
            (CrawlStage::ReadBody(_, _), CrawlInput::BodyFailed(detail)) => {
                let e = self.body_failure(url, elapsed, detail.as_str());
                CrawlTransition { next: CrawlStage::Done, event: Some(e), result: Some(Err(detail)) }
            },
            (CrawlStage::ReadBody(status, length), CrawlInput::BodyRead(body)) => {
                match self.empty_content(url, elapsed, body.as_str()) {
                    Some(e) => CrawlTransition { next: CrawlStage::Done, event: Some(e), result: Some(Ok(None)) },
                    None => CrawlTransition { next: CrawlStage::Extract(status, length), event: None, result: None },
                }
            },
            (CrawlStage::Extract(_, _), CrawlInput::ExtractFailed(detail)) => {
                let e = self.processing_failure(url, elapsed, detail.as_str());
                CrawlTransition { next: CrawlStage::Done, event: Some(e), result: Some(Err(detail)) }
            },
            (CrawlStage::Extract(status, length), CrawlInput::Extracted(text, word_count)) => {
                let (res, e) = self.finish_crawl(url, elapsed, status, length, text, word_count);
                CrawlTransition { next: CrawlStage::Done, event: Some(e), result: Some(Ok(res)) }
            },
            (st, _) => CrawlTransition { next: st, event: None, result: None },
        }
    }

    /// The error record of a URL whose crawl failed during a concurrent run.
    pub fn concurrent_crawl_error(&self, url: &str, detail: &str) -> (r: ErrorEvent)
        ensures
            r.error_type == ErrorType::NetworkError,
            r.error_message@ == "Concurrent crawl error: "@ + detail@,
            opt_seq(r.url) == Some(url@),
            opt_seq(r.context) == Some("run_concurrent_crawling"@),
            opt_seq(r.session_id) == Some(self@.session_id),
    {
        proof {
            reveal_strlit("Concurrent crawl error: ");
            reveal_strlit("run_concurrent_crawling");
        }
        let msg = concat_str("Concurrent crawl error: ", detail);
        self.event_logger.log_error(
            ErrorType::NetworkError,
            msg.as_str(),
            Some(url),
            Some("run_concurrent_crawling"),
        )
    }
}

/// The crawler's rate limiter: the configured default limit (two requests
/// a second when none is configured) with the per-domain limits applied in
/// order.
pub fn rate_limiter_from_config(
    default_rate_limit: Option<DomainRateLimit>,
    domain_rate_limits: Option<Vec<(String, DomainRateLimit)>>,
) -> (r: GlobalRateLimiter)
    ensures
        r.wf(),
        r@.domain_trackers.len() == 0,
        r@.default_rate_limit == (match default_rate_limit {
            Some(l) => l,
            None => DomainRateLimit { max_requests_per_second: 2, window_size_ms: 1000 },
        }),
        domain_rate_limits is None ==> r@.domain_specific_limits.len() == 0,
        domain_rate_limits matches Some(v) ==> r@.domain_specific_limits
            == crate::network::rate_limit::limits_map(v@),
{
    let default_limit = match default_rate_limit {
        Some(l) => l,
        None => DomainRateLimit::default_limit(),
    };
    let mut rate_limiter = GlobalRateLimiter::new(default_limit);
    match domain_rate_limits {
        Some(limits) => {
            let mut i: usize = 0;
            while i < limits.len()
                invariant
                    rate_limiter.wf(),
                    i <= limits@.len(),
                    rate_limiter@.default_rate_limit == default_limit,
                    rate_limiter@.domain_trackers.len() == 0,
                    rate_limiter@.domain_specific_limits == crate::network::rate_limit::limits_map(
                        limits@.take(i as int),
                    ),
                decreases limits@.len() - i,
            {
                let domain = limits[i].0.clone();
                rate_limiter.add_domain_limit(domain, limits[i].1);
                proof {
                    let t = limits@.take(i as int + 1);
                    assert(t.drop_last() =~= limits@.take(i as int));
                    assert(t.last() == limits@[i as int]);
                }
                i = i + 1;
            }
            proof {
                assert(limits@.take(limits@.len() as int) =~= limits@);
            }
        },
        None => {},
    }
    rate_limiter
}

/// SOCKS5 proxies (URLs starting with `socks5://`) carry all traffic; any
/// other proxy URL is used for HTTP.
pub fn proxy_scope(proxy_url: &str) -> (r: ProxyScope)
    ensures
        has_prefix(proxy_url@, "socks5://"@) ==> r == ProxyScope::All,
        !has_prefix(proxy_url@, "socks5://"@) ==> r == ProxyScope::Http,
{
    proof {
        reveal_strlit("socks5://");
    }
    if starts_with(proxy_url, "socks5://") {
        ProxyScope::All
    } else {
        ProxyScope::Http
    }
}

/// A crawl never visits a URL twice: once `check_visited` let a URL
/// through, the URL is among the visited ones, and a second check refuses
/// it.
pub proof fn lemma_visit_once(v: WebCrawlerView, url: Seq<char>)
    ensures
        (WebCrawlerView { visited: v.visited.insert(url), ..v }).visited.contains(url),
{
}

} // verus!
