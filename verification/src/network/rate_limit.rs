//! Sliding-window rate limiting per domain. Each domain keeps the times of
//! its recent requests; a request may go ahead while fewer than the limit
//! fall inside the window. Times are milliseconds since the Unix epoch.
use vstd::prelude::*;
use crate::crawl_core::traits::RateLimiter;
use std::collections::VecDeque;
use crate::assoc::{assoc_find, assoc_insert, assoc_view, has_key, keys_unique, lemma_key_index, lemma_push};
use crate::common::now_millis;
use crate::crawl_core::types::DomainRateLimit;
use crate::random::random_up_to;

verus! {

/// The start of the window ending at `now`: `now - window`, or zero.
pub open spec fn window_cutoff(now: u64, window: u64) -> u64 {
    if now >= window { (now - window) as u64 } else { 0 }
}

/// The timestamps left once those at the front older than `cutoff` are
/// dropped.
pub open spec fn drop_older(s: Seq<u64>, cutoff: u64) -> Seq<u64>
    decreases s.len(),
{
    if s.len() > 0 && s[0] < cutoff {
        drop_older(s.drop_first(), cutoff)
    } else {
        s
    }
}

/// Timestamps in nondecreasing order.
pub open spec fn sorted_times(s: Seq<u64>) -> bool {
    forall|i: int, j: int| 0 <= i <= j < s.len() ==> s[i] <= s[j]
}

/// Dropping from the front leaves a suffix; in a sorted list every time left
/// is at or after the cutoff.
pub proof fn lemma_drop_older(s: Seq<u64>, cutoff: u64)
    ensures
        drop_older(s, cutoff).len() <= s.len(),
        drop_older(s, cutoff) == s.skip(s.len() - drop_older(s, cutoff).len()),
        sorted_times(s) ==> sorted_times(drop_older(s, cutoff)),
        sorted_times(s) ==> forall|i: int| 0 <= i < drop_older(s, cutoff).len()
            ==> drop_older(s, cutoff)[i] >= cutoff,
    decreases s.len(),
{
    if s.len() > 0 && s[0] < cutoff {
        lemma_drop_older(s.drop_first(), cutoff);
        let t = drop_older(s.drop_first(), cutoff);
        assert(s.drop_first().skip(s.drop_first().len() - t.len()) =~= s.skip(s.len() - t.len()));
        if sorted_times(s) {
            assert(sorted_times(s.drop_first()));
        }
    } else {
        assert(s.skip(0) =~= s);
        if sorted_times(s) && s.len() > 0 {
            assert forall|i: int| 0 <= i < s.len() implies s[i] >= cutoff by {
                assert(s[0] <= s[i]);
            }
        }
    }
}

/// The times of one domain's recent requests.
#[derive(Debug)]
pub struct DomainRequestTracker {
    pub request_timestamps: VecDeque<u64>,
    pub last_cleaned: u64,
}

impl DomainRequestTracker {
    /// An empty tracker, cleaned as of the current time.
    pub fn new() -> (r: Self)
        ensures
            r.request_timestamps@.len() == 0,
    {
        Self::new_at(now_millis())
    }

    /// An empty tracker, cleaned as of `now`.
    pub fn new_at(now: u64) -> (r: Self)
        ensures
            r.request_timestamps@.len() == 0,
            r.last_cleaned == now,
    {
        DomainRequestTracker { request_timestamps: VecDeque::new(), last_cleaned: now }
    }

    /// Drops the requests older than the window ending now.
    pub fn clean_old_timestamps(&mut self, window_size_ms: u64)
        ensures
            final(self).request_timestamps@ == drop_older(
                old(self).request_timestamps@,
                window_cutoff(final(self).last_cleaned, window_size_ms),
            ),
    {
        self.clean_old_timestamps_at(window_size_ms, now_millis());
    }

    /// Drops the requests older than the window ending at `now`, and notes
    /// `now` as the time of cleaning.
    pub fn clean_old_timestamps_at(&mut self, window_size_ms: u64, now: u64)
        ensures
            final(self).request_timestamps@ == drop_older(
                old(self).request_timestamps@,
                window_cutoff(now, window_size_ms),
            ),
            final(self).last_cleaned == now,
    {
        let cutoff = if now >= window_size_ms { now - window_size_ms } else { 0 };
        while self.request_timestamps.len() > 0 && self.request_timestamps[0] < cutoff
            invariant
                drop_older(self.request_timestamps@, cutoff) == drop_older(
                    old(self).request_timestamps@,
                    cutoff,
                ),
            decreases self.request_timestamps@.len(),
        {
            assert(self.request_timestamps@.drop_first() == self.request_timestamps@.subrange(
                1,
                self.request_timestamps@.len() as int,
            ));
            self.request_timestamps.pop_front();
        }
        self.last_cleaned = now;
    }

    /// Cleans the window ending now; a request may go ahead while fewer than
    /// the limit remain.
    pub fn can_make_request(&mut self, rate_limit: &DomainRateLimit) -> (r: bool)
        ensures
            final(self).request_timestamps@ == drop_older(
                old(self).request_timestamps@,
                window_cutoff(final(self).last_cleaned, rate_limit.window_size_ms),
            ),
            r == (final(self).request_timestamps@.len() < rate_limit.max_requests_per_second),
    {
        self.can_make_request_at(rate_limit, now_millis())
    }

    /// `can_make_request` with the window ending at `now`.
    pub fn can_make_request_at(&mut self, rate_limit: &DomainRateLimit, now: u64) -> (r: bool)
        ensures
            final(self).request_timestamps@ == drop_older(
                old(self).request_timestamps@,
                window_cutoff(now, rate_limit.window_size_ms),
            ),
            final(self).last_cleaned == now,
            r == (final(self).request_timestamps@.len() < rate_limit.max_requests_per_second),
    {
        self.clean_old_timestamps_at(rate_limit.window_size_ms, now);
        self.request_timestamps.len() < rate_limit.max_requests_per_second as usize
    }

    /// Records a request made now.
    pub fn record_request(&mut self)
        ensures
            final(self).request_timestamps@.len() == old(self).request_timestamps@.len() + 1,
            final(self).request_timestamps@.drop_last() == old(self).request_timestamps@,
            final(self).last_cleaned == old(self).last_cleaned,
    {
        self.record_request_at(now_millis());
    }

    /// Records a request made at `now`.
    pub fn record_request_at(&mut self, now: u64)
        ensures
            final(self).request_timestamps@ == old(self).request_timestamps@.push(now),
            final(self).last_cleaned == old(self).last_cleaned,
    {
        self.request_timestamps.push_back(now);
    }

    /// How long to wait before the next request: nothing when no request is
    /// recorded, otherwise the even spacing of the window (window divided by
    /// the limit) plus a random jitter of up to a quarter of it.
    pub fn calculate_wait_time(&self, rate_limit: &DomainRateLimit) -> (r: u64)
        requires
            self.request_timestamps@.len() > 0 ==> rate_limit.max_requests_per_second > 0,
            self.request_timestamps@.len() > 0 ==> rate_limit.window_size_ms
                / (rate_limit.max_requests_per_second as u64) + rate_limit.window_size_ms
                / (rate_limit.max_requests_per_second as u64) / 4 <= u64::MAX,
        ensures
            self.request_timestamps@.len() == 0 ==> r == 0,
            self.request_timestamps@.len() > 0 ==> ({
                let base = rate_limit.window_size_ms / (rate_limit.max_requests_per_second as u64);
                base <= r <= base + base / 4
            }),
    {
        if self.request_timestamps.len() == 0 {
            return 0;
        }
        let base = rate_limit.window_size_ms / (rate_limit.max_requests_per_second as u64);
        let jitter = random_up_to(base / 4);
        base + jitter
    }
}

impl Default for DomainRequestTracker {
    fn default() -> (r: Self)
        ensures
            r.request_timestamps@.len() == 0,
    {
        Self::new()
    }
}

/// The trackers kept by a cleanup at `now`: those cleaned within the last
/// hour.
pub open spec fn recent_trackers(
    m: Map<Seq<char>, DomainRequestTracker>,
    now: u64,
) -> Map<Seq<char>, DomainRequestTracker> {
    Map::new(
        |k: Seq<char>| m.contains_key(k) && m[k].last_cleaned + 3600000 > now,
        |k: Seq<char>| m[k],
    )
}

/// The wait a limit's spacing can add: fits in 64 bits with its jitter.
pub open spec fn limit_fits(l: DomainRateLimit) -> bool {
    l.max_requests_per_second > 0 && l.window_size_ms / (l.max_requests_per_second as u64)
        + l.window_size_ms / (l.max_requests_per_second as u64) / 4 <= u64::MAX
}

/// Abstract content of the global rate limiter.
pub struct GlobalRateLimiterView {
    pub domain_trackers: Map<Seq<char>, DomainRequestTracker>,
    pub default_rate_limit: DomainRateLimit,
    pub domain_specific_limits: Map<Seq<char>, DomainRateLimit>,
    pub last_cleanup: u64,
}

/// The limit that applies to a domain: its own, or the default.
pub open spec fn limit_for(v: GlobalRateLimiterView, domain: Seq<char>) -> DomainRateLimit {
    if v.domain_specific_limits.contains_key(domain) {
        v.domain_specific_limits[domain]
    } else {
        v.default_rate_limit
    }
}

/// The per-domain limits set in order from a list of (domain, limit): a
/// later entry for a domain replaces an earlier one.
pub open spec fn limits_map(v: Seq<(String, DomainRateLimit)>) -> Map<Seq<char>, DomainRateLimit>
    decreases v.len(),
{
    if v.len() == 0 {
        Map::empty()
    } else {
        limits_map(v.drop_last()).insert(v.last().0@, v.last().1)
    }
}

/// Rate limits for every domain, with per-domain overrides.
#[derive(Debug)]
pub struct GlobalRateLimiter {
    domain_trackers: Vec<(String, DomainRequestTracker)>,
    default_rate_limit: DomainRateLimit,
    domain_specific_limits: Vec<(String, DomainRateLimit)>,
    last_cleanup: u64,
}

impl View for GlobalRateLimiter {
    type V = GlobalRateLimiterView;

    closed spec fn view(&self) -> GlobalRateLimiterView {
        GlobalRateLimiterView {
            domain_trackers: assoc_view(self.domain_trackers@),
            default_rate_limit: self.default_rate_limit,
            domain_specific_limits: assoc_view(self.domain_specific_limits@),
            last_cleanup: self.last_cleanup,
        }
    }
}

impl GlobalRateLimiter {
    /// Well-formedness: one tracker and one limit per domain.
    pub closed spec fn wf(&self) -> bool {
        keys_unique(self.domain_trackers@) && keys_unique(self.domain_specific_limits@)
    }

    /// A limiter with no trackers and no overrides, last cleaned up now.
    pub fn new(default_rate_limit: DomainRateLimit) -> (r: Self)
        ensures
            r.wf(),
            r@.domain_trackers == Map::<Seq<char>, DomainRequestTracker>::empty(),
            r@.default_rate_limit == default_rate_limit,
            r@.domain_specific_limits == Map::<Seq<char>, DomainRateLimit>::empty(),
    {
        let r = GlobalRateLimiter {
            domain_trackers: Vec::new(),
            default_rate_limit,
            domain_specific_limits: Vec::new(),
            last_cleanup: now_millis(),
        };
        proof {
            assert(assoc_view(r.domain_trackers@) =~= Map::empty());
            assert(assoc_view(r.domain_specific_limits@) =~= Map::empty());
        }
        r
    }

    /// Sets the limit for one domain.
    pub fn add_domain_limit(&mut self, domain: String, rate_limit: DomainRateLimit)
        requires
            old(self).wf(),
        ensures
            final(self).wf(),
            final(self)@ == (GlobalRateLimiterView {
                domain_specific_limits: old(self)@.domain_specific_limits.insert(domain@, rate_limit),
                ..old(self)@
            }),
    {
        assoc_insert(&mut self.domain_specific_limits, domain, rate_limit);
    }

    /// The limit that applies to `domain`.
    pub fn get_rate_limit(&self, domain: &str) -> (r: DomainRateLimit)
        requires
            self.wf(),
        ensures
            r == limit_for(self@, domain@),
    {
        match assoc_find(&self.domain_specific_limits, domain) {
            Some(i) => {
                proof {
                    lemma_key_index(self.domain_specific_limits@, i as int);
                }
                self.domain_specific_limits[i].1
            },
            None => self.default_rate_limit,
        }
    }

    /// First step of `check_and_wait`: a domain whose tracker already holds
    /// the limit's worth of requests waits the tracker's spacing (with
    /// jitter) before going on; any other domain goes on at once.
    pub fn initial_wait(&self, domain: &str) -> (r: u64)
        requires
            self.wf(),
            limit_fits(limit_for(self@, domain@)),
        ensures
            !(self@.domain_trackers.contains_key(domain@) && self@.domain_trackers[domain@].request_timestamps@.len()
                >= limit_for(self@, domain@).max_requests_per_second) ==> r == 0,
            self@.domain_trackers.contains_key(domain@) && self@.domain_trackers[domain@].request_timestamps@.len()
                >= limit_for(self@, domain@).max_requests_per_second ==> ({
                let l = limit_for(self@, domain@);
                let base = l.window_size_ms / (l.max_requests_per_second as u64);
                base <= r <= base + base / 4
            }),
    {
        let rate_limit = self.get_rate_limit(domain);
        match assoc_find(&self.domain_trackers, domain) {
            Some(i) => {
                proof {
                    lemma_key_index(self.domain_trackers@, i as int);
                }
                let tracker = &self.domain_trackers[i].1;
                if tracker.request_timestamps.len() < rate_limit.max_requests_per_second as usize {
                    0
                } else {
                    tracker.calculate_wait_time(&rate_limit)
                }
            },
            None => 0,
        }
    }

    /// Takes the tracker of `domain` out of the table, or a new one made at
    /// `now`.
    fn take_tracker(&mut self, domain: &str, now: u64) -> (r: DomainRequestTracker)
        requires
            old(self).wf(),
        ensures
            final(self).wf(),
            !has_key(final(self).domain_trackers@, domain@),
            final(self)@ == (GlobalRateLimiterView {
                domain_trackers: old(self)@.domain_trackers.remove(domain@),
                ..old(self)@
            }),
            old(self)@.domain_trackers.contains_key(domain@) ==> r == old(self)@.domain_trackers[domain@],
            !old(self)@.domain_trackers.contains_key(domain@) ==> r.request_timestamps@.len() == 0
                && r.last_cleaned == now,
    {
        match assoc_find(&self.domain_trackers, domain) {
            Some(i) => {
                proof {
                    lemma_key_index(self.domain_trackers@, i as int);
                    crate::assoc::lemma_remove(self.domain_trackers@, i as int);
                }
                let (_k, t) = self.domain_trackers.remove(i);
                proof {
                    if has_key(self.domain_trackers@, domain@) {
                        assert(assoc_view(self.domain_trackers@).contains_key(domain@));
                    }
                }
                t
            },
            None => {
                proof {
                    assert(assoc_view(self.domain_trackers@) =~= assoc_view(self.domain_trackers@).remove(domain@));
                }
                DomainRequestTracker::new_at(now)
            },
        }
    }

    /// Puts a tracker back for `domain`.
    fn put_tracker(&mut self, domain: &str, tracker: DomainRequestTracker)
        requires
            old(self).wf(),
            !has_key(old(self).domain_trackers@, domain@),
        ensures
            final(self).wf(),
            final(self)@ == (GlobalRateLimiterView {
                domain_trackers: old(self)@.domain_trackers.insert(domain@, tracker),
                ..old(self)@
            }),
    {
        let key = domain.to_string();
        proof {
            lemma_push(self.domain_trackers@, key, tracker);
        }
        self.domain_trackers.push((key, tracker));
    }

    /// Second step of `check_and_wait`, at `now`: the domain's tracker (a new
    /// one if it has none) is cleaned of requests outside the window; if
    /// fewer than the limit remain, the request is recorded at `now` and
    /// `None` returned. Otherwise the wait before recording is returned,
    /// and the caller calls `record_after_wait` once it has waited.
    pub fn admit_request(&mut self, domain: &str, now: u64) -> (r: Option<u64>)
        requires
            old(self).wf(),
            limit_fits(limit_for(old(self)@, domain@)),
        ensures
            final(self).wf(),
            final(self)@.default_rate_limit == old(self)@.default_rate_limit,
            final(self)@.domain_specific_limits == old(self)@.domain_specific_limits,
            final(self)@.last_cleanup == old(self)@.last_cleanup,
            final(self)@.domain_trackers.dom() == old(self)@.domain_trackers.dom().insert(domain@),
            forall|k: Seq<char>| k != domain@ && #[trigger] old(self)@.domain_trackers.contains_key(k)
                ==> final(self)@.domain_trackers[k] == old(self)@.domain_trackers[k],
            ({
                let l = limit_for(old(self)@, domain@);
                let before = if old(self)@.domain_trackers.contains_key(domain@) {
                    old(self)@.domain_trackers[domain@].request_timestamps@
                } else {
                    Seq::<u64>::empty()
                };
                let kept = drop_older(before, window_cutoff(now, l.window_size_ms));
                &&& final(self)@.domain_trackers[domain@].last_cleaned == now
                &&& kept.len() < l.max_requests_per_second ==> r is None
                    && final(self)@.domain_trackers[domain@].request_timestamps@ == kept.push(now)
                &&& kept.len() >= l.max_requests_per_second ==> r is Some
                    && final(self)@.domain_trackers[domain@].request_timestamps@ == kept
                &&& r matches Some(w) ==> ({
                    let base = l.window_size_ms / (l.max_requests_per_second as u64);
                    base <= w <= base + base / 4
                })
                &&& r is None ==> final(self)@.domain_trackers[domain@].request_timestamps@.len()
                    <= l.max_requests_per_second
            }),
    {
        let rate_limit = self.get_rate_limit(domain);
        let mut tracker = self.take_tracker(domain, now);
        let ghost before_ts = tracker.request_timestamps@;
        tracker.clean_old_timestamps_at(rate_limit.window_size_ms, now);
        proof {
            let c = window_cutoff(now, rate_limit.window_size_ms);
            lemma_drop_older_front(before_ts, c);
            lemma_drop_older_idempotent(tracker.request_timestamps@, c);
        }
        let can = tracker.can_make_request_at(&rate_limit, now);
        if can {
            tracker.record_request_at(now);
            self.put_tracker(domain, tracker);
            None
        } else {
            let wait = tracker.calculate_wait_time(&rate_limit);
            self.put_tracker(domain, tracker);
            Some(wait)
        }
    }

    /// Last step of `check_and_wait` after a wait: the request is recorded
    /// at `now` in the domain's tracker (a new one if it was dropped).
    pub fn record_after_wait(&mut self, domain: &str, now: u64)
        requires
            old(self).wf(),
        ensures
            final(self).wf(),
            final(self)@.default_rate_limit == old(self)@.default_rate_limit,
            final(self)@.domain_specific_limits == old(self)@.domain_specific_limits,
            final(self)@.last_cleanup == old(self)@.last_cleanup,
            final(self)@.domain_trackers.dom() == old(self)@.domain_trackers.dom().insert(domain@),
            forall|k: Seq<char>| k != domain@ && #[trigger] old(self)@.domain_trackers.contains_key(k)
                ==> final(self)@.domain_trackers[k] == old(self)@.domain_trackers[k],
            old(self)@.domain_trackers.contains_key(domain@) ==> final(self)@.domain_trackers[domain@].request_timestamps@
                == old(self)@.domain_trackers[domain@].request_timestamps@.push(now),
            !old(self)@.domain_trackers.contains_key(domain@) ==> final(self)@.domain_trackers[domain@].request_timestamps@
                == seq![now],
    {
        let mut tracker = self.take_tracker(domain, now);
        tracker.record_request_at(now);
        self.put_tracker(domain, tracker);
        proof {
            if !old(self)@.domain_trackers.contains_key(domain@) {
                assert(Seq::<u64>::empty().push(now) =~= seq![now]);
            }
        }
    }

    /// Every five minutes, drops the trackers not cleaned within the last
    /// hour. Returns whether a cleanup ran.
    pub fn maybe_cleanup(&mut self, now: u64) -> (r: bool)
        requires
            old(self).wf(),
        ensures
            final(self).wf(),
            r == (now >= old(self)@.last_cleanup && now - old(self)@.last_cleanup > 300000),
            r ==> final(self)@ == (GlobalRateLimiterView {
                domain_trackers: recent_trackers(old(self)@.domain_trackers, now),
                last_cleanup: now,
                ..old(self)@
            }),
            !r ==> final(self)@ == old(self)@,
    {
        if now >= self.last_cleanup && now - self.last_cleanup > 300000 {
            self.last_cleanup = now;
            self.cleanup_old_trackers(now);
            true
        } else {
            false
        }
    }

    /// Drops the trackers not cleaned within the hour before `now`.
    fn cleanup_old_trackers(&mut self, now: u64)
        requires
            old(self).wf(),
        ensures
            final(self).wf(),
            final(self)@ == (GlobalRateLimiterView {
                domain_trackers: recent_trackers(old(self)@.domain_trackers, now),
                ..old(self)@
            }),
    {
        let mut old_trackers: Vec<(String, DomainRequestTracker)> = Vec::new();
        std::mem::swap(&mut old_trackers, &mut self.domain_trackers);
        let ghost src = old_trackers@;
        assert(src.len() == old_trackers.len());
        let mut kept: Vec<(String, DomainRequestTracker)> = Vec::new();
        let mut i: usize = 0;
        proof {
            assert(assoc_view(kept@) =~= recent_trackers(assoc_view(src.take(0)), now));
        }
        while old_trackers.len() > 0
            invariant
                old_trackers@ == src.skip(i as int),
                src.len() <= usize::MAX,
                keys_unique(src),
                i <= src.len(),
                keys_unique(kept@),
                forall|j: int| 0 <= j < kept@.len() ==> has_key(src.take(i as int), #[trigger] kept@[j].0@),
                assoc_view(kept@) == recent_trackers(assoc_view(src.take(i as int)), now),
            decreases old_trackers@.len(),
        {
            let ghost before = src.take(i as int);
            proof {
                assert(i < src.len());
                assert(src.skip(i as int)[0] == src[i as int]);
                assert(src.take(i as int + 1) =~= before.push(src[i as int]));
                assert(keys_unique(before));
                if has_key(before, src[i as int].0@) {
                    let j = choose|j: int| 0 <= j < before.len() && #[trigger] before[j].0@ == src[i as int].0@;
                    assert(src[j].0@ != src[i as int].0@);
                }
                lemma_push(before, src[i as int].0, src[i as int].1);
            }
            let (key, t) = old_trackers.remove(0);
            proof {
                assert(old_trackers@ =~= src.skip(i as int + 1));
            }
            let keep = t.last_cleaned as u128 + 3600000 > now as u128;
            if keep {
                proof {
                    assert(!has_key(kept@, key@)) by {
                        if has_key(kept@, key@) {
                            let j = choose|j: int| 0 <= j < kept@.len() && #[trigger] kept@[j].0@ == key@;
                            assert(has_key(before, kept@[j].0@));
                        }
                    }
                    lemma_push(kept@, key, t);
                }
                kept.push((key, t));
                proof {
                    assert(assoc_view(kept@) =~= recent_trackers(assoc_view(src.take(i as int + 1)), now));
                    assert forall|j: int| 0 <= j < kept@.len() implies has_key(src.take(i as int + 1), #[trigger] kept@[j].0@) by {
                        if j < kept@.len() - 1 {
                            let w = choose|w: int| 0 <= w < before.len() && #[trigger] before[w].0@ == kept@[j].0@;
                            assert(src.take(i as int + 1)[w] == before[w]);
                        } else {
                            assert(src.take(i as int + 1)[i as int] == src[i as int]);
                        }
                    }
                }
            } else {
                proof {
                    assert(assoc_view(kept@) =~= recent_trackers(assoc_view(src.take(i as int + 1)), now));
                    assert forall|j: int| 0 <= j < kept@.len() implies has_key(src.take(i as int + 1), #[trigger] kept@[j].0@) by {
                        let w = choose|w: int| 0 <= w < before.len() && #[trigger] before[w].0@ == kept@[j].0@;
                        assert(src.take(i as int + 1)[w] == before[w]);
                    }
                }
            }
            i = i + 1;
        }
        proof {
            assert(i == src.len());
            assert(src.take(src.len() as int) =~= src);
        }
        self.domain_trackers = kept;
    }

    /// The number of requests recorded for `domain` in its current window.
    pub fn get_current_request_count(&self, domain: &str) -> (r: usize)
        requires
            self.wf(),
        ensures
            self@.domain_trackers.contains_key(domain@) ==> r
                == self@.domain_trackers[domain@].request_timestamps@.len(),
            !self@.domain_trackers.contains_key(domain@) ==> r == 0,
    {
        match assoc_find(&self.domain_trackers, domain) {
            Some(i) => {
                proof {
                    lemma_key_index(self.domain_trackers@, i as int);
                }
                self.domain_trackers[i].1.request_timestamps.len()
            },
            None => 0,
        }
    }
}

impl RateLimiter for GlobalRateLimiter {
    /// The number of requests recorded for the domain's tracker, or 0.
    fn get_current_request_count(&self, domain: &str) -> (r: usize)
        ensures
            self.wf() ==> r == (if self@.domain_trackers.contains_key(domain@) {
                self@.domain_trackers[domain@].request_timestamps@.len()
            } else {
                0
            }),
    {
        match assoc_find(&self.domain_trackers, domain) {
            Some(i) => {
                proof {
                    if keys_unique(self.domain_trackers@) {
                        lemma_key_index(self.domain_trackers@, i as int);
                    }
                }
                self.domain_trackers[i].1.request_timestamps.len()
            },
            None => 0,
        }
    }
}

/// Cleaning twice at one cutoff is cleaning once.
pub proof fn lemma_drop_older_idempotent(s: Seq<u64>, cutoff: u64)
    requires
        s.len() > 0 ==> s[0] >= cutoff,
    ensures
        drop_older(s, cutoff) == s,
{
}

/// What cleaning leaves starts at or after the cutoff.
pub proof fn lemma_drop_older_front(s: Seq<u64>, cutoff: u64)
    ensures
        drop_older(s, cutoff).len() > 0 ==> drop_older(s, cutoff)[0] >= cutoff,
    decreases s.len(),
{
    if s.len() > 0 && s[0] < cutoff {
        lemma_drop_older_front(s.drop_first(), cutoff);
    }
}

} // verus!
