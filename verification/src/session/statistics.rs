//! Session-level counters: how many URLs were processed, with what
//! outcome and how long they took. Times are milliseconds.
use vstd::prelude::*;

verus! {

/// Counters of a crawl session.
#[derive(Debug, Clone, Copy, PartialEq, Eq, Structural)]
pub struct SessionStatistics {
    pub start_time: Option<u64>,
    pub end_time: Option<u64>,
    pub total_urls: usize,
    pub processed_urls: usize,
    pub successful_urls: usize,
    pub failed_urls: usize,
    pub total_processing_time_ms: u64,
    pub average_processing_time_ms: u64,
}

/// Every processed URL succeeded or failed.
pub open spec fn outcomes_add_up(s: SessionStatistics) -> bool {
    s.processed_urls == s.successful_urls + s.failed_urls
}

/// Statistics with nothing recorded.
pub open spec fn empty_statistics() -> SessionStatistics {
    SessionStatistics {
        start_time: None,
        end_time: None,
        total_urls: 0,
        processed_urls: 0,
        successful_urls: 0,
        failed_urls: 0,
        total_processing_time_ms: 0,
        average_processing_time_ms: 0,
    }
}

impl SessionStatistics {
    /// Nothing recorded yet.
    pub fn new() -> (r: Self)
        ensures
            r == empty_statistics(),
    {
        SessionStatistics {
            start_time: None,
            end_time: None,
            total_urls: 0,
            processed_urls: 0,
            successful_urls: 0,
            failed_urls: 0,
            total_processing_time_ms: 0,
            average_processing_time_ms: 0,
        }
    }

    /// The session starts at `now` with `total_urls` to crawl.
    pub fn session_started(&mut self, total_urls: usize, now: u64)
        ensures
            *final(self) == (SessionStatistics { start_time: Some(now), total_urls, ..*old(self) }),
    {
        self.start_time = Some(now);
        self.total_urls = total_urls;
    }

    /// The session ends at `now`.
    pub fn session_completed(&mut self, now: u64)
        ensures
            *final(self) == (SessionStatistics { end_time: Some(now), ..*old(self) }),
    {
        self.end_time = Some(now);
    }

    /// Records one processed URL: its outcome and time; the average is the
    /// total time over the processed count, rounded down.
    pub fn url_completed(&mut self, success: bool, processing_time_ms: u64)
        requires
            old(self).processed_urls < usize::MAX,
            old(self).successful_urls < usize::MAX,
            old(self).failed_urls < usize::MAX,
            old(self).total_processing_time_ms + processing_time_ms <= u64::MAX,
        ensures
            final(self).processed_urls == old(self).processed_urls + 1,
            final(self).total_processing_time_ms == old(self).total_processing_time_ms + processing_time_ms,
            final(self).successful_urls == old(self).successful_urls + if success { 1int } else { 0int },
            final(self).failed_urls == old(self).failed_urls + if success { 0int } else { 1int },
            final(self).average_processing_time_ms == (final(self).total_processing_time_ms as int) / (final(self).processed_urls as int),
            final(self).start_time == old(self).start_time,
            final(self).end_time == old(self).end_time,
            final(self).total_urls == old(self).total_urls,
            outcomes_add_up(*old(self)) ==> outcomes_add_up(*final(self)),
    {
        self.processed_urls = self.processed_urls + 1;
        self.total_processing_time_ms = self.total_processing_time_ms + processing_time_ms;
        if success {
            self.successful_urls = self.successful_urls + 1;
        } else {
            self.failed_urls = self.failed_urls + 1;
        }
        self.average_processing_time_ms = self.total_processing_time_ms / (self.processed_urls as u64);
    }

    /// The session's length: from start to end once ended, from start to
    /// `now` while running, none before it starts (a clock that went back
    /// counts as no time).
    pub fn session_duration_at(&self, now: u64) -> (r: Option<u64>)
        ensures
            r == (match (self.start_time, self.end_time) {
                (Some(s), Some(e)) => Some(if e >= s { (e - s) as u64 } else { 0u64 }),
                (Some(s), None) => Some(if now >= s { (now - s) as u64 } else { 0u64 }),
                _ => None,
            }),
    {
        match (self.start_time, self.end_time) {
            (Some(s), Some(e)) => Some(if e >= s { e - s } else { 0 }),
            (Some(s), None) => Some(if now >= s { now - s } else { 0 }),
            _ => None,
        }
    }

    /// URLs still to process (never negative).
    pub fn urls_remaining(&self) -> (r: usize)
        ensures
            r == (if self.total_urls >= self.processed_urls { (self.total_urls - self.processed_urls) as usize } else { 0usize }),
    {
        if self.total_urls >= self.processed_urls { self.total_urls - self.processed_urls } else { 0 }
    }
}

} // verus!
