//! Task, priority, status and language types used by the crawl loop.
use vstd::prelude::*;
use crate::common::{new_uuid_v4, now_millis};
use crate::crawl_core::error::CrawlError;

verus! {

/// Error severity levels, ordered from least to most severe.
#[derive(Clone, Copy, Debug, PartialEq, Eq, Structural, PartialOrd, Ord)]
pub enum ErrorSeverity {
    Low,
    Medium,
    High,
    Critical,
}

/// Languages the crawler accepts.
#[derive(Clone, Copy, Debug, PartialEq, Eq, Structural)]
pub enum LangType {
    Eng,
    Cmn,
    Fra,
    Deu,
    Jpn,
    Kor,
}

pub open spec fn lang_http_code(l: LangType) -> Seq<char> {
    match l {
        LangType::Eng => "en"@,
        LangType::Cmn => "zh-CN"@,
        LangType::Fra => "fr"@,
        LangType::Deu => "de"@,
        LangType::Jpn => "ja"@,
        LangType::Kor => "ko"@,
    }
}

pub open spec fn lang_http_variants(l: LangType) -> Seq<Seq<char>> {
    match l {
        LangType::Eng => seq!["en-US"@, "en-GB"@, "en"@],
        LangType::Cmn => seq!["zh-CN"@, "zh-TW"@, "zh"@],
        LangType::Fra => seq!["fr-FR"@, "fr-CA"@, "fr"@],
        LangType::Deu => seq!["de-DE"@, "de-AT"@, "de"@],
        LangType::Jpn => seq!["ja-JP"@, "ja"@],
        LangType::Kor => seq!["ko-KR"@, "ko"@],
    }
}

/// The text of each string in a list.
pub open spec fn str_views(v: Seq<&'static str>) -> Seq<Seq<char>> {
    v.map_values(|s: &'static str| s@)
}

/// The language as named by the three-letter code that `whatlang` uses, for
/// the languages this type covers.
pub open spec fn lang_from_code(code: Seq<char>) -> Option<LangType> {
    if code == "eng"@ {
        Some(LangType::Eng)
    } else if code == "cmn"@ {
        Some(LangType::Cmn)
    } else if code == "fra"@ {
        Some(LangType::Fra)
    } else if code == "deu"@ {
        Some(LangType::Deu)
    } else if code == "jpn"@ {
        Some(LangType::Jpn)
    } else if code == "kor"@ {
        Some(LangType::Kor)
    } else {
        None
    }
}

impl LangType {
    /// The HTTP `Accept-Language` code.
    pub fn to_http_code(&self) -> (r: &'static str)
        ensures
            r@ == lang_http_code(*self),
    {
        match self {
            LangType::Eng => "en",
            LangType::Cmn => "zh-CN",
            LangType::Fra => "fr",
            LangType::Deu => "de",
            LangType::Jpn => "ja",
            LangType::Kor => "ko",
        }
    }

    /// Regional variants, most specific first.
    pub fn to_http_variants(&self) -> (r: Vec<&'static str>)
        ensures
            str_views(r@) == lang_http_variants(*self),
    {
        let r = match self {
            LangType::Eng => vec!["en-US", "en-GB", "en"],
            LangType::Cmn => vec!["zh-CN", "zh-TW", "zh"],
            LangType::Fra => vec!["fr-FR", "fr-CA", "fr"],
            LangType::Deu => vec!["de-DE", "de-AT", "de"],
            LangType::Jpn => vec!["ja-JP", "ja"],
            LangType::Kor => vec!["ko-KR", "ko"],
        };
        proof {
            assert(str_views(r@) =~= lang_http_variants(*self));
        }
        r
    }

    /// Maps a detected language code (three letters, as `whatlang` names
    /// languages) to a supported language.
    pub fn from_detected_code(code: &str) -> (r: Option<LangType>)
        ensures
            r == lang_from_code(code@),
    {
        if crate::text_util::str_eq(code, "eng") {
            Some(LangType::Eng)
        } else if crate::text_util::str_eq(code, "cmn") {
            Some(LangType::Cmn)
        } else if crate::text_util::str_eq(code, "fra") {
            Some(LangType::Fra)
        } else if crate::text_util::str_eq(code, "deu") {
            Some(LangType::Deu)
        } else if crate::text_util::str_eq(code, "jpn") {
            Some(LangType::Jpn)
        } else if crate::text_util::str_eq(code, "kor") {
            Some(LangType::Kor)
        } else {
            None
        }
    }

    /// The supported language detected, when it is one of `accepted`. The
    /// detection is given by the detected language's three-letter code
    /// (`None` when no language was detected).
    pub fn from_detection_with_validation(detected_code: Option<&str>, accepted: &[LangType]) -> (r: Option<
        LangType,
    >)
        ensures
            r == accepted_detection(
                match detected_code {
                    Some(c) => Some(c@),
                    None => None,
                },
                accepted@,
            ),
    {
        match detected_code {
            Some(c) => match LangType::from_detected_code(c) {
                Some(l) => {
                    if lang_list_contains(accepted, l) {
                        Some(l)
                    } else {
                        None
                    }
                },
                None => None,
            },
            None => None,
        }
    }

    /// Whether the language segments words as Chinese, Japanese or Korean.
    pub fn is_cjk(&self) -> (r: bool)
        ensures
            r == (*self == LangType::Cmn || *self == LangType::Jpn || *self == LangType::Kor),
    {
        match self {
            LangType::Cmn | LangType::Jpn | LangType::Kor => true,
            _ => false,
        }
    }
}

/// The language of a detection, given by its code, when it is supported
/// and accepted.
pub open spec fn accepted_detection(code: Option<Seq<char>>, accepted: Seq<LangType>) -> Option<LangType> {
    match code {
        Some(c) => match lang_from_code(c) {
            Some(l) => if accepted.contains(l) { Some(l) } else { None },
            None => None,
        },
        None => None,
    }
}

/// Whether a language occurs in a list.
pub fn lang_list_contains(list: &[LangType], lang: LangType) -> (r: bool)
    ensures
        r == list@.contains(lang),
{
    let mut i: usize = 0;
    while i < list.len()
        invariant
            i <= list.len(),
            forall|j: int| 0 <= j < i ==> list@[j] != lang,
        decreases list.len() - i,
    {
        if list[i] == lang {
            return true;
        }
        i = i + 1;
    }
    false
}

/// Why a URL was skipped.
#[derive(Debug)]
pub enum SkipReason {
    AlreadyVisited,
    RobotsBlocked,
    ContentFiltered,
    LanguageNotAccepted,
    ExtensionBlocked(String),
    DomainBlocked(String),
}

/// Outcome of crawling one URL.
#[derive(Debug)]
pub enum CrawlResult {
    Success {
        content: String,
        word_count: usize,
        detected_language: Option<LangType>,
        processing_time_ms: u64,
    },
    Failed {
        error: CrawlError,
        retry_count: u32,
        final_attempt: bool,
    },
    Skipped {
        reason: SkipReason,
        url: String,
    },
}

/// Sliding-window rate limit for one domain.
#[derive(Clone, Copy, Debug, PartialEq, Eq, Structural)]
pub struct DomainRateLimit {
    pub max_requests_per_second: u32,
    pub window_size_ms: u64,
}

impl DomainRateLimit {
    /// Two requests per one-second window.
    pub fn default_limit() -> (r: Self)
        ensures
            r.max_requests_per_second == 2,
            r.window_size_ms == 1000,
    {
        DomainRateLimit { max_requests_per_second: 2, window_size_ms: 1000 }
    }
}

/// Queue priority of a task, ordered from lowest to highest.
#[derive(Clone, Copy, Debug, PartialEq, Eq, Structural, PartialOrd, Ord)]
pub enum TaskPriority {
    Low,
    Normal,
    High,
    Critical,
}

/// Lifecycle status of a queued task.
#[derive(Clone, Copy, Debug, PartialEq, Eq, Structural)]
pub enum TaskStatus {
    Pending,
    InProgress,
    Completed,
    Failed,
    Retrying,
    Dead,
}

/// A crawl task in the message queue. Times are milliseconds since the Unix
/// epoch.
#[derive(Debug)]
pub struct CrawlTask {
    pub id: String,
    pub url: String,
    pub priority: TaskPriority,
    pub status: TaskStatus,
    pub attempt_count: u32,
    pub max_retries: u32,
    pub created_at: u64,
    pub started_at: Option<u64>,
    pub last_attempt_at: Option<u64>,
    pub delay_until: Option<u64>,
    pub error_message: Option<String>,
}

/// Whether a task may be retried: attempts are left and it is not dead.
pub open spec fn spec_can_retry(t: CrawlTask) -> bool {
    t.attempt_count < t.max_retries && t.status != TaskStatus::Dead
}

/// A retry may start at `now` when no delay is set or the delay has passed.
pub open spec fn spec_ready_for_retry(t: CrawlTask, now: u64) -> bool {
    match t.delay_until {
        Some(until) => now >= until,
        None => true,
    }
}

impl CrawlTask {
    /// A pending task with a fresh random id.
    pub fn new(url: String, priority: TaskPriority, max_retries: u32) -> (r: Self)
        ensures
            r.url@ == url@,
            r.priority == priority,
            r.max_retries == max_retries,
            r.status == TaskStatus::Pending,
            r.attempt_count == 0,
            r.started_at is None,
            r.last_attempt_at is None,
            r.delay_until is None,
            r.error_message is None,
    {
        let mut id = "task_".to_string();
        let u = new_uuid_v4();
        id.append(u.as_str());
        CrawlTask {
            id,
            url,
            priority,
            status: TaskStatus::Pending,
            attempt_count: 0,
            max_retries,
            created_at: now_millis(),
            started_at: None,
            last_attempt_at: None,
            delay_until: None,
            error_message: None,
        }
    }

    pub fn can_retry(&self) -> (r: bool)
        ensures
            r == spec_can_retry(*self),
    {
        self.attempt_count < self.max_retries && self.status != TaskStatus::Dead
    }

    /// Whether the retry delay has passed at time `now`.
    pub fn is_ready_for_retry_at(&self, now: u64) -> (r: bool)
        ensures
            r == spec_ready_for_retry(*self, now),
    {
        match self.delay_until {
            Some(until) => now >= until,
            None => true,
        }
    }

    /// Whether the retry delay has passed now.
    pub fn is_ready_for_retry(&self) -> (r: bool)
        ensures
            self.delay_until is None ==> r,
    {
        self.is_ready_for_retry_at(now_millis())
    }

    /// Records a failed attempt at time `now`: the attempt is counted, and
    /// the task retries (after `retry_delay`, when given) while attempts are
    /// left, else it is dead.
    pub fn mark_failed_at(&mut self, error: String, retry_delay: Option<u64>, now: u64)
        requires
            old(self).attempt_count < u32::MAX,
            retry_delay matches Some(d) ==> now + d <= u64::MAX,
        ensures
            *final(self) == failed_task(*old(self), error, retry_delay, now),
            final(self).attempt_count == old(self).attempt_count + 1,
            final(self).last_attempt_at == Some(now),
            final(self).error_message matches Some(m) && m@ == error@,
            final(self).id == old(self).id,
            final(self).url == old(self).url,
            final(self).priority == old(self).priority,
            final(self).max_retries == old(self).max_retries,
            final(self).created_at == old(self).created_at,
            final(self).started_at == old(self).started_at,
            ({
                let retry = final(self).attempt_count < final(self).max_retries
                    && old(self).status != TaskStatus::Dead;
                &&& retry ==> final(self).status == TaskStatus::Retrying
                &&& retry ==> final(self).delay_until == (match retry_delay {
                    Some(d) => Some((now + d) as u64),
                    None => old(self).delay_until,
                })
                &&& !retry ==> final(self).status == TaskStatus::Dead
                &&& !retry ==> final(self).delay_until == old(self).delay_until
            }),
    {
        self.attempt_count = self.attempt_count + 1;
        self.last_attempt_at = Some(now);
        self.error_message = Some(error);
        if self.can_retry() {
            self.status = TaskStatus::Retrying;
            match retry_delay {
                Some(d) => {
                    self.delay_until = Some(now + d);
                },
                None => {},
            }
        } else {
            self.status = TaskStatus::Dead;
        }
    }

    /// Records a failed attempt now (see `mark_failed_at`); a retry time past
    /// the end of the clock's range is clamped to it.
    pub fn mark_failed(&mut self, error: String, retry_delay: Option<u64>)
        requires
            old(self).attempt_count < u32::MAX,
        ensures
            final(self).attempt_count == old(self).attempt_count + 1,
            final(self).error_message matches Some(m) && m@ == error@,
            (final(self).attempt_count < final(self).max_retries && old(self).status != TaskStatus::Dead)
                ==> final(self).status == TaskStatus::Retrying,
            !(final(self).attempt_count < final(self).max_retries && old(self).status != TaskStatus::Dead)
                ==> final(self).status == TaskStatus::Dead,
    {
        let now = now_millis();
        let delay = match retry_delay {
            Some(d) => if d > u64::MAX - now { Some(u64::MAX - now) } else { Some(d) },
            None => None,
        };
        self.mark_failed_at(error, delay, now);
    }

    /// Marks the task as started at time `now`.
    pub fn mark_in_progress_at(&mut self, now: u64)
        ensures
            *final(self) == started_task(*old(self), now),
    {
        self.status = TaskStatus::InProgress;
        self.started_at = Some(now);
        self.last_attempt_at = Some(now);
    }

    /// Marks the task as started now.
    pub fn mark_in_progress(&mut self)
        ensures
            final(self).status == TaskStatus::InProgress,
            final(self).started_at is Some,
            final(self).attempt_count == old(self).attempt_count,
    {
        let now = now_millis();
        self.mark_in_progress_at(now);
    }

    pub fn mark_completed(&mut self)
        ensures
            *final(self) == (CrawlTask { status: TaskStatus::Completed, ..*old(self) }),
    {
        self.status = TaskStatus::Completed;
    }

    /// A copy of the task.
    pub fn duplicate(&self) -> (r: Self)
        ensures
            same_task(r, *self),
    {
        let error_message = match &self.error_message {
            Some(m) => Some(m.clone()),
            None => None,
        };
        CrawlTask {
            id: self.id.clone(),
            url: self.url.clone(),
            priority: self.priority,
            status: self.status,
            attempt_count: self.attempt_count,
            max_retries: self.max_retries,
            created_at: self.created_at,
            started_at: self.started_at,
            last_attempt_at: self.last_attempt_at,
            delay_until: self.delay_until,
            error_message,
        }
    }
}

/// The task as it is once started at time `now`.
pub open spec fn started_task(t: CrawlTask, now: u64) -> CrawlTask {
    CrawlTask {
        status: TaskStatus::InProgress,
        started_at: Some(now),
        last_attempt_at: Some(now),
        ..t
    }
}

/// Two tasks that agree in every field, texts compared by content.
pub open spec fn same_task(a: CrawlTask, b: CrawlTask) -> bool {
    &&& a.id@ == b.id@
    &&& a.url@ == b.url@
    &&& a.priority == b.priority
    &&& a.status == b.status
    &&& a.attempt_count == b.attempt_count
    &&& a.max_retries == b.max_retries
    &&& a.created_at == b.created_at
    &&& a.started_at == b.started_at
    &&& a.last_attempt_at == b.last_attempt_at
    &&& a.delay_until == b.delay_until
    &&& crate::web_url::opt_text(a.error_message) == crate::web_url::opt_text(b.error_message)
}

/// The task after a failed attempt at time `now` (see `mark_failed_at`).
pub open spec fn failed_task(t: CrawlTask, error: String, delay: Option<u64>, now: u64) -> CrawlTask {
    let attempts = (t.attempt_count + 1) as u32;
    let retry = attempts < t.max_retries && t.status != TaskStatus::Dead;
    CrawlTask {
        attempt_count: attempts,
        last_attempt_at: Some(now),
        error_message: Some(error),
        status: if retry { TaskStatus::Retrying } else { TaskStatus::Dead },
        delay_until: if retry {
            match delay {
                Some(d) => Some((now + d) as u64),
                None => t.delay_until,
            }
        } else {
            t.delay_until
        },
        ..t
    }
}

/// Message-queue counters.
#[derive(Debug, Clone, Copy, Default, PartialEq, Eq, Structural)]
pub struct QueueStats {
    pub total_tasks: u64,
    pub pending_tasks: u64,
    pub in_progress_tasks: u64,
    pub completed_tasks: u64,
    pub failed_tasks: u64,
    pub retrying_tasks: u64,
    pub dead_tasks: u64,
}

/// Outcome of processing one task. Durations are milliseconds.
#[derive(Debug)]
pub struct TaskResult {
    pub task_id: String,
    pub url: String,
    pub success: bool,
    pub content: Option<String>,
    pub error: Option<String>,
    pub processing_time_ms: u64,
}

} // verus!
