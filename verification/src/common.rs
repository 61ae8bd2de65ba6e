//! Building blocks shared by the crawler's modules: bounded values, flags,
//! durations, identifiers and the task error type.
use vstd::prelude::*;

verus! {

/// A configured limit or size.
#[derive(Clone, Copy, Debug, PartialEq, Eq, Structural)]
pub struct LimitValue {
    value: u64,
}

impl View for LimitValue {
    type V = u64;

    closed spec fn view(&self) -> u64 {
        self.value
    }
}

impl LimitValue {
    pub fn new(value: u64) -> (r: Self)
        ensures
            r@ == value,
    {
        LimitValue { value }
    }

    pub fn value(&self) -> (r: u64)
        ensures
            r == self@,
    {
        self.value
    }
}

/// An on/off feature switch.
#[derive(Clone, Copy, Debug, PartialEq, Eq, Structural)]
pub struct BooleanFlag {
    enabled: bool,
}

impl View for BooleanFlag {
    type V = bool;

    closed spec fn view(&self) -> bool {
        self.enabled
    }
}

impl BooleanFlag {
    pub fn new(enabled: bool) -> (r: Self)
        ensures
            r@ == enabled,
    {
        BooleanFlag { enabled }
    }

    pub fn enabled() -> (r: Self)
        ensures
            r@,
    {
        BooleanFlag { enabled: true }
    }

    pub fn disabled() -> (r: Self)
        ensures
            !r@,
    {
        BooleanFlag { enabled: false }
    }

    pub fn is_enabled(&self) -> (r: bool)
        ensures
            r == self@,
    {
        self.enabled
    }
}

/// Largest number of whole seconds whose milliseconds fit in a `u64`.
pub const MAX_DURATION_SECS: u64 = 18446744073709551;

/// A timeout, held in milliseconds.
#[derive(Clone, Copy, Debug, PartialEq, Eq, Structural)]
pub struct TimeoutDuration {
    millis: u64,
}

impl View for TimeoutDuration {
    type V = u64;

    closed spec fn view(&self) -> u64 {
        self.millis
    }
}

impl TimeoutDuration {
    pub fn from_secs(secs: u64) -> (r: Self)
        requires
            secs <= MAX_DURATION_SECS,
        ensures
            r@ == secs * 1000,
    {
        TimeoutDuration { millis: secs * 1000 }
    }

    pub fn from_millis(millis: u64) -> (r: Self)
        ensures
            r@ == millis,
    {
        TimeoutDuration { millis }
    }

    /// The timeout in milliseconds.
    pub fn as_millis(&self) -> (r: u64)
        ensures
            r == self@,
    {
        self.millis
    }
}

/// A delay between operations, held in milliseconds.
#[derive(Clone, Copy, Debug, PartialEq, Eq, Structural)]
pub struct DelayDuration {
    millis: u64,
}

impl View for DelayDuration {
    type V = u64;

    closed spec fn view(&self) -> u64 {
        self.millis
    }
}

impl DelayDuration {
    pub fn from_secs(secs: u64) -> (r: Self)
        requires
            secs <= MAX_DURATION_SECS,
        ensures
            r@ == secs * 1000,
    {
        DelayDuration { millis: secs * 1000 }
    }

    pub fn from_millis(millis: u64) -> (r: Self)
        ensures
            r@ == millis,
    {
        DelayDuration { millis }
    }

    /// The delay in milliseconds.
    pub fn as_millis(&self) -> (r: u64)
        ensures
            r == self@,
    {
        self.millis
    }
}

/// Identifier of a crawl session.
#[derive(Debug, PartialEq, Eq)]
pub struct SessionId {
    id: String,
}

impl View for SessionId {
    type V = Seq<char>;

    closed spec fn view(&self) -> Seq<char> {
        self.id@
    }
}

impl Clone for SessionId {
    fn clone(&self) -> (r: Self)
        ensures
            r@ == self@,
    {
        SessionId { id: self.id.clone() }
    }
}

impl SessionId {
    pub fn new(id: &str) -> (r: Self)
        ensures
            r@ == id@,
    {
        SessionId { id: id.to_string() }
    }

    pub fn from_string(id: String) -> (r: Self)
        ensures
            r@ == id@,
    {
        SessionId { id }
    }

    pub fn as_str(&self) -> (r: &str)
        ensures
            r@ == self@,
    {
        self.id.as_str()
    }
}

/// Identifier of a crawl task.
#[derive(Debug, PartialEq, Eq)]
pub struct TaskId {
    id: String,
}

impl View for TaskId {
    type V = Seq<char>;

    closed spec fn view(&self) -> Seq<char> {
        self.id@
    }
}

impl Clone for TaskId {
    fn clone(&self) -> (r: Self)
        ensures
            r@ == self@,
    {
        TaskId { id: self.id.clone() }
    }
}

impl TaskId {
    pub fn new(id: &str) -> (r: Self)
        ensures
            r@ == id@,
    {
        TaskId { id: id.to_string() }
    }

    pub fn from_string(id: String) -> (r: Self)
        ensures
            r@ == id@,
    {
        TaskId { id }
    }

    pub fn as_str(&self) -> (r: &str)
        ensures
            r@ == self@,
    {
        self.id.as_str()
    }
}

/// A URL kept as text.
#[derive(Debug, PartialEq, Eq)]
pub struct UrlString {
    url: String,
}

impl View for UrlString {
    type V = Seq<char>;

    closed spec fn view(&self) -> Seq<char> {
        self.url@
    }
}

impl Clone for UrlString {
    fn clone(&self) -> (r: Self)
        ensures
            r@ == self@,
    {
        UrlString { url: self.url.clone() }
    }
}

impl UrlString {
    pub fn new(url: &str) -> (r: Self)
        ensures
            r@ == url@,
    {
        UrlString { url: url.to_string() }
    }

    pub fn from_string(url: String) -> (r: Self)
        ensures
            r@ == url@,
    {
        UrlString { url }
    }

    pub fn as_str(&self) -> (r: &str)
        ensures
            r@ == self@,
    {
        self.url.as_str()
    }
}

/// Category of a task error.
#[derive(Clone, Copy, Debug, PartialEq, Eq, Structural)]
pub enum TaskErrorKind {
    Network,
    Parse,
    Configuration,
    Internal,
    Crawler,
    ContentValidation,
    Session,
    Storage,
}

/// The name of an error category.
pub open spec fn task_error_kind_name(k: TaskErrorKind) -> Seq<char> {
    match k {
        TaskErrorKind::Network => "network"@,
        TaskErrorKind::Parse => "parse"@,
        TaskErrorKind::Configuration => "configuration"@,
        TaskErrorKind::Internal => "internal"@,
        TaskErrorKind::Crawler => "crawler"@,
        TaskErrorKind::ContentValidation => "content_validation"@,
        TaskErrorKind::Session => "session"@,
        TaskErrorKind::Storage => "storage"@,
    }
}

/// Abstract content of a task error: its category and message.
pub struct TaskErrorView {
    pub kind: TaskErrorKind,
    pub message: Seq<char>,
}

/// An error raised while processing a task.
#[derive(Debug, PartialEq, Eq)]
pub struct TaskError {
    kind: TaskErrorKind,
    message: String,
}

impl View for TaskError {
    type V = TaskErrorView;

    closed spec fn view(&self) -> TaskErrorView {
        TaskErrorView { kind: self.kind, message: self.message@ }
    }
}

/// The task error with the given category and message.
pub closed spec fn task_error_of(kind: TaskErrorKind, message: String) -> TaskError {
    TaskError { kind, message }
}

/// The task error made from a category and a message has that category and
/// that message.
pub proof fn lemma_task_error_of(kind: TaskErrorKind, message: String)
    ensures
        task_error_of(kind, message)@ == (TaskErrorView { kind, message: message@ }),
{
}

impl Clone for TaskError {
    fn clone(&self) -> (r: Self)
        ensures
            r@ == self@,
    {
        TaskError { kind: self.kind, message: self.message.clone() }
    }
}

impl TaskError {
    pub fn new(kind: TaskErrorKind, message: &str) -> (r: Self)
        ensures
            r@.kind == kind,
            r@.message == message@,
    {
        TaskError { kind, message: message.to_string() }
    }

    /// A task error built from owned parts.
    pub fn from_parts(kind: TaskErrorKind, message: String) -> (r: Self)
        ensures
            r == task_error_of(kind, message),
            r@.kind == kind,
            r@.message == message@,
    {
        TaskError { kind, message }
    }

    pub fn network(message: &str) -> (r: Self)
        ensures
            r@.kind == TaskErrorKind::Network,
            r@.message == message@,
    {
        Self::new(TaskErrorKind::Network, message)
    }

    pub fn parse(message: &str) -> (r: Self)
        ensures
            r@.kind == TaskErrorKind::Parse,
            r@.message == message@,
    {
        Self::new(TaskErrorKind::Parse, message)
    }

    pub fn configuration(message: &str) -> (r: Self)
        ensures
            r@.kind == TaskErrorKind::Configuration,
            r@.message == message@,
    {
        Self::new(TaskErrorKind::Configuration, message)
    }

    pub fn internal(message: &str) -> (r: Self)
        ensures
            r@.kind == TaskErrorKind::Internal,
            r@.message == message@,
    {
        Self::new(TaskErrorKind::Internal, message)
    }

    pub fn crawler(message: &str) -> (r: Self)
        ensures
            r@.kind == TaskErrorKind::Crawler,
            r@.message == message@,
    {
        Self::new(TaskErrorKind::Crawler, message)
    }

    pub fn content_validation(message: &str) -> (r: Self)
        ensures
            r@.kind == TaskErrorKind::ContentValidation,
            r@.message == message@,
    {
        Self::new(TaskErrorKind::ContentValidation, message)
    }

    pub fn session(message: &str) -> (r: Self)
        ensures
            r@.kind == TaskErrorKind::Session,
            r@.message == message@,
    {
        Self::new(TaskErrorKind::Session, message)
    }

    pub fn storage(message: &str) -> (r: Self)
        ensures
            r@.kind == TaskErrorKind::Storage,
            r@.message == message@,
    {
        Self::new(TaskErrorKind::Storage, message)
    }

    pub fn kind(&self) -> (r: TaskErrorKind)
        ensures
            r == self@.kind,
    {
        self.kind
    }

    /// The category name of this error.
    pub fn error_type(&self) -> (r: &'static str)
        ensures
            r@ == task_error_kind_name(self@.kind),
    {
        match self.kind {
            TaskErrorKind::Network => "network",
            TaskErrorKind::Parse => "parse",
            TaskErrorKind::Configuration => "configuration",
            TaskErrorKind::Internal => "internal",
            TaskErrorKind::Crawler => "crawler",
            TaskErrorKind::ContentValidation => "content_validation",
            TaskErrorKind::Session => "session",
            TaskErrorKind::Storage => "storage",
        }
    }

    pub fn message(&self) -> (r: &str)
        ensures
            r@ == self@.message,
    {
        self.message.as_str()
    }
}

/// Counts of finished tasks.
#[derive(Clone, Copy, Debug, PartialEq, Eq, Structural)]
pub struct TaskCounts {
    completed: u64,
    failed: u64,
}

/// Abstract content of task counts.
pub struct TaskCountsView {
    pub completed: nat,
    pub failed: nat,
}

impl View for TaskCounts {
    type V = TaskCountsView;

    closed spec fn view(&self) -> TaskCountsView {
        TaskCountsView { completed: self.completed as nat, failed: self.failed as nat }
    }
}

impl TaskCounts {
    pub fn new() -> (r: Self)
        ensures
            r@.completed == 0,
            r@.failed == 0,
    {
        TaskCounts { completed: 0, failed: 0 }
    }

    pub fn completed(&self) -> (r: u64)
        ensures
            r == self@.completed,
    {
        self.completed
    }

    pub fn failed(&self) -> (r: u64)
        ensures
            r == self@.failed,
    {
        self.failed
    }

    /// Completed and failed tasks together.
    pub fn total(&self) -> (r: u64)
        requires
            self@.completed + self@.failed <= u64::MAX,
        ensures
            r == self@.completed + self@.failed,
    {
        self.completed + self.failed
    }

    pub fn increment_completed(&mut self)
        requires
            old(self)@.completed < u64::MAX,
        ensures
            final(self)@.completed == old(self)@.completed + 1,
            final(self)@.failed == old(self)@.failed,
    {
        self.completed = self.completed + 1;
    }

    pub fn increment_failed(&mut self)
        requires
            old(self)@.failed < u64::MAX,
        ensures
            final(self)@.failed == old(self)@.failed + 1,
            final(self)@.completed == old(self)@.completed,
    {
        self.failed = self.failed + 1;
    }
}

/// A monotone counter.
#[derive(Clone, Copy, Debug, PartialEq, Eq, Structural)]
pub struct CountValue {
    count: u64,
}

impl View for CountValue {
    type V = u64;

    closed spec fn view(&self) -> u64 {
        self.count
    }
}

impl CountValue {
    pub fn new() -> (r: Self)
        ensures
            r@ == 0,
    {
        CountValue { count: 0 }
    }

    pub fn value(&self) -> (r: u64)
        ensures
            r == self@,
    {
        self.count
    }

    pub fn increment(&mut self)
        requires
            old(self)@ < u64::MAX,
        ensures
            final(self)@ == old(self)@ + 1,
    {
        self.count = self.count + 1;
    }
}

/// Calls `SystemTime::now` and converts it to milliseconds since the Unix
/// epoch (0 for a clock set before the epoch). Nothing is promised of the
/// value: it depends on the machine's clock.
#[verifier::external_body]
pub(crate) fn now_millis() -> (r: u64) {
    std::time::SystemTime::now()
        .duration_since(std::time::UNIX_EPOCH)
        .map(|d| d.as_millis() as u64)
        .unwrap_or(0)
}

/// The text form of a UUID: 36 characters, lower-case hexadecimal digits
/// in groups of 8, 4, 4, 4 and 12 separated by hyphens.
pub open spec fn hyphenated_uuid_text(s: Seq<char>) -> bool {
    &&& s.len() == 36
    &&& forall|i: int| 0 <= i < 36 ==> if i == 8 || i == 13 || i == 18 || i == 23 {
        #[trigger] s[i] == '-'
    } else {
        ('0' <= s[i] && s[i] <= '9') || ('a' <= s[i] && s[i] <= 'f')
    }
}

/// Calls `uuid::Uuid::new_v4` and renders it as text (`Display`, the
/// lower-case hyphenated form). The value is random; only its form is
/// stated.
#[verifier::external_body]
pub(crate) fn new_uuid_v4() -> (r: String)
    ensures
        hyphenated_uuid_text(r@),
{
    uuid::Uuid::new_v4().to_string()
}

/// `prefix` followed by the hyphenated text of a UUID.
pub open spec fn prefixed_uuid_text(s: Seq<char>, prefix: Seq<char>) -> bool {
    &&& s.len() == prefix.len() + 36
    &&& s.subrange(0, prefix.len() as int) == prefix
    &&& hyphenated_uuid_text(s.subrange(prefix.len() as int, s.len() as int))
}

/// `prefix` followed by a fresh random identifier in its hyphenated text
/// form.
pub fn prefixed_uuid(prefix: &str) -> (r: String)
    ensures
        r@.len() == prefix@.len() + 36,
        r@.subrange(0, prefix@.len() as int) == prefix@,
        hyphenated_uuid_text(r@.subrange(prefix@.len() as int, r@.len() as int)),
{
    let mut s = prefix.to_string();
    let id = new_uuid_v4();
    s.append(id.as_str());
    proof {
        assert(s@.subrange(0, prefix@.len() as int) =~= prefix@);
        assert(s@.subrange(prefix@.len() as int, s@.len() as int) =~= id@);
    }
    s
}

} // verus!
