//! Configurable error reporting: error context, categorized errors with
//! retry advice, truncation and formatted reports.
use vstd::prelude::*;
use vstd::utf8::{encode_utf8, is_char_boundary};
use vstd::string::StringSliceAdditionalSpecFns;
use crate::common::{TaskError, TaskErrorKind, TaskErrorView, task_error_of, now_millis};
use crate::text_util::{
    ascii_lowercased, ascii_uppercased, is_ascii_text,
    clone_opt_string, clone_pairs, clone_strings, concat_str, decimal, lowercase_of,
    opt_seq, pairs_view, push_str, str_eq, strings_view, to_lowercase, u64_to_string,
};

verus! {

/// Abstract content of an error configuration (and of its builder).
pub struct ErrorConfigView {
    pub include_stack_traces: bool,
    pub include_request_details: bool,
    pub include_response_headers: bool,
    pub categorize_network_errors: bool,
    pub categorize_content_errors: bool,
    pub categorize_policy_errors: bool,
    pub max_error_message_length: usize,
    pub max_error_context_depth: usize,
}

/// The default error configuration: request details on, stack traces and
/// headers off, all categorization on, messages up to 1000 bytes and five
/// levels of causes.
pub open spec fn default_error_config() -> ErrorConfigView {
    ErrorConfigView {
        include_stack_traces: false,
        include_request_details: true,
        include_response_headers: false,
        categorize_network_errors: true,
        categorize_content_errors: true,
        categorize_policy_errors: true,
        max_error_message_length: 1000,
        max_error_context_depth: 5,
    }
}

/// How errors are reported.
#[derive(Clone, Copy, Debug)]
pub struct ErrorConfig {
    include_stack_traces: bool,
    include_request_details: bool,
    include_response_headers: bool,
    categorize_network_errors: bool,
    categorize_content_errors: bool,
    categorize_policy_errors: bool,
    max_error_message_length: usize,
    max_error_context_depth: usize,
}

impl View for ErrorConfig {
    type V = ErrorConfigView;

    closed spec fn view(&self) -> ErrorConfigView {
        ErrorConfigView {
            include_stack_traces: self.include_stack_traces,
            include_request_details: self.include_request_details,
            include_response_headers: self.include_response_headers,
            categorize_network_errors: self.categorize_network_errors,
            categorize_content_errors: self.categorize_content_errors,
            categorize_policy_errors: self.categorize_policy_errors,
            max_error_message_length: self.max_error_message_length,
            max_error_context_depth: self.max_error_context_depth,
        }
    }
}

impl ErrorConfig {
    pub fn builder() -> (r: ErrorConfigBuilder)
        ensures
            r@ == default_error_config(),
    {
        ErrorConfigBuilder::new()
    }

    pub fn should_include_stack_traces(&self) -> (r: bool)
        ensures
            r == self@.include_stack_traces,
    {
        self.include_stack_traces
    }

    pub fn should_include_request_details(&self) -> (r: bool)
        ensures
            r == self@.include_request_details,
    {
        self.include_request_details
    }

    pub fn should_include_response_headers(&self) -> (r: bool)
        ensures
            r == self@.include_response_headers,
    {
        self.include_response_headers
    }

    pub fn should_categorize_network_errors(&self) -> (r: bool)
        ensures
            r == self@.categorize_network_errors,
    {
        self.categorize_network_errors
    }

    pub fn should_categorize_content_errors(&self) -> (r: bool)
        ensures
            r == self@.categorize_content_errors,
    {
        self.categorize_content_errors
    }

    pub fn should_categorize_policy_errors(&self) -> (r: bool)
        ensures
            r == self@.categorize_policy_errors,
    {
        self.categorize_policy_errors
    }

    pub fn max_error_message_length(&self) -> (r: usize)
        ensures
            r == self@.max_error_message_length,
    {
        self.max_error_message_length
    }

    pub fn max_error_context_depth(&self) -> (r: usize)
        ensures
            r == self@.max_error_context_depth,
    {
        self.max_error_context_depth
    }
}

impl Default for ErrorConfig {
    fn default() -> (r: Self)
        ensures
            r@ == default_error_config(),
    {
        ErrorConfig {
            include_stack_traces: false,
            include_request_details: true,
            include_response_headers: false,
            categorize_network_errors: true,
            categorize_content_errors: true,
            categorize_policy_errors: true,
            max_error_message_length: 1000,
            max_error_context_depth: 5,
        }
    }
}

/// Builder for `ErrorConfig`.
#[derive(Debug)]
pub struct ErrorConfigBuilder {
    include_stack_traces: bool,
    include_request_details: bool,
    include_response_headers: bool,
    categorize_network_errors: bool,
    categorize_content_errors: bool,
    categorize_policy_errors: bool,
    max_error_message_length: usize,
    max_error_context_depth: usize,
}

impl View for ErrorConfigBuilder {
    type V = ErrorConfigView;

    closed spec fn view(&self) -> ErrorConfigView {
        ErrorConfigView {
            include_stack_traces: self.include_stack_traces,
            include_request_details: self.include_request_details,
            include_response_headers: self.include_response_headers,
            categorize_network_errors: self.categorize_network_errors,
            categorize_content_errors: self.categorize_content_errors,
            categorize_policy_errors: self.categorize_policy_errors,
            max_error_message_length: self.max_error_message_length,
            max_error_context_depth: self.max_error_context_depth,
        }
    }
}

impl ErrorConfigBuilder {
    pub fn new() -> (r: Self)
        ensures
            r@ == default_error_config(),
    {
        let d = ErrorConfig::default();
        ErrorConfigBuilder {
            include_stack_traces: d.include_stack_traces,
            include_request_details: d.include_request_details,
            include_response_headers: d.include_response_headers,
            categorize_network_errors: d.categorize_network_errors,
            categorize_content_errors: d.categorize_content_errors,
            categorize_policy_errors: d.categorize_policy_errors,
            max_error_message_length: d.max_error_message_length,
            max_error_context_depth: d.max_error_context_depth,
        }
    }

    pub fn with_reporting_options(self, stack_traces: bool, request_details: bool, response_headers: bool) -> (r: Self)
        ensures
            r@ == (ErrorConfigView {
                include_stack_traces: stack_traces,
                include_request_details: request_details,
                include_response_headers: response_headers,
                ..self@
            }),
    {
        let mut this = self;
        this.include_stack_traces = stack_traces;
        this.include_request_details = request_details;
        this.include_response_headers = response_headers;
        this
    }

    pub fn with_categorization_options(self, network: bool, content: bool, policy: bool) -> (r: Self)
        ensures
            r@ == (ErrorConfigView {
                categorize_network_errors: network,
                categorize_content_errors: content,
                categorize_policy_errors: policy,
                ..self@
            }),
    {
        let mut this = self;
        this.categorize_network_errors = network;
        this.categorize_content_errors = content;
        this.categorize_policy_errors = policy;
        this
    }

    pub fn with_limits(self, max_message_length: usize, max_context_depth: usize) -> (r: Self)
        ensures
            r@ == (ErrorConfigView {
                max_error_message_length: max_message_length,
                max_error_context_depth: max_context_depth,
                ..self@
            }),
    {
        let mut this = self;
        this.max_error_message_length = max_message_length;
        this.max_error_context_depth = max_context_depth;
        this
    }

    pub fn build(self) -> (r: ErrorConfig)
        ensures
            r@ == self@,
    {
        ErrorConfig {
            include_stack_traces: self.include_stack_traces,
            include_request_details: self.include_request_details,
            include_response_headers: self.include_response_headers,
            categorize_network_errors: self.categorize_network_errors,
            categorize_content_errors: self.categorize_content_errors,
            categorize_policy_errors: self.categorize_policy_errors,
            max_error_message_length: self.max_error_message_length,
            max_error_context_depth: self.max_error_context_depth,
        }
    }
}

impl Default for ErrorConfigBuilder {
    fn default() -> (r: Self)
        ensures
            r@ == default_error_config(),
    {
        Self::new()
    }
}

/// Error severity levels, ordered from least to most severe.
#[derive(Clone, Copy, Debug, PartialEq, Eq, Structural, PartialOrd, Ord)]
pub enum ErrorSeverity {
    Low,
    Medium,
    High,
    Critical,
}

pub open spec fn severity_name(s: ErrorSeverity) -> Seq<char> {
    match s {
        ErrorSeverity::Low => "low"@,
        ErrorSeverity::Medium => "medium"@,
        ErrorSeverity::High => "high"@,
        ErrorSeverity::Critical => "critical"@,
    }
}

/// The severity named by a lowercase name, if any.
pub open spec fn severity_from_name(s: Seq<char>) -> Option<ErrorSeverity> {
    if s == "low"@ {
        Some(ErrorSeverity::Low)
    } else if s == "medium"@ {
        Some(ErrorSeverity::Medium)
    } else if s == "high"@ {
        Some(ErrorSeverity::High)
    } else if s == "critical"@ {
        Some(ErrorSeverity::Critical)
    } else {
        None
    }
}

/// A severity's name is ASCII and parses back to the severity, in lower
/// or in upper case.
pub proof fn lemma_severity_name_round_trip(v: ErrorSeverity)
    ensures
        is_ascii_text(severity_name(v)),
        severity_from_name(ascii_lowercased(severity_name(v))) == Some(v),
        is_ascii_text(ascii_uppercased(severity_name(v))),
        severity_from_name(ascii_lowercased(ascii_uppercased(severity_name(v)))) == Some(v),
{
    let n = severity_name(v);
    reveal_strlit("low");
    reveal_strlit("medium");
    reveal_strlit("high");
    reveal_strlit("critical");
    match v {
        ErrorSeverity::Low => { reveal_strlit("low"); },
        ErrorSeverity::Medium => { reveal_strlit("medium"); },
        ErrorSeverity::High => { reveal_strlit("high"); },
        ErrorSeverity::Critical => { reveal_strlit("critical"); },
    }
    assert(ascii_lowercased(n) =~= n);
    assert(ascii_lowercased(ascii_uppercased(n)) =~= n);
}

impl ErrorSeverity {
    pub fn as_str(&self) -> (r: &'static str)
        ensures
            r@ == severity_name(*self),
    {
        match self {
            ErrorSeverity::Low => "low",
            ErrorSeverity::Medium => "medium",
            ErrorSeverity::High => "high",
            ErrorSeverity::Critical => "critical",
        }
    }

    /// Parses a severity name, ignoring case.
    pub fn from_str(s: &str) -> (r: Option<Self>)
        ensures
            r == severity_from_name(lowercase_of(s@)),
            is_ascii_text(s@) ==> r == severity_from_name(ascii_lowercased(s@)),
    {
        let low = to_lowercase(s);
        let l = low.as_str();
        if str_eq(l, "low") {
            Some(ErrorSeverity::Low)
        } else if str_eq(l, "medium") {
            Some(ErrorSeverity::Medium)
        } else if str_eq(l, "high") {
            Some(ErrorSeverity::High)
        } else if str_eq(l, "critical") {
            Some(ErrorSeverity::Critical)
        } else {
            None
        }
    }
}

/// Abstract content of an error context. Times are milliseconds since the
/// Unix epoch; headers keep the order in which they were given.
pub struct ErrorContextView {
    pub url: Option<Seq<char>>,
    pub domain: Option<Seq<char>>,
    pub request_method: Option<Seq<char>>,
    pub response_status: Option<u16>,
    pub response_headers: Option<Seq<(Seq<char>, Seq<char>)>>,
    pub user_agent: Option<Seq<char>>,
    pub timestamp: u64,
    pub retry_count: u32,
}

/// An empty context created at `timestamp`.
pub open spec fn empty_context(timestamp: u64) -> ErrorContextView {
    ErrorContextView {
        url: None,
        domain: None,
        request_method: None,
        response_status: None,
        response_headers: None,
        user_agent: None,
        timestamp,
        retry_count: 0,
    }
}

/// Where and when an error happened.
#[derive(Debug)]
pub struct ErrorContext {
    url: Option<String>,
    domain: Option<String>,
    request_method: Option<String>,
    response_status: Option<u16>,
    response_headers: Option<Vec<(String, String)>>,
    user_agent: Option<String>,
    timestamp: u64,
    retry_count: u32,
}

pub open spec fn opt_pairs_view(o: Option<Vec<(String, String)>>) -> Option<Seq<(Seq<char>, Seq<char>)>> {
    match o {
        Some(v) => Some(pairs_view(v@)),
        None => None,
    }
}

impl View for ErrorContext {
    type V = ErrorContextView;

    closed spec fn view(&self) -> ErrorContextView {
        ErrorContextView {
            url: opt_seq(self.url),
            domain: opt_seq(self.domain),
            request_method: opt_seq(self.request_method),
            response_status: self.response_status,
            response_headers: opt_pairs_view(self.response_headers),
            user_agent: opt_seq(self.user_agent),
            timestamp: self.timestamp,
            retry_count: self.retry_count,
        }
    }
}

impl Clone for ErrorContext {
    fn clone(&self) -> (r: Self)
        ensures
            r@ == self@,
    {
        let headers = match &self.response_headers {
            Some(h) => Some(clone_pairs(h)),
            None => None,
        };
        ErrorContext {
            url: clone_opt_string(&self.url),
            domain: clone_opt_string(&self.domain),
            request_method: clone_opt_string(&self.request_method),
            response_status: self.response_status,
            response_headers: headers,
            user_agent: clone_opt_string(&self.user_agent),
            timestamp: self.timestamp,
            retry_count: self.retry_count,
        }
    }
}

impl ErrorContext {
    /// An empty context stamped with the current time.
    pub fn new() -> (r: Self)
        ensures
            r@ == empty_context(r@.timestamp),
    {
        Self::new_at(now_millis())
    }

    /// An empty context stamped with `timestamp`.
    pub fn new_at(timestamp: u64) -> (r: Self)
        ensures
            r@ == empty_context(timestamp),
    {
        ErrorContext {
            url: None,
            domain: None,
            request_method: None,
            response_status: None,
            response_headers: None,
            user_agent: None,
            timestamp,
            retry_count: 0,
        }
    }

    pub fn with_url(self, url: &str) -> (r: Self)
        ensures
            r@ == (ErrorContextView { url: Some(url@), ..self@ }),
    {
        let mut this = self;
        this.url = Some(url.to_string());
        this
    }

    pub fn with_domain(self, domain: &str) -> (r: Self)
        ensures
            r@ == (ErrorContextView { domain: Some(domain@), ..self@ }),
    {
        let mut this = self;
        this.domain = Some(domain.to_string());
        this
    }

    pub fn with_request_method(self, method: &str) -> (r: Self)
        ensures
            r@ == (ErrorContextView { request_method: Some(method@), ..self@ }),
    {
        let mut this = self;
        this.request_method = Some(method.to_string());
        this
    }

    pub fn with_response_status(self, status: u16) -> (r: Self)
        ensures
            r@ == (ErrorContextView { response_status: Some(status), ..self@ }),
    {
        let mut this = self;
        this.response_status = Some(status);
        this
    }

    /// Attaches response headers (name, value), in the given order.
    pub fn with_response_headers(self, headers: Vec<(String, String)>) -> (r: Self)
        ensures
            r@ == (ErrorContextView { response_headers: Some(pairs_view(headers@)), ..self@ }),
    {
        let mut this = self;
        this.response_headers = Some(headers);
        this
    }

    pub fn with_user_agent(self, user_agent: &str) -> (r: Self)
        ensures
            r@ == (ErrorContextView { user_agent: Some(user_agent@), ..self@ }),
    {
        let mut this = self;
        this.user_agent = Some(user_agent.to_string());
        this
    }

    pub fn with_retry_count(self, count: u32) -> (r: Self)
        ensures
            r@ == (ErrorContextView { retry_count: count, ..self@ }),
    {
        let mut this = self;
        this.retry_count = count;
        this
    }

    pub fn url(&self) -> (r: Option<&str>)
        ensures
            r matches Some(s) ==> self@.url == Some(s@),
            r is None ==> self@.url is None,
    {
        match &self.url {
            Some(s) => Some(s.as_str()),
            None => None,
        }
    }

    pub fn domain(&self) -> (r: Option<&str>)
        ensures
            r matches Some(s) ==> self@.domain == Some(s@),
            r is None ==> self@.domain is None,
    {
        match &self.domain {
            Some(s) => Some(s.as_str()),
            None => None,
        }
    }

    pub fn request_method(&self) -> (r: Option<&str>)
        ensures
            r matches Some(s) ==> self@.request_method == Some(s@),
            r is None ==> self@.request_method is None,
    {
        match &self.request_method {
            Some(s) => Some(s.as_str()),
            None => None,
        }
    }

    pub fn response_status(&self) -> (r: Option<u16>)
        ensures
            r == self@.response_status,
    {
        self.response_status
    }

    pub fn response_headers(&self) -> (r: Option<&Vec<(String, String)>>)
        ensures
            r matches Some(h) ==> self@.response_headers == Some(pairs_view(h@)),
            r is None ==> self@.response_headers is None,
    {
        match &self.response_headers {
            Some(h) => Some(h),
            None => None,
        }
    }

    pub fn user_agent(&self) -> (r: Option<&str>)
        ensures
            r matches Some(s) ==> self@.user_agent == Some(s@),
            r is None ==> self@.user_agent is None,
    {
        match &self.user_agent {
            Some(s) => Some(s.as_str()),
            None => None,
        }
    }

    /// When the context was created, in milliseconds since the Unix epoch.
    pub fn timestamp(&self) -> (r: u64)
        ensures
            r == self@.timestamp,
    {
        self.timestamp
    }

    pub fn retry_count(&self) -> (r: u32)
        ensures
            r == self@.retry_count,
    {
        self.retry_count
    }
}

impl Default for ErrorContext {
    fn default() -> (r: Self)
        ensures
            r@ == empty_context(r@.timestamp),
    {
        Self::new()
    }
}

/// Abstract content of a crawl error.
pub struct CrawlErrorView {
    pub error_type: Seq<char>,
    pub error_message: Seq<char>,
    pub error_severity: ErrorSeverity,
    pub context: ErrorContextView,
    pub source_error: Option<Seq<char>>,
    pub caused_by: Seq<Seq<char>>,
    pub is_retryable: bool,
    pub suggested_action: Option<Seq<char>>,
}

/// A categorized error with its context, causes and advice.
#[derive(Debug)]
pub struct CrawlError {
    error_type: String,
    error_message: String,
    error_severity: ErrorSeverity,
    context: ErrorContext,
    source_error: Option<String>,
    caused_by: Vec<String>,
    is_retryable: bool,
    suggested_action: Option<String>,
}

impl View for CrawlError {
    type V = CrawlErrorView;

    closed spec fn view(&self) -> CrawlErrorView {
        CrawlErrorView {
            error_type: self.error_type@,
            error_message: self.error_message@,
            error_severity: self.error_severity,
            context: self.context@,
            source_error: opt_seq(self.source_error),
            caused_by: strings_view(self.caused_by@),
            is_retryable: self.is_retryable,
            suggested_action: opt_seq(self.suggested_action),
        }
    }
}

impl Clone for CrawlError {
    fn clone(&self) -> (r: Self)
        ensures
            r@ == self@,
    {
        CrawlError {
            error_type: self.error_type.clone(),
            error_message: self.error_message.clone(),
            error_severity: self.error_severity,
            context: self.context.clone(),
            source_error: clone_opt_string(&self.source_error),
            caused_by: clone_strings(&self.caused_by),
            is_retryable: self.is_retryable,
            suggested_action: clone_opt_string(&self.suggested_action),
        }
    }
}

/// A new error of the given type, message and severity, with the given
/// context, no source, no causes, no advice and not retryable.
pub open spec fn fresh_error(ty: Seq<char>, msg: Seq<char>, sev: ErrorSeverity, ctx: ErrorContextView) -> CrawlErrorView {
    CrawlErrorView {
        error_type: ty,
        error_message: msg,
        error_severity: sev,
        context: ctx,
        source_error: None,
        caused_by: seq![],
        is_retryable: false,
        suggested_action: None,
    }
}

/// The message that an HTTP status carries.
pub open spec fn http_status_message(status: u16) -> Seq<char> {
    if status == 400 {
        "Bad Request"@
    } else if status == 401 {
        "Unauthorized"@
    } else if status == 403 {
        "Forbidden"@
    } else if status == 404 {
        "Not Found"@
    } else if status == 429 {
        "Too Many Requests"@
    } else if status == 500 {
        "Internal Server Error"@
    } else if status == 502 {
        "Bad Gateway"@
    } else if status == 503 {
        "Service Unavailable"@
    } else if status == 504 {
        "Gateway Timeout"@
    } else {
        "HTTP Error "@ + decimal(status as nat)
    }
}

/// Client errors are medium, server errors high, anything else medium.
pub open spec fn http_status_severity(status: u16) -> ErrorSeverity {
    if 500 <= status <= 599 {
        ErrorSeverity::High
    } else {
        ErrorSeverity::Medium
    }
}

/// Request timeouts, rate limiting and server errors are worth a retry.
pub open spec fn http_status_retryable(status: u16) -> bool {
    status == 408 || status == 429 || (500 <= status <= 599)
}

/// Lines naming the request: URL, method and status, each when known.
pub open spec fn report_details(c: ErrorContextView) -> Seq<char> {
    (match c.url {
        Some(u) => "\n  URL: "@ + u,
        None => Seq::<char>::empty(),
    }) + (match c.request_method {
        Some(m) => "\n  Method: "@ + m,
        None => Seq::<char>::empty(),
    }) + (match c.response_status {
        Some(s) => "\n  Status: "@ + decimal(s as nat),
        None => Seq::<char>::empty(),
    })
}

/// One line per header, in order.
pub open spec fn header_lines(h: Seq<(Seq<char>, Seq<char>)>) -> Seq<char>
    decreases h.len(),
{
    if h.len() == 0 {
        Seq::<char>::empty()
    } else {
        header_lines(h.drop_last()) + "\n    "@ + h.last().0 + ": "@ + h.last().1
    }
}

/// One numbered line per cause, counting from 1.
pub open spec fn cause_lines(c: Seq<Seq<char>>) -> Seq<char>
    decreases c.len(),
{
    if c.len() == 0 {
        Seq::<char>::empty()
    } else {
        cause_lines(c.drop_last()) + "\n    "@ + decimal(c.len() as nat) + ": "@ + c.last()
    }
}

pub open spec fn min_nat(a: nat, b: nat) -> nat {
    if a <= b { a } else { b }
}

/// The full report of an error under a configuration: type and message;
/// the request details when configured; at most five headers when
/// configured and present; the causes up to the configured depth; the
/// suggested action.
pub open spec fn error_report(e: CrawlErrorView, cfg: ErrorConfigView) -> Seq<char> {
    e.error_type + ": "@ + e.error_message
        + (if cfg.include_request_details { report_details(e.context) } else { Seq::<char>::empty() })
        + (if cfg.include_response_headers && e.context.response_headers is Some {
            "\n  Headers:"@ + header_lines(
                e.context.response_headers->0.take(min_nat(5, e.context.response_headers->0.len()) as int),
            )
        } else {
            Seq::<char>::empty()
        })
        + (if e.caused_by.len() > 0 {
            "\n  Caused by:"@ + cause_lines(
                e.caused_by.take(min_nat(cfg.max_error_context_depth as nat, e.caused_by.len()) as int),
            )
        } else {
            Seq::<char>::empty()
        })
        + (match e.suggested_action {
            Some(a) => "\n  Suggested action: "@ + a,
            None => Seq::<char>::empty(),
        })
}

/// The task-error category that a crawl error type maps to.
pub open spec fn task_kind_for_error_type(t: Seq<char>) -> TaskErrorKind {
    if t == "network_timeout"@ || t == "connection_refused"@ || t == "dns_resolution_failed"@ {
        TaskErrorKind::Network
    } else if t == "http_error"@ || t == "parsing_error"@ || t == "encoding_error"@ {
        TaskErrorKind::Parse
    } else if t == "configuration_error"@ || t == "system_error"@ || t == "robots_blocked"@
        || t == "rate_limited"@ {
        TaskErrorKind::Configuration
    } else {
        TaskErrorKind::Internal
    }
}

fn task_kind_of(t: &str) -> (r: TaskErrorKind)
    ensures
        r == task_kind_for_error_type(t@),
{
    if str_eq(t, "network_timeout") || str_eq(t, "connection_refused") || str_eq(t, "dns_resolution_failed") {
        TaskErrorKind::Network
    } else if str_eq(t, "http_error") || str_eq(t, "parsing_error") || str_eq(t, "encoding_error") {
        TaskErrorKind::Parse
    } else if str_eq(t, "configuration_error") || str_eq(t, "system_error") || str_eq(t, "robots_blocked")
        || str_eq(t, "rate_limited") {
        TaskErrorKind::Configuration
    } else {
        TaskErrorKind::Internal
    }
}

impl CrawlError {
    /// A new error with an empty context stamped now.
    pub fn new(error_type: &str, message: &str, severity: ErrorSeverity) -> (r: Self)
        ensures
            r@ == fresh_error(error_type@, message@, severity, empty_context(r@.context.timestamp)),
    {
        let r = CrawlError {
            error_type: error_type.to_string(),
            error_message: message.to_string(),
            error_severity: severity,
            context: ErrorContext::new(),
            source_error: None,
            caused_by: Vec::new(),
            is_retryable: false,
            suggested_action: None,
        };
        proof {
            assert(strings_view(r.caused_by@) =~= Seq::<Seq<char>>::empty());
        }
        r
    }

    pub fn network_timeout(context: ErrorContext) -> (r: Self)
        ensures
            r@ == (CrawlErrorView {
                is_retryable: true,
                suggested_action: Some("Retry with longer timeout or check network connectivity"@),
                ..fresh_error("network_timeout"@, "Network request timed out"@, ErrorSeverity::High, context@)
            }),
    {
        Self::new("network_timeout", "Network request timed out", ErrorSeverity::High)
            .with_context(context)
            .with_retryable(true)
            .with_suggested_action("Retry with longer timeout or check network connectivity")
    }

    pub fn connection_refused(url: &str) -> (r: Self)
        ensures
            r@ == (CrawlErrorView {
                is_retryable: true,
                suggested_action: Some("Check if server is running and accessible"@),
                ..fresh_error("connection_refused"@, "Connection refused by server"@, ErrorSeverity::High,
                    ErrorContextView { url: Some(url@), ..empty_context(r@.context.timestamp) })
            }),
    {
        let context = ErrorContext::new().with_url(url);
        Self::new("connection_refused", "Connection refused by server", ErrorSeverity::High)
            .with_context(context)
            .with_retryable(true)
            .with_suggested_action("Check if server is running and accessible")
    }

    pub fn dns_resolution_failed(domain: &str) -> (r: Self)
        ensures
            r@ == (CrawlErrorView {
                is_retryable: true,
                suggested_action: Some("Check domain name or DNS server configuration"@),
                ..fresh_error("dns_resolution_failed"@, "Failed to resolve domain: "@ + domain@, ErrorSeverity::High,
                    ErrorContextView { domain: Some(domain@), ..empty_context(r@.context.timestamp) })
            }),
    {
        let context = ErrorContext::new().with_domain(domain);
        let message = concat_str("Failed to resolve domain: ", domain);
        Self::new("dns_resolution_failed", message.as_str(), ErrorSeverity::High)
            .with_context(context)
            .with_retryable(true)
            .with_suggested_action("Check domain name or DNS server configuration")
    }

    /// An HTTP error: the status's message, severity and retry advice, with
    /// the status recorded in the context.
    pub fn http_error(status: u16, context: ErrorContext) -> (r: Self)
        ensures
            r@ == (CrawlErrorView {
                is_retryable: http_status_retryable(status),
                ..fresh_error("http_error"@, http_status_message(status), http_status_severity(status),
                    ErrorContextView { response_status: Some(status), ..context@ })
            }),
    {
        let message = if status == 400 {
            "Bad Request".to_string()
        } else if status == 401 {
            "Unauthorized".to_string()
        } else if status == 403 {
            "Forbidden".to_string()
        } else if status == 404 {
            "Not Found".to_string()
        } else if status == 429 {
            "Too Many Requests".to_string()
        } else if status == 500 {
            "Internal Server Error".to_string()
        } else if status == 502 {
            "Bad Gateway".to_string()
        } else if status == 503 {
            "Service Unavailable".to_string()
        } else if status == 504 {
            "Gateway Timeout".to_string()
        } else {
            let digits = u64_to_string(status as u64);
            concat_str("HTTP Error ", digits.as_str())
        };
        let severity = if 400 <= status && status <= 499 {
            ErrorSeverity::Medium
        } else if 500 <= status && status <= 599 {
            ErrorSeverity::High
        } else {
            ErrorSeverity::Medium
        };
        let retryable = status == 408 || status == 429 || (500 <= status && status <= 599);
        Self::new("http_error", message.as_str(), severity)
            .with_context(context.with_response_status(status))
            .with_retryable(retryable)
    }

    pub fn parsing_error(message: &str, context: ErrorContext) -> (r: Self)
        ensures
            r@ == (CrawlErrorView {
                suggested_action: Some("Check content format or parsing rules"@),
                ..fresh_error("parsing_error"@, message@, ErrorSeverity::Medium, context@)
            }),
    {
        Self::new("parsing_error", message, ErrorSeverity::Medium)
            .with_context(context)
            .with_retryable(false)
            .with_suggested_action("Check content format or parsing rules")
    }

    pub fn encoding_error(encoding: &str, context: ErrorContext) -> (r: Self)
        ensures
            r@ == fresh_error("encoding_error"@, "Unsupported encoding: "@ + encoding@, ErrorSeverity::Low, context@),
    {
        let message = concat_str("Unsupported encoding: ", encoding);
        Self::new("encoding_error", message.as_str(), ErrorSeverity::Low)
            .with_context(context)
            .with_retryable(false)
    }

    pub fn robots_blocked(url: &str) -> (r: Self)
        ensures
            r@ == (CrawlErrorView {
                suggested_action: Some("Respect robots.txt or request permission"@),
                ..fresh_error("robots_blocked"@, "Blocked by robots.txt"@, ErrorSeverity::Low,
                    ErrorContextView { url: Some(url@), ..empty_context(r@.context.timestamp) })
            }),
    {
        let context = ErrorContext::new().with_url(url);
        Self::new("robots_blocked", "Blocked by robots.txt", ErrorSeverity::Low)
            .with_context(context)
            .with_retryable(false)
            .with_suggested_action("Respect robots.txt or request permission")
    }

    pub fn rate_limited(context: ErrorContext) -> (r: Self)
        ensures
            r@ == (CrawlErrorView {
                is_retryable: true,
                suggested_action: Some("Reduce request rate or implement exponential backoff"@),
                ..fresh_error("rate_limited"@, "Request rate limit exceeded"@, ErrorSeverity::Medium, context@)
            }),
    {
        Self::new("rate_limited", "Request rate limit exceeded", ErrorSeverity::Medium)
            .with_context(context)
            .with_retryable(true)
            .with_suggested_action("Reduce request rate or implement exponential backoff")
    }

    pub fn configuration_error(message: &str) -> (r: Self)
        ensures
            r@ == (CrawlErrorView {
                suggested_action: Some("Check configuration settings"@),
                ..fresh_error("configuration_error"@, message@, ErrorSeverity::Critical, empty_context(r@.context.timestamp))
            }),
    {
        Self::new("configuration_error", message, ErrorSeverity::Critical)
            .with_retryable(false)
            .with_suggested_action("Check configuration settings")
    }

    pub fn system_error(message: &str) -> (r: Self)
        ensures
            r@ == (CrawlErrorView {
                suggested_action: Some("Check system resources and permissions"@),
                ..fresh_error("system_error"@, message@, ErrorSeverity::Critical, empty_context(r@.context.timestamp))
            }),
    {
        Self::new("system_error", message, ErrorSeverity::Critical)
            .with_retryable(false)
            .with_suggested_action("Check system resources and permissions")
    }

    pub fn with_context(self, context: ErrorContext) -> (r: Self)
        ensures
            r@ == (CrawlErrorView { context: context@, ..self@ }),
    {
        let mut this = self;
        this.context = context;
        this
    }

    pub fn with_source_error(self, source: &str) -> (r: Self)
        ensures
            r@ == (CrawlErrorView { source_error: Some(source@), ..self@ }),
    {
        let mut this = self;
        this.source_error = Some(source.to_string());
        this
    }

    pub fn with_caused_by(self, caused_by: Vec<String>) -> (r: Self)
        ensures
            r@ == (CrawlErrorView { caused_by: strings_view(caused_by@), ..self@ }),
    {
        let mut this = self;
        this.caused_by = caused_by;
        this
    }

    pub fn with_retryable(self, retryable: bool) -> (r: Self)
        ensures
            r@ == (CrawlErrorView { is_retryable: retryable, ..self@ }),
    {
        let mut this = self;
        this.is_retryable = retryable;
        this
    }

    pub fn with_suggested_action(self, action: &str) -> (r: Self)
        ensures
            r@ == (CrawlErrorView { suggested_action: Some(action@), ..self@ }),
    {
        let mut this = self;
        this.suggested_action = Some(action.to_string());
        this
    }

    /// Shortens a message longer than the configured number of bytes: it
    /// keeps the bytes before the last three allowed and appends "...".
    pub fn truncate_message(&mut self, config: &ErrorConfig)
        requires
            encode_utf8(old(self)@.error_message).len() <= usize::MAX,
            encode_utf8(old(self)@.error_message).len() > config@.max_error_message_length ==> {
                &&& config@.max_error_message_length >= 3
                &&& is_char_boundary(encode_utf8(old(self)@.error_message),
                    config@.max_error_message_length - 3)
            },
        ensures
            encode_utf8(old(self)@.error_message).len() <= config@.max_error_message_length
                ==> final(self)@ == old(self)@,
            encode_utf8(old(self)@.error_message).len() > config@.max_error_message_length ==> {
                let kept = final(self)@.error_message.len() - 3;
                &&& final(self)@ == (CrawlErrorView { error_message: final(self)@.error_message, ..old(self)@ })
                &&& final(self)@.error_message.len() >= 3
                &&& final(self)@.error_message.skip(kept) == "..."@
                &&& encode_utf8(final(self)@.error_message.take(kept))
                    == encode_utf8(old(self)@.error_message).take(config@.max_error_message_length - 3)
            },
    {
        let max = config.max_error_message_length();
        let len = self.error_message.as_str().len();
        if len > max {
            let (head, _tail) = self.error_message.as_str().split_at(max - 3);
            let mut s = head.to_string();
            s.append("...");
            proof {
                reveal_strlit("...");
                assert(s@.skip(s@.len() - 3) =~= "..."@);
                assert(s@.take(s@.len() - 3) =~= head@);
                assert(head.spec_bytes() == encode_utf8(head@));
                assert(encode_utf8(head@) =~= encode_utf8(old(self)@.error_message).take(max - 3));
            }
            self.error_message = s;
            assert(self@.error_message == s@);
            assert(self@.error_message.take(self@.error_message.len() - 3) == head@);
            assert(self@ == (CrawlErrorView { error_message: self@.error_message, ..old(self)@ }));
        }
    }

    pub fn error_type(&self) -> (r: &str)
        ensures
            r@ == self@.error_type,
    {
        self.error_type.as_str()
    }

    pub fn error_message(&self) -> (r: &str)
        ensures
            r@ == self@.error_message,
    {
        self.error_message.as_str()
    }

    pub fn error_severity(&self) -> (r: ErrorSeverity)
        ensures
            r == self@.error_severity,
    {
        self.error_severity
    }

    pub fn context(&self) -> (r: &ErrorContext)
        ensures
            r@ == self@.context,
    {
        &self.context
    }

    pub fn source_error(&self) -> (r: Option<&str>)
        ensures
            r matches Some(s) ==> self@.source_error == Some(s@),
            r is None ==> self@.source_error is None,
    {
        match &self.source_error {
            Some(s) => Some(s.as_str()),
            None => None,
        }
    }

    pub fn caused_by(&self) -> (r: &[String])
        ensures
            strings_view(r@) == self@.caused_by,
    {
        self.caused_by.as_slice()
    }

    pub fn is_retryable(&self) -> (r: bool)
        ensures
            r == self@.is_retryable,
    {
        self.is_retryable
    }

    pub fn suggested_action(&self) -> (r: Option<&str>)
        ensures
            r matches Some(s) ==> self@.suggested_action == Some(s@),
            r is None ==> self@.suggested_action is None,
    {
        match &self.suggested_action {
            Some(s) => Some(s.as_str()),
            None => None,
        }
    }

    /// The formatted report of this error under `config` (see `error_report`).
    pub fn format_report(&self, config: &ErrorConfig) -> (r: String)
        ensures
            r@ == error_report(self@, config@),
    {
        let mut report = concat_str(self.error_type.as_str(), ": ");
        push_str(&mut report, self.error_message.as_str());
        if config.should_include_request_details() {
            let d = details_section(&self.context);
            push_str(&mut report, d.as_str());
        }
        let ghost after_details = report@;
        if config.should_include_response_headers() {
            match &self.context.response_headers {
                Some(headers) => {
                    let h = headers_section(headers);
                    push_str(&mut report, h.as_str());
                },
                None => {},
            }
        }
        let ghost after_headers = report@;
        if self.caused_by.len() > 0 {
            let c = causes_section(&self.caused_by, config.max_error_context_depth());
            push_str(&mut report, c.as_str());
        }
        let ghost after_causes = report@;
        match &self.suggested_action {
            Some(a) => {
                push_str(&mut report, "\n  Suggested action: ");
                push_str(&mut report, a.as_str());
            },
            None => {},
        }
        proof {
            let e = self@;
            let cfg = config@;
            let hpart = if cfg.include_response_headers && e.context.response_headers is Some {
                "\n  Headers:"@ + header_lines(
                    e.context.response_headers->0.take(min_nat(5, e.context.response_headers->0.len()) as int))
            } else {
                Seq::<char>::empty()
            };
            let cpart = if e.caused_by.len() > 0 {
                "\n  Caused by:"@ + cause_lines(
                    e.caused_by.take(min_nat(cfg.max_error_context_depth as nat, e.caused_by.len()) as int))
            } else {
                Seq::<char>::empty()
            };
            assert(after_headers =~= after_details + hpart);
            assert(after_causes =~= after_headers + cpart);
        }
        report
    }
}

/// The request-details section of a report.
fn details_section(ctx: &ErrorContext) -> (r: String)
    ensures
        r@ == report_details(ctx@),
{
    let mut out = String::new();
    match &ctx.url {
        Some(u) => {
            push_str(&mut out, "\n  URL: ");
            push_str(&mut out, u.as_str());
        },
        None => {},
    }
    let ghost a = out@;
    match &ctx.request_method {
        Some(m) => {
            push_str(&mut out, "\n  Method: ");
            push_str(&mut out, m.as_str());
        },
        None => {},
    }
    let ghost b = out@;
    match ctx.response_status {
        Some(st) => {
            push_str(&mut out, "\n  Status: ");
            let digits = u64_to_string(st as u64);
            push_str(&mut out, digits.as_str());
        },
        None => {},
    }
    proof {
        assert(out@ =~= report_details(ctx@));
    }
    out
}

/// The headers section of a report: at most the first five headers.
fn headers_section(headers: &Vec<(String, String)>) -> (r: String)
    ensures
        r@ == "\n  Headers:"@ + header_lines(pairs_view(headers@).take(min_nat(5, headers@.len()) as int)),
{
    let mut out = "\n  Headers:".to_string();
    let ghost start = out@;
    let n = if headers.len() < 5 { headers.len() } else { 5 };
    let mut i: usize = 0;
    while i < n
        invariant
            n <= headers.len(),
            n == min_nat(5, headers@.len()),
            i <= n,
            start == "\n  Headers:"@,
            out@ == start + header_lines(pairs_view(headers@).take(i as int)),
        decreases n - i,
    {
        push_str(&mut out, "\n    ");
        push_str(&mut out, headers[i].0.as_str());
        push_str(&mut out, ": ");
        push_str(&mut out, headers[i].1.as_str());
        proof {
            let hv = pairs_view(headers@);
            assert(hv.take(i + 1).drop_last() =~= hv.take(i as int));
            assert(hv.take(i + 1).last() == hv[i as int]);
        }
        i = i + 1;
    }
    out
}

/// The causes section of a report: at most `depth` numbered causes.
fn causes_section(causes: &Vec<String>, depth: usize) -> (r: String)
    ensures
        r@ == "\n  Caused by:"@ + cause_lines(strings_view(causes@).take(min_nat(depth as nat, causes@.len()) as int)),
{
    let mut out = "\n  Caused by:".to_string();
    let ghost start = out@;
    let n = if causes.len() < depth { causes.len() } else { depth };
    let mut i: usize = 0;
    while i < n
        invariant
            n <= causes.len(),
            n == min_nat(depth as nat, causes@.len()),
            i <= n,
            start == "\n  Caused by:"@,
            out@ == start + cause_lines(strings_view(causes@).take(i as int)),
        decreases n - i,
    {
        push_str(&mut out, "\n    ");
        let digits = u64_to_string((i + 1) as u64);
        push_str(&mut out, digits.as_str());
        push_str(&mut out, ": ");
        push_str(&mut out, causes[i].as_str());
        proof {
            let cv = strings_view(causes@);
            assert(cv.take(i + 1).drop_last() =~= cv.take(i as int));
            assert(cv.take(i + 1).last() == cv[i as int]);
            assert(cv.take(i + 1).len() == i + 1);
        }
        i = i + 1;
    }
    out
}

impl From<CrawlError> for TaskError {
    fn from(crawl_error: CrawlError) -> (r: TaskError) {
        let kind = task_kind_of(crawl_error.error_type.as_str());
        TaskError::from_parts(kind, crawl_error.error_message)
    }
}

impl vstd::std_specs::convert::FromSpecImpl<CrawlError> for TaskError {
    open spec fn obeys_from_spec() -> bool {
        true
    }

    open spec fn from_spec(v: CrawlError) -> TaskError {
        task_error_of(task_kind_for_error_type(v@.error_type), v.error_message_string())
    }
}

impl CrawlError {
    /// The message as an owned string value (for specifications).
    pub closed spec fn error_message_string(self) -> String {
        self.error_message
    }
}

/// Converting a crawl error gives the task error whose category is the one
/// its error type maps to (see `task_kind_for_error_type`) and whose message
/// is the crawl error's message.
pub proof fn lemma_task_error_from_crawl_error(e: CrawlError)
    ensures
        task_error_of(task_kind_for_error_type(e@.error_type), e.error_message_string())@ == (TaskErrorView {
            kind: task_kind_for_error_type(e@.error_type),
            message: e@.error_message,
        }),
{
    crate::common::lemma_task_error_of(task_kind_for_error_type(e@.error_type), e.error_message_string());
}

/// Applies an error configuration to errors.
pub struct ErrorHandler {
    config: ErrorConfig,
}

impl ErrorHandler {
    pub fn new(config: ErrorConfig) -> (r: Self)
        ensures
            r.config_view() == config@,
    {
        ErrorHandler { config }
    }

    pub closed spec fn config_view(&self) -> ErrorConfigView {
        self.config@
    }

    pub fn with_defaults() -> (r: Self)
        ensures
            r.config_view() == default_error_config(),
    {
        Self::new(ErrorConfig::default())
    }

    /// Truncates the error's message to the configured length.
    pub fn process_error(&self, error: CrawlError) -> (r: CrawlError)
        requires
            encode_utf8(error@.error_message).len() <= usize::MAX,
            encode_utf8(error@.error_message).len() > self.config_view().max_error_message_length ==> {
                &&& self.config_view().max_error_message_length >= 3
                &&& is_char_boundary(encode_utf8(error@.error_message),
                    self.config_view().max_error_message_length - 3)
            },
        ensures
            encode_utf8(error@.error_message).len() <= self.config_view().max_error_message_length
                ==> r@ == error@,
            encode_utf8(error@.error_message).len() > self.config_view().max_error_message_length ==> {
                let kept = r@.error_message.len() - 3;
                &&& r@ == (CrawlErrorView { error_message: r@.error_message, ..error@ })
                &&& r@.error_message.len() >= 3
                &&& r@.error_message.skip(kept) == "..."@
                &&& encode_utf8(r@.error_message.take(kept))
                    == encode_utf8(error@.error_message).take(self.config_view().max_error_message_length - 3)
            },
    {
        let mut error = error;
        error.truncate_message(&self.config);
        error
    }

    /// The error as a failed processing result.
    pub fn to_processing_result<T>(&self, error: CrawlError) -> (r: Result<T, TaskError>)
        ensures
            r matches Err(e) && e@.kind == task_kind_for_error_type(error@.error_type)
                && e@.message == error@.error_message,
    {
        let kind = task_kind_of(error.error_type.as_str());
        Err(TaskError::from_parts(kind, error.error_message))
    }

    /// An error built from a standard error's message.
    pub fn from_std_error(&self, message: &str, context: ErrorContext) -> (r: CrawlError)
        ensures
            r@ == (CrawlErrorView {
                source_error: Some(message@),
                ..fresh_error("std_error"@, message@, ErrorSeverity::Medium, context@)
            }),
    {
        CrawlError::new("std_error", message, ErrorSeverity::Medium)
            .with_context(context)
            .with_source_error(message)
    }

    pub fn config(&self) -> (r: &ErrorConfig)
        ensures
            r@ == self.config_view(),
    {
        &self.config
    }
}

impl Default for ErrorHandler {
    fn default() -> (r: Self)
        ensures
            r.config_view() == default_error_config(),
    {
        Self::with_defaults()
    }
}

} // verus!
