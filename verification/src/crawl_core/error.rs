//! The crawler's error taxonomy: what each failure is called, whether it is
//! worth retrying and how severe it is.
use vstd::prelude::*;
use crate::crawl_core::types::ErrorSeverity;
use crate::text_util::{contains_str, decimal, is_substring, lowercase_of, to_lowercase, u64_to_string};

verus! {

/// Declares `anyhow::Error` so that it can be carried through verified code.
#[verifier::external_type_specification]
#[verifier::external_body]
pub struct ExAnyhowError(anyhow::Error);

/// Calls `anyhow::Error`'s `Display` (via `to_string`). The error is opaque
/// here, so nothing is promised of the text.
#[verifier::external_body]
fn anyhow_message(error: &anyhow::Error) -> (r: String) {
    error.to_string()
}

/// A categorized crawl failure.
#[derive(Debug)]
pub enum CrawlError {
    NetworkError(String),
    NetworkTimeout,
    ConnectionRefused,
    DnsResolutionFailed(String),
    ProxyError,
    HttpError(u16),
    RedirectLoop,
    InvalidUrl(String),
    ContentTooShort,
    LanguageNotSupported,
    ParsingError,
    EncodingError,
    KeywordConfigError(String),
    KeywordNotFound,
    ExtensiveConfigError(String),
    CleaningConfigError(String),
    CleaningRuleError(String),
    RobotsBlocked,
    RateLimited,
    Forbidden,
    UnknownError(String),
}

/// Errors worth another attempt: network failures, 5xx responses, proxy
/// failures and rate limiting.
pub open spec fn spec_is_retryable(e: CrawlError) -> bool {
    match e {
        CrawlError::NetworkError(_) => true,
        CrawlError::NetworkTimeout => true,
        CrawlError::ConnectionRefused => true,
        CrawlError::DnsResolutionFailed(_) => true,
        CrawlError::HttpError(code) => 500 <= code <= 599,
        CrawlError::ProxyError => true,
        CrawlError::RateLimited => true,
        _ => false,
    }
}

pub open spec fn spec_severity(e: CrawlError) -> ErrorSeverity {
    match e {
        CrawlError::NetworkError(_) => ErrorSeverity::High,
        CrawlError::NetworkTimeout => ErrorSeverity::High,
        CrawlError::ConnectionRefused => ErrorSeverity::High,
        CrawlError::ProxyError => ErrorSeverity::High,
        CrawlError::DnsResolutionFailed(_) => ErrorSeverity::Medium,
        CrawlError::HttpError(_) => ErrorSeverity::Medium,
        CrawlError::RateLimited => ErrorSeverity::Low,
        CrawlError::RedirectLoop => ErrorSeverity::Medium,
        CrawlError::InvalidUrl(_) => ErrorSeverity::Medium,
        CrawlError::ContentTooShort => ErrorSeverity::Low,
        CrawlError::LanguageNotSupported => ErrorSeverity::Low,
        CrawlError::ParsingError => ErrorSeverity::Medium,
        CrawlError::EncodingError => ErrorSeverity::Medium,
        CrawlError::KeywordConfigError(_) => ErrorSeverity::High,
        CrawlError::ExtensiveConfigError(_) => ErrorSeverity::High,
        CrawlError::CleaningConfigError(_) => ErrorSeverity::High,
        CrawlError::KeywordNotFound => ErrorSeverity::Low,
        CrawlError::CleaningRuleError(_) => ErrorSeverity::Medium,
        CrawlError::RobotsBlocked => ErrorSeverity::Low,
        CrawlError::Forbidden => ErrorSeverity::Low,
        CrawlError::UnknownError(_) => ErrorSeverity::Critical,
    }
}

/// The category that an error message falls into, checked against its
/// lowercase form in this order: "timeout", "connection refused", "dns",
/// "proxy", "redirect", then "url" or "parse"; anything else is unknown.
/// Categories that carry text keep the original message.
pub open spec fn categorizes_message(r: CrawlError, msg: Seq<char>) -> bool {
    let low = lowercase_of(msg);
    if is_substring("timeout"@, low) {
        r is NetworkTimeout
    } else if is_substring("connection refused"@, low) {
        r is ConnectionRefused
    } else if is_substring("dns"@, low) {
        r matches CrawlError::DnsResolutionFailed(m) && m@ == msg
    } else if is_substring("proxy"@, low) {
        r is ProxyError
    } else if is_substring("redirect"@, low) {
        r is RedirectLoop
    } else if is_substring("url"@, low) || is_substring("parse"@, low) {
        r matches CrawlError::InvalidUrl(m) && m@ == msg
    } else {
        r matches CrawlError::UnknownError(m) && m@ == msg
    }
}

/// The human-readable description of an error.
pub open spec fn spec_display(e: CrawlError) -> Seq<char> {
    match e {
        CrawlError::NetworkError(m) => "Network error: "@ + m@,
        CrawlError::NetworkTimeout => "Network timeout"@,
        CrawlError::ConnectionRefused => "Connection refused"@,
        CrawlError::DnsResolutionFailed(d) => "DNS resolution failed for "@ + d@,
        CrawlError::ProxyError => "Proxy connection error"@,
        CrawlError::HttpError(code) => "HTTP error: "@ + decimal(code as nat),
        CrawlError::RedirectLoop => "Redirect loop detected"@,
        CrawlError::InvalidUrl(u) => "Invalid URL: "@ + u@,
        CrawlError::ContentTooShort => "Content too short"@,
        CrawlError::LanguageNotSupported => "Language not supported"@,
        CrawlError::ParsingError => "HTML parsing error"@,
        CrawlError::EncodingError => "Text encoding error"@,
        CrawlError::KeywordConfigError(m) => "Keyword configuration error: "@ + m@,
        CrawlError::KeywordNotFound => "Target keywords not found in content"@,
        CrawlError::ExtensiveConfigError(m) => "Extensive crawling configuration error: "@ + m@,
        CrawlError::CleaningConfigError(m) => "Text cleaning configuration error: "@ + m@,
        CrawlError::CleaningRuleError(m) => "Text cleaning rule error: "@ + m@,
        CrawlError::RobotsBlocked => "Blocked by robots.txt"@,
        CrawlError::RateLimited => "Rate limited"@,
        CrawlError::Forbidden => "Access forbidden"@,
        CrawlError::UnknownError(m) => "Unknown error: "@ + m@,
    }
}

fn concat_str(a: &str, b: &str) -> (r: String)
    ensures
        r@ == a@ + b@,
{
    let mut s = a.to_string();
    s.append(b);
    s
}

impl CrawlError {
    /// Whether this error should trigger a retry.
    pub fn is_retryable(&self) -> (r: bool)
        ensures
            r == spec_is_retryable(*self),
    {
        match self {
            CrawlError::NetworkError(_) => true,
            CrawlError::NetworkTimeout => true,
            CrawlError::ConnectionRefused => true,
            CrawlError::DnsResolutionFailed(_) => true,
            CrawlError::HttpError(code) => 500 <= *code && *code <= 599,
            CrawlError::ProxyError => true,
            CrawlError::RateLimited => true,
            _ => false,
        }
    }

    /// The severity level of the error.
    pub fn severity(&self) -> (r: ErrorSeverity)
        ensures
            r == spec_severity(*self),
    {
        match self {
            CrawlError::NetworkError(_) => ErrorSeverity::High,
            CrawlError::NetworkTimeout => ErrorSeverity::High,
            CrawlError::ConnectionRefused => ErrorSeverity::High,
            CrawlError::ProxyError => ErrorSeverity::High,
            CrawlError::DnsResolutionFailed(_) => ErrorSeverity::Medium,
            CrawlError::HttpError(_) => ErrorSeverity::Medium,
            CrawlError::RateLimited => ErrorSeverity::Low,
            CrawlError::RedirectLoop => ErrorSeverity::Medium,
            CrawlError::InvalidUrl(_) => ErrorSeverity::Medium,
            CrawlError::ContentTooShort => ErrorSeverity::Low,
            CrawlError::LanguageNotSupported => ErrorSeverity::Low,
            CrawlError::ParsingError => ErrorSeverity::Medium,
            CrawlError::EncodingError => ErrorSeverity::Medium,
            CrawlError::KeywordConfigError(_) => ErrorSeverity::High,
            CrawlError::ExtensiveConfigError(_) => ErrorSeverity::High,
            CrawlError::CleaningConfigError(_) => ErrorSeverity::High,
            CrawlError::KeywordNotFound => ErrorSeverity::Low,
            CrawlError::CleaningRuleError(_) => ErrorSeverity::Medium,
            CrawlError::RobotsBlocked => ErrorSeverity::Low,
            CrawlError::Forbidden => ErrorSeverity::Low,
            CrawlError::UnknownError(_) => ErrorSeverity::Critical,
        }
    }

    /// Categorizes an error message (see `categorizes_message`).
    pub fn from_error_message(msg: &str) -> (r: CrawlError)
        ensures
            categorizes_message(r, msg@),
    {
        let low = to_lowercase(msg);
        let l = low.as_str();
        if contains_str(l, "timeout") {
            CrawlError::NetworkTimeout
        } else if contains_str(l, "connection refused") {
            CrawlError::ConnectionRefused
        } else if contains_str(l, "dns") {
            CrawlError::DnsResolutionFailed(msg.to_string())
        } else if contains_str(l, "proxy") {
            CrawlError::ProxyError
        } else if contains_str(l, "redirect") {
            CrawlError::RedirectLoop
        } else if contains_str(l, "url") || contains_str(l, "parse") {
            CrawlError::InvalidUrl(msg.to_string())
        } else {
            CrawlError::UnknownError(msg.to_string())
        }
    }

    /// Categorizes an `anyhow` error by its message.
    pub fn from_anyhow_error(error: &anyhow::Error) -> (r: CrawlError)
        ensures
            exists|msg: Seq<char>| categorizes_message(r, msg),
    {
        let msg = anyhow_message(error);
        Self::from_error_message(msg.as_str())
    }

    /// The human-readable description (what `Display` prints).
    pub fn to_display_string(&self) -> (r: String)
        ensures
            r@ == spec_display(*self),
    {
        match self {
            CrawlError::NetworkError(m) => concat_str("Network error: ", m.as_str()),
            CrawlError::NetworkTimeout => "Network timeout".to_string(),
            CrawlError::ConnectionRefused => "Connection refused".to_string(),
            CrawlError::DnsResolutionFailed(d) => concat_str("DNS resolution failed for ", d.as_str()),
            CrawlError::ProxyError => "Proxy connection error".to_string(),
            CrawlError::HttpError(code) => {
                let digits = u64_to_string(*code as u64);
                concat_str("HTTP error: ", digits.as_str())
            },
            CrawlError::RedirectLoop => "Redirect loop detected".to_string(),
            CrawlError::InvalidUrl(u) => concat_str("Invalid URL: ", u.as_str()),
            CrawlError::ContentTooShort => "Content too short".to_string(),
            CrawlError::LanguageNotSupported => "Language not supported".to_string(),
            CrawlError::ParsingError => "HTML parsing error".to_string(),
            CrawlError::EncodingError => "Text encoding error".to_string(),
            CrawlError::KeywordConfigError(m) => concat_str("Keyword configuration error: ", m.as_str()),
            CrawlError::KeywordNotFound => "Target keywords not found in content".to_string(),
            CrawlError::ExtensiveConfigError(m) => concat_str("Extensive crawling configuration error: ", m.as_str()),
            CrawlError::CleaningConfigError(m) => concat_str("Text cleaning configuration error: ", m.as_str()),
            CrawlError::CleaningRuleError(m) => concat_str("Text cleaning rule error: ", m.as_str()),
            CrawlError::RobotsBlocked => "Blocked by robots.txt".to_string(),
            CrawlError::RateLimited => "Rate limited".to_string(),
            CrawlError::Forbidden => "Access forbidden".to_string(),
            CrawlError::UnknownError(m) => concat_str("Unknown error: ", m.as_str()),
        }
    }
}

} // verus!
