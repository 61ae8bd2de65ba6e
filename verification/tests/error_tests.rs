use web_crawler::crawl_core::utils::ErrorUtils;
use web_crawler::common::TaskError;
use web_crawler::crawl_core::error::CrawlError as BasicCrawlError;
use web_crawler::crawl_core::error_refactored::{
    CrawlError, ErrorConfig, ErrorContext, ErrorHandler, ErrorSeverity,
};
use web_crawler::crawl_core::types::ErrorSeverity as BasicSeverity;

#[test]
fn test_error_config_builder() {
    let config = ErrorConfig::builder()
        .with_reporting_options(true, true, false)
        .with_categorization_options(true, false, true)
        .with_limits(500, 3)
        .build();

    assert!(config.should_include_stack_traces());
    assert!(config.should_include_request_details());
    assert!(!config.should_include_response_headers());
    assert_eq!(config.max_error_message_length(), 500);
    assert_eq!(config.max_error_context_depth(), 3);
}

#[test]
fn test_error_severity() {
    assert_eq!(ErrorSeverity::Low.as_str(), "low");
    assert_eq!(ErrorSeverity::Critical.as_str(), "critical");
    assert_eq!(ErrorSeverity::from_str("medium"), Some(ErrorSeverity::Medium));
    assert_eq!(ErrorSeverity::from_str("invalid"), None);
}

#[test]
fn test_error_context() {
    let context = ErrorContext::new()
        .with_url("https://example.com")
        .with_domain("example.com")
        .with_response_status(404);

    assert_eq!(context.url(), Some("https://example.com"));
    assert_eq!(context.domain(), Some("example.com"));
    assert_eq!(context.response_status(), Some(404));
}

#[test]
fn test_crawl_error_creation() {
    let _context = ErrorContext::new().with_url("https://example.com");
    let error = CrawlError::connection_refused("https://example.com");

    assert_eq!(error.error_type(), "connection_refused");
    assert_eq!(error.error_severity(), ErrorSeverity::High);
    assert!(error.is_retryable());
    assert!(error.suggested_action().is_some());
}

#[test]
fn test_http_error_creation() {
    let context = ErrorContext::new().with_url("https://example.com");
    let error = CrawlError::http_error(404, context);

    assert_eq!(error.error_type(), "http_error");
    assert_eq!(error.error_severity(), ErrorSeverity::Medium);
    assert!(!error.is_retryable());
}

#[test]
fn test_error_handler() {
    let config = ErrorConfig::builder().with_limits(50, 2).build();

    let handler = ErrorHandler::new(config);
    let long = "a".repeat(100);
    let mut error = CrawlError::new("test", &long, ErrorSeverity::Low);

    error = handler.process_error(error);
    assert!(error.error_message().len() <= 50);
}

#[test]
fn test_error_to_task_error_conversion() {
    let crawl_error = CrawlError::network_timeout(ErrorContext::new());
    let task_error = TaskError::from(crawl_error);

    assert_eq!(task_error.error_type(), "network");
}

#[test]
fn truncation_keeps_prefix_and_marks_it() {
    let config = ErrorConfig::builder().with_limits(10, 2).build();
    let mut error = CrawlError::new("t", "abcdefghijklmnop", ErrorSeverity::Low);
    error.truncate_message(&config);
    assert_eq!(error.error_message(), "abcdefg...");
    let mut short = CrawlError::new("t", "abc", ErrorSeverity::Low);
    short.truncate_message(&config);
    assert_eq!(short.error_message(), "abc");
}

#[test]
fn http_error_messages_and_advice() {
    let e = CrawlError::http_error(503, ErrorContext::new());
    assert_eq!(e.error_message(), "Service Unavailable");
    assert_eq!(e.error_severity(), ErrorSeverity::High);
    assert!(e.is_retryable());
    assert_eq!(e.context().response_status(), Some(503));
    let e = CrawlError::http_error(418, ErrorContext::new());
    assert_eq!(e.error_message(), "HTTP Error 418");
    assert_eq!(e.error_severity(), ErrorSeverity::Medium);
    assert!(!e.is_retryable());
    let e = CrawlError::http_error(408, ErrorContext::new());
    assert!(e.is_retryable());
}

#[test]
fn format_report_lists_details_causes_and_action() {
    let context = ErrorContext::new()
        .with_url("https://example.com")
        .with_request_method("GET")
        .with_response_status(500)
        .with_response_headers(vec![("server".to_string(), "x".to_string())]);
    let error = CrawlError::new("http_error", "boom", ErrorSeverity::High)
        .with_context(context)
        .with_caused_by(vec!["a".to_string(), "b".to_string(), "c".to_string()])
        .with_suggested_action("retry");
    let config = ErrorConfig::builder()
        .with_reporting_options(false, true, true)
        .with_limits(100, 2)
        .build();
    assert_eq!(
        error.format_report(&config),
        "http_error: boom\n  URL: https://example.com\n  Method: GET\n  Status: 500\n  Headers:\n    server: x\n  Caused by:\n    1: a\n    2: b\n  Suggested action: retry"
    );
    let plain = ErrorConfig::builder().with_reporting_options(false, false, false).build();
    let bare = CrawlError::new("x", "y", ErrorSeverity::Low);
    assert_eq!(bare.format_report(&plain), "x: y");
}

#[test]
fn task_error_categories_follow_error_types() {
    assert_eq!(TaskError::from(CrawlError::http_error(404, ErrorContext::new())).error_type(), "parse");
    assert_eq!(TaskError::from(CrawlError::robots_blocked("u")).error_type(), "configuration");
    assert_eq!(TaskError::from(CrawlError::system_error("s")).error_type(), "configuration");
    assert_eq!(TaskError::from(CrawlError::new("other", "m", ErrorSeverity::Low)).error_type(), "internal");
}

#[test]
fn basic_errors_retry_and_severity() {
    assert!(BasicCrawlError::HttpError(503).is_retryable());
    assert!(!BasicCrawlError::HttpError(404).is_retryable());
    assert!(BasicCrawlError::RateLimited.is_retryable());
    assert!(!BasicCrawlError::RobotsBlocked.is_retryable());
    assert_eq!(BasicCrawlError::UnknownError("x".to_string()).severity(), BasicSeverity::Critical);
    assert_eq!(BasicCrawlError::RateLimited.severity(), BasicSeverity::Low);
    assert_eq!(BasicCrawlError::HttpError(404).to_display_string(), "HTTP error: 404");
}

#[test]
fn basic_errors_from_messages() {
    assert!(matches!(BasicCrawlError::from_error_message("Request TIMEOUT"), BasicCrawlError::NetworkTimeout));
    assert!(matches!(BasicCrawlError::from_error_message("dns lookup"), BasicCrawlError::DnsResolutionFailed(ref m) if m == "dns lookup"));
    assert!(matches!(BasicCrawlError::from_error_message("bad url"), BasicCrawlError::InvalidUrl(_)));
    assert!(matches!(BasicCrawlError::from_error_message("weird"), BasicCrawlError::UnknownError(_)));
    let e = anyhow::Error::msg("connection refused by peer");
    assert!(matches!(BasicCrawlError::from_anyhow_error(&e), BasicCrawlError::ConnectionRefused));
}

#[test]
fn normalize_url_for_dedup() {
    assert_eq!(
        ErrorUtils::normalize_url("https://example.com/path/?b=2&a=1#frag"),
        "https://example.com/path?a=1&b=2"
    );
    assert_eq!(ErrorUtils::normalize_url("https://example.com/"), "https://example.com/");
    assert_eq!(ErrorUtils::normalize_url("https://example.com/a//"), "https://example.com/a");
    assert_eq!(ErrorUtils::normalize_url("not a url"), "not a url");
}

#[test]
fn severity_names_parse_back_in_any_case() {
    for s in [ErrorSeverity::Low, ErrorSeverity::Medium, ErrorSeverity::High, ErrorSeverity::Critical] {
        assert_eq!(ErrorSeverity::from_str(s.as_str()), Some(s));
        assert_eq!(ErrorSeverity::from_str(&s.as_str().to_uppercase()), Some(s));
    }
    assert_eq!(ErrorSeverity::from_str("HiGh"), Some(ErrorSeverity::High));
}
