use web_crawler::storage::data_refactored::join_path;
use web_crawler::crawl_core::types_refactored::TaskContent;
use web_crawler::session::manager::{CrawlResultData, CrawlSessionConfig, SessionResult};
use web_crawler::session::result_collector::{ResultCollector, ResultStatus};
use web_crawler::session::statistics::SessionStatistics;
use web_crawler::storage::data::{
    csv_line, generate_analytics, CrawlMetadata, DataStorage, OutputFormat, StoredCrawlResult,
};

fn result(url: &str, ok: bool) -> CrawlResultData {
    CrawlResultData {
        url: url.to_string(),
        content: if ok { Some(TaskContent::new("two words".to_string(), "text/html".to_string())) } else { None },
        error: if ok { None } else { Some("boom".to_string()) },
        duration_ms: 10,
        status_code: Some(if ok { 200 } else { 500 }),
    }
}

#[test]
fn collector_tracks_latest_status_per_url() {
    let mut c = ResultCollector::new();
    c.mark_in_progress("https://a.example");
    c.mark_in_progress("https://b.example");
    let counts = c.get_status_counts();
    assert_eq!(counts.in_progress, 2);
    c.add_result(result("https://a.example", true));
    c.add_result(result("https://b.example", false));
    let counts = c.get_status_counts();
    assert_eq!((counts.pending, counts.in_progress, counts.completed, counts.failed), (0, 0, 1, 1));
    assert_eq!(counts.total(), 2);
    match c.get_url_status("https://b.example") {
        Some(ResultStatus::Failed(m)) => assert_eq!(m, "boom"),
        _ => panic!("expected a failure"),
    }
    assert!(c.get_url_status("https://c.example").is_none());
    assert_eq!(c.get_results().len(), 2);
}

#[test]
fn session_result_counts_outcomes() {
    let r = SessionResult::from_results(
        "s1".to_string(),
        vec![result("https://a.example", true), result("https://b.example", false), result("https://c.example", true)],
        100,
        SessionStatistics::new(),
    );
    assert_eq!(r.total_urls_processed, 3);
    assert_eq!(r.successful_crawls, 2);
    assert_eq!(r.failed_crawls, 1);
}

#[test]
fn session_defaults() {
    let c = CrawlSessionConfig::default();
    assert_eq!(c.max_concurrent_requests, 5);
    assert_eq!(c.max_depth, 3);
    assert_eq!(c.max_retries, 3);
    assert_eq!(c.session_timeout_ms, Some(300_000));
    assert_eq!(c.storage_path.as_deref(), Some("./crawl_data"));
}

#[test]
fn statistics_average_and_duration() {
    let mut s = SessionStatistics::new();
    s.session_started(4, 1_000);
    s.url_completed(true, 100);
    s.url_completed(false, 51);
    assert_eq!(s.processed_urls, 2);
    assert_eq!(s.successful_urls, 1);
    assert_eq!(s.failed_urls, 1);
    assert_eq!(s.average_processing_time_ms, 75);
    assert_eq!(s.urls_remaining(), 2);
    assert_eq!(s.session_duration_at(1_500), Some(500));
    s.session_completed(2_000);
    assert_eq!(s.session_duration_at(9_999), Some(1_000));
    assert_eq!(SessionStatistics::new().session_duration_at(5), None);
}

fn stored(url: &str, status: Option<u16>, words: usize, lang: Option<&str>, ms: u64) -> StoredCrawlResult {
    StoredCrawlResult {
        url: url.to_string(),
        title: Some("Title".to_string()),
        content: None,
        word_count: words,
        language: lang.map(|l| l.to_string()),
        links_found: vec![],
        metadata: CrawlMetadata {
            status_code: status,
            content_type: None,
            content_length: None,
            response_time_ms: ms,
            depth: 0,
            parent_url: None,
            crawl_session_id: "s".to_string(),
        },
        timestamp: 0,
    }
}

#[test]
fn analytics_of_results() {
    let rs = vec![
        stored("https://a.example/1", Some(200), 10, Some("en"), 100),
        stored("https://a.example/2", Some(404), 20, Some("en"), 200),
        stored("https://b.example/", Some(201), 30, Some("fr"), 300),
        stored("not a url", None, 40, None, 400),
    ];
    let a = generate_analytics(&rs);
    assert_eq!(a.total_pages, 4);
    assert_eq!(a.successful_crawls, 2);
    assert_eq!(a.failed_crawls, 1);
    assert_eq!(a.domains_crawled, 2);
    assert_eq!(a.avg_words_per_page, 25);
    assert_eq!(a.avg_response_time_ms, 250);
    assert_eq!(a.top_domains[0], ("a.example".to_string(), 2));
    assert_eq!(a.top_domains[1], ("b.example".to_string(), 1));
    let mut langs = a.language_distribution.clone();
    langs.sort();
    assert_eq!(langs, vec![("en".to_string(), 2), ("fr".to_string(), 1)]);
    let empty = generate_analytics(&vec![]);
    assert_eq!(empty.avg_words_per_page, 0);
    assert!(empty.top_domains.is_empty());
}

#[test]
fn csv_rows_and_file_names() {
    let r = stored("https://a.example/1", None, 12, None, 34);
    assert_eq!(csv_line(&r), "https://a.example/1,Title,12,,34,0\n");
    let s = DataStorage::new("out".to_string(), OutputFormat::Csv);
    assert_eq!(s.generate_filename("0123456789abcdef", 1700), "crawl_1700_01234567.csv");
    assert_eq!(OutputFormat::Jsonl.extension(), "jsonl");
    assert!(DataStorage::new_default().with_compression(true).compression);
}

#[test]
fn path_components_join_with_one_slash() {
    assert_eq!(join_path("./crawl_data", "session_1"), "./crawl_data/session_1");
    assert_eq!(join_path("./crawl_data/", "session_1"), "./crawl_data/session_1");
    assert_eq!(join_path("", "session_1"), "session_1");
    assert_eq!(join_path("./crawl_data", "/tmp/x"), "/tmp/x");
}
