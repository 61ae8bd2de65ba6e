use web_crawler::common::{SessionId, TaskError, TaskId, UrlString};
use web_crawler::crawl_core::types_refactored::{TaskExecutionTiming, TaskResult};
use web_crawler::session::manager_refactored::{CrawlSession as RefactoredSession, SessionConfig};
use web_crawler::queue::cache::entry_is_fresh;
use web_crawler::session::manager::{
    effective_timeout_ms, on_crawl_outcome, timed_out, CrawlSession, CrawlSessionConfig, QueueAction,
};
use web_crawler::session::statistics::SessionStatistics;

#[test]
fn outcomes_become_results_and_queue_actions() {
    let mut stats = SessionStatistics::new();
    let (r, a) = on_crawl_outcome(&mut stats, "https://a.example", Ok(Some("one two three".to_string())), 40);
    assert_eq!(r.url, "https://a.example");
    assert_eq!(r.status_code, Some(200));
    assert!(r.error.is_none());
    assert_eq!(r.content.unwrap().word_count(), 3);
    assert!(matches!(a, QueueAction::Complete(c) if c == "one two three"));
    let (r, a) = on_crawl_outcome(&mut stats, "https://b.example", Ok(None), 10);
    assert_eq!(r.error, Some("No content extracted".to_string()));
    assert!(matches!(a, QueueAction::Fail(m) if m == "No content extracted"));
    let (r, a) = on_crawl_outcome(&mut stats, "https://c.example", Err("timed out".to_string()), 10);
    assert_eq!(r.error, Some("timed out".to_string()));
    assert!(matches!(a, QueueAction::Fail(m) if m == "Network error: timed out"));
    assert_eq!(stats.processed_urls, 3);
    assert_eq!(stats.successful_urls, 1);
    assert_eq!(stats.failed_urls, 2);
    assert_eq!(stats.total_processing_time_ms, 60);
}

#[test]
fn the_session_stops_after_its_timeout() {
    let config = CrawlSessionConfig::default();
    assert_eq!(effective_timeout_ms(&config), 300_000);
    let none = CrawlSessionConfig { session_timeout_ms: None, ..CrawlSessionConfig::default() };
    assert_eq!(effective_timeout_ms(&none), 300_000);
    assert!(!timed_out(300_000, 300_000));
    assert!(timed_out(300_001, 300_000));
}

#[test]
fn cache_entries_expire_after_whole_seconds() {
    assert!(entry_is_fresh(0, 1));
    assert!(entry_is_fresh(999, 1));
    assert!(!entry_is_fresh(1_000, 1));
    assert!(!entry_is_fresh(5, 0));
}

#[test]
fn task_counts_update_in_place() {
    use_metrics();
}

fn use_metrics() {
    let mut m = web_crawler::session::manager_refactored::SessionMetrics::new_at(5);
    m.task_counts_mut().increment_completed();
    m.task_counts_mut().increment_completed();
    assert_eq!(m.task_counts().completed(), 2);
    assert_eq!(m.start_time(), 5);
}

#[test]
fn a_session_crawls_its_urls_and_summarizes() {
    let mut session = CrawlSession::with_id(CrawlSessionConfig::default(), "sess".to_string());
    assert_eq!(session.session_id(), "sess");
    assert_eq!(session.timeout_ms(), 300_000);
    let urls = vec!["https://a.example".to_string(), "https://b.example".to_string()];
    assert!(session.start(&urls, 1_000));
    assert_eq!(session.statistics().total_urls, 2);
    let mut results = Vec::new();
    let t = session.next_task(2_000).unwrap();
    assert_eq!(t.url, "https://a.example");
    let event = session.crawl_start_event(&t.url);
    assert_eq!(event.user_agent, Some("CrawlSession/1.0".to_string()));
    results.push(session.record_outcome(&t.id, &t.url, Ok(Some("x y".to_string())), 5, 2_100).unwrap());
    assert!(session.has_work(2_200));
    let t = session.next_task(2_200).unwrap();
    results.push(session.record_outcome(&t.id, &t.url, Err("boom".to_string()), 7, 2_300).unwrap());
    assert!(!session.has_work(2_400));
    let summary = session.finish(results, 1_500, 2_500);
    assert_eq!(summary.session_id, "sess");
    assert_eq!(summary.total_urls_processed, 2);
    assert_eq!(summary.successful_crawls, 1);
    assert_eq!(summary.failed_crawls, 1);
    assert_eq!(summary.statistics.processed_urls, 2);
    assert_eq!(summary.statistics.end_time, Some(2_500));
    assert_eq!(session.task_queue().get_stats().completed_tasks, 1);
}

#[test]
fn task_results_carry_their_own_outcome() {
    use_task_results();
}

fn use_task_results() {
    let mut s: RefactoredSession<TaskResult<&str>> = RefactoredSession::new(SessionConfig::builder().build());
    let ok = TaskResult::success(
        TaskId::new("t1"),
        UrlString::new("https://a.example"),
        "text",
        TaskExecutionTiming::new(),
        SessionId::new("s"),
    );
    let bad = TaskResult::failure(
        TaskId::new("t2"),
        UrlString::new("https://b.example"),
        TaskError::crawler("boom"),
        TaskExecutionTiming::new(),
        SessionId::new("s"),
    );
    assert!(s.add_task_result(ok).is_ok());
    assert!(s.add_task_result(bad).is_ok());
    assert_eq!(s.results().len(), 2);
    assert_eq!(s.errors().len(), 1);
    assert_eq!(s.metrics().task_counts().completed(), 1);
    assert_eq!(s.metrics().task_counts().failed(), 1);
}

#[test]
fn prefixed_identifiers_carry_a_uuid() {
    let id = web_crawler::common::prefixed_uuid("crawler_");
    assert_eq!(id.len(), 8 + 36);
    assert!(id.starts_with("crawler_"));
    let u: Vec<char> = id["crawler_".len()..].chars().collect();
    for (i, c) in u.iter().enumerate() {
        if i == 8 || i == 13 || i == 18 || i == 23 {
            assert_eq!(*c, '-');
        } else {
            assert!(c.is_ascii_digit() || ('a'..='f').contains(c));
        }
    }
}
