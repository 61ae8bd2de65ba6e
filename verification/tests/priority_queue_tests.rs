use web_crawler::common::{TaskErrorKind, UrlString};
use web_crawler::crawl_core::types_refactored::{CrawlTask, TaskConfig, TaskPriority};
use web_crawler::queue::priority_queue::{
    check_capacity, fail_disposition, next_task_index, split_retry_queue, FailureDisposition,
};

fn task(url: &str, priority: TaskPriority) -> CrawlTask {
    CrawlTask::new(UrlString::new(url), TaskConfig::default()).with_priority(priority)
}

#[test]
fn a_full_queue_refuses_tasks() {
    assert!(check_capacity(9, 10).is_ok());
    let e = check_capacity(10, 10).unwrap_err();
    assert_eq!(e.kind(), TaskErrorKind::Configuration);
    assert_eq!(e.message(), "Queue is at capacity");
}

#[test]
fn failed_tasks_retry_until_attempts_run_out() {
    assert_eq!(fail_disposition(0, 3), FailureDisposition::Retry);
    assert_eq!(fail_disposition(2, 3), FailureDisposition::Retry);
    assert_eq!(fail_disposition(3, 3), FailureDisposition::Dead);
}

#[test]
fn the_highest_priority_goes_next() {
    assert_eq!(next_task_index(&vec![]), None);
    let pending = vec![
        task("https://a.example", TaskPriority::Low),
        task("https://b.example", TaskPriority::High),
        task("https://c.example", TaskPriority::Normal),
    ];
    assert_eq!(next_task_index(&pending), Some(1));
}

#[test]
fn only_ready_retries_go_back() {
    let fresh = task("https://a.example", TaskPriority::Normal);
    let mut waiting = task("https://b.example", TaskPriority::Normal);
    waiting.mark_failed_at("boom".to_string(), 1_000);
    let (ready, still) = split_retry_queue(vec![fresh, waiting], 1_000);
    assert_eq!(ready.len(), 1);
    assert_eq!(ready[0].url().as_str(), "https://a.example");
    assert_eq!(still.len(), 1);
    assert_eq!(still[0].url().as_str(), "https://b.example");
}
