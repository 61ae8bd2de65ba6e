use web_crawler::common::{BooleanFlag, LimitValue, SessionId, TaskId, UrlString};
use web_crawler::crawl_core::types_refactored::{
    CrawlTask, LangType, QueueStatistics, Region, TaskConfig, TaskContent, TaskExecutionTiming,
    TaskPriority, TaskResult, TaskStatus,
};

#[test]
fn test_region_conversion() {
    assert_eq!(Region::NorthAmerica.as_str(), "north_america");
    assert_eq!(Region::from_str("europe"), Some(Region::Europe));
    assert_eq!(Region::from_str("invalid"), None);
}

#[test]
fn test_lang_type_http_variants() {
    let variants = LangType::English.to_http_variants();
    assert!(variants.contains(&"en-US"));
    assert!(variants.contains(&"en"));
}

#[test]
fn test_task_priority_ordering() {
    assert!(TaskPriority::High > TaskPriority::Normal);
    assert!(TaskPriority::Critical > TaskPriority::High);
}

#[test]
fn test_task_status_terminal() {
    assert!(TaskStatus::Completed.is_terminal());
    assert!(TaskStatus::Dead.is_terminal());
    assert!(!TaskStatus::Pending.is_terminal());
}

#[test]
fn test_task_content_creation() {
    let content = TaskContent::new("Hello world".to_string(), "text/plain".to_string())
        .with_language_detection(Some(LangType::English));

    assert_eq!(content.text(), "Hello world");
    assert_eq!(content.word_count(), 2);
    assert_eq!(content.detected_language(), Some(LangType::English));
}

#[test]
fn names_round_trip_ignoring_case() {
    assert_eq!(Region::from_str("APAC"), Some(Region::AsiaPacific));
    assert_eq!(LangType::from_str("ZH_TW"), Some(LangType::ChineseTraditional));
    assert_eq!(TaskPriority::from_str("Critical"), Some(TaskPriority::Critical));
    assert_eq!(TaskStatus::from_str("inprogress"), Some(TaskStatus::InProgress));
    assert_eq!(TaskPriority::Medium.priority_value(), 2);
    assert_eq!(Region::NorthAmerica.timezone_offset(), -8);
}

#[test]
fn content_summary_and_threshold() {
    let content = TaskContent::new("  one two\tthree ".to_string(), "text/html".to_string());
    assert_eq!(content.word_count(), 3);
    assert_eq!(content.content_length(), 16);
    assert!(content.meets_quality_threshold(3, 16));
    assert!(!content.meets_quality_threshold(4, 1));
    assert_eq!(content.summary(), "Content: 16 chars, 3 words, type: text/html, language: None");
}

#[test]
fn timing_retry_window() {
    let mut t = TaskExecutionTiming::new_at(1000);
    assert!(t.is_ready_for_retry_at(0));
    t.mark_started_at(2000);
    t.set_retry_delay_at(500, 3000);
    assert!(!t.is_ready_for_retry_at(3499));
    assert!(t.is_ready_for_retry_at(3500));
    t.mark_completed_at(2600);
    assert_eq!(t.total_duration(), 600);
}

#[test]
fn test_task_config_builder() {
    let config = TaskConfig::builder()
        .with_priority_settings(TaskPriority::High, LimitValue::new(5))
        .with_language_settings(vec![LangType::English, LangType::French], BooleanFlag::enabled())
        .build();

    assert_eq!(config.default_priority(), TaskPriority::High);
    assert_eq!(config.max_retries(), 5);
    assert_eq!(config.accepted_languages().len(), 2);
}

#[test]
fn test_crawl_task_creation() {
    let config = TaskConfig::default();
    let url = UrlString::new("https://example.com");
    let task = CrawlTask::new(url.clone(), config)
        .with_priority(TaskPriority::High)
        .with_depth(2);

    assert_eq!(task.url(), &url);
    assert_eq!(task.priority(), TaskPriority::High);
    assert_eq!(task.depth(), 2);
    assert_eq!(task.status(), TaskStatus::Pending);
}

#[test]
fn test_task_retry_logic() {
    let config = TaskConfig::builder()
        .with_priority_settings(TaskPriority::Normal, LimitValue::new(2))
        .build();
    let url = UrlString::new("https://example.com");
    let mut task = CrawlTask::new(url, config);

    assert!(task.can_retry());

    task.mark_failed("Test error 1".to_string());
    assert_eq!(task.status(), TaskStatus::Retrying);
    assert_eq!(task.retry_count(), 1);
    assert!(task.can_retry());

    task.mark_failed("Test error 2".to_string());
    assert_eq!(task.status(), TaskStatus::Dead);
    assert_eq!(task.retry_count(), 2);
    assert!(!task.can_retry());
}

#[test]
fn test_task_result_creation() {
    let task_id = TaskId::new("test_task");
    let url = UrlString::new("https://example.com");
    let session_id = SessionId::new("test_session");
    let timing = TaskExecutionTiming::new();

    let result = TaskResult::success(task_id.clone(), url.clone(), "test content", timing, session_id.clone());

    assert!(result.is_success());
    assert_eq!(result.task_id(), &task_id);
    assert_eq!(result.url(), &url);
    assert_eq!(result.content(), Some(&"test content"));
    assert!(result.error().is_none());
}

#[test]
fn retry_delays_back_off_to_the_maximum() {
    let config = TaskConfig::default();
    assert_eq!(config.calculate_retry_delay(0), 1000);
    assert_eq!(config.calculate_retry_delay(1), 2000);
    assert_eq!(config.calculate_retry_delay(4), 16000);
    assert_eq!(config.calculate_retry_delay(5), 30000);
    assert_eq!(config.calculate_retry_delay(60), 30000);
    let triple = TaskConfig::builder()
        .with_retry_settings(LimitValue::new(100), LimitValue::new(1000), 3)
        .build();
    assert_eq!(triple.calculate_retry_delay(2), 900);
    assert_eq!(triple.calculate_retry_delay(3), 1000);
}

#[test]
fn task_validation_and_summary() {
    let config = TaskConfig::builder()
        .with_depth_limiting(BooleanFlag::enabled(), LimitValue::new(1))
        .build();
    let task = CrawlTask::new(UrlString::new("https://example.com"), config).with_depth(2);
    let err = task.validate().unwrap_err();
    assert_eq!(err.message(), "Depth exceeds maximum limit");
    let bad = CrawlTask::new(UrlString::new("not a url"), TaskConfig::default());
    assert_eq!(bad.validate().unwrap_err().message(), "Invalid URL format");
    let empty = CrawlTask::new(UrlString::new(""), TaskConfig::default());
    assert_eq!(empty.validate().unwrap_err().message(), "Empty URL");
    let mut ok = CrawlTask::new(UrlString::new("https://example.com"), TaskConfig::default());
    assert!(ok.validate().is_ok());
    ok.mark_started();
    let summary = ok.summary();
    assert!(summary.starts_with("Task task_"));
    assert!(summary.ends_with(": https://example.com [in_progress] depth=0 attempts=1 retries=0"));
    ok.mark_failed("boom".to_string());
    assert_eq!(ok.last_error(), Some("boom"));
    assert_eq!(ok.error_history().len(), 1);
    assert!(!ok.is_ready_for_retry_at(0));
}

#[test]
fn names_parse_back_in_any_case() {
    for r in [Region::NorthAmerica, Region::Europe, Region::AsiaPacific, Region::China, Region::Global] {
        assert_eq!(Region::from_str(r.as_str()), Some(r));
        assert_eq!(Region::from_str(&r.as_str().to_uppercase()), Some(r));
    }
    assert_eq!(Region::from_str("US"), Some(Region::NorthAmerica));
    assert_eq!(Region::from_str("cn"), Some(Region::China));
    for l in [
        LangType::English,
        LangType::ChineseSimplified,
        LangType::ChineseTraditional,
        LangType::French,
        LangType::German,
        LangType::Japanese,
        LangType::Korean,
        LangType::Spanish,
        LangType::Portuguese,
        LangType::Russian,
    ] {
        assert_eq!(LangType::from_str(l.as_str()), Some(l));
        assert_eq!(LangType::from_str(&l.as_str().to_uppercase()), Some(l));
        assert_eq!(l.to_http_code(), l.as_str());
    }
}

#[test]
fn priorities_compare_by_level() {
    let all = [
        TaskPriority::Low,
        TaskPriority::Normal,
        TaskPriority::Medium,
        TaskPriority::High,
        TaskPriority::Critical,
    ];
    for p in all {
        for q in all {
            assert_eq!(p < q, p.priority_value() < q.priority_value());
            assert_eq!(p == q, p.priority_value() == q.priority_value());
        }
    }
}

#[test]
fn test_queue_statistics() {
    let session_id = SessionId::new("test_queue");
    let mut stats = QueueStatistics::new(session_id);
    stats.update_counts(10, 2, 5, 1, 1, 1);
    assert_eq!(stats.total_tasks(), 20);
    assert_eq!((stats.completed_tasks() as f64 / stats.total_tasks() as f64) * 100.0, 25.0);
    assert_eq!(stats.session_id().as_str(), "test_queue");
}
