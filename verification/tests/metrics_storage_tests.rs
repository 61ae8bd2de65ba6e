use web_crawler::common::{BooleanFlag, LimitValue};
use web_crawler::storage::data_refactored::{CompressionType, StorageFormat};
use web_crawler::storage::metrics_refactored::{ErrorStatistics, MetricsConfig, QueueMetrics};

#[test]
fn test_storage_format_extensions() {
    assert_eq!(StorageFormat::Json.file_extension(), "json");
    assert_eq!(StorageFormat::JsonLines.file_extension(), "jsonl");
    assert_eq!(StorageFormat::Csv.file_extension(), "csv");
    assert_eq!(StorageFormat::Txt.file_extension(), "txt");
}

#[test]
fn test_compression_extensions() {
    assert_eq!(CompressionType::NoCompression.file_extension(), None);
    assert_eq!(CompressionType::Gzip.file_extension(), Some("gz"));
    assert_eq!(CompressionType::Zstd.file_extension(), Some("zst"));
}

#[test]
fn test_error_statistics() {
    let mut error_stats = ErrorStatistics::new();
    error_stats.record_error("timeout");
    error_stats.record_error("connection_refused");
    error_stats.record_error("timeout");
    assert_eq!(error_stats.total_errors(), 3);
    let top_errors = error_stats.top_errors(5);
    assert_eq!(top_errors.len(), 2);
    assert_eq!(top_errors[0], ("timeout".to_string(), 2));
}

#[test]
fn test_queue_metrics() {
    let mut queue_metrics = QueueMetrics::new();
    queue_metrics.record_enqueued();
    queue_metrics.record_completed();
    assert_eq!(queue_metrics.tasks_enqueued(), 1);
    assert_eq!(queue_metrics.tasks_completed(), 1);
    let rate = queue_metrics.tasks_completed() as f64 / queue_metrics.tasks_enqueued() as f64 * 100.0;
    assert_eq!(rate, 100.0);
}

#[test]
fn test_metrics_config_builder() {
    let config = MetricsConfig::builder()
        .with_collection_settings(
            BooleanFlag::enabled(),
            BooleanFlag::enabled(),
            BooleanFlag::disabled(),
            BooleanFlag::enabled(),
        )
        .with_retention_settings(LimitValue::new(500), LimitValue::new(100), LimitValue::new(12))
        .build();
    assert!(config.should_collect_domain_stats());
    assert!(config.should_collect_timing_stats());
    assert!(!config.should_collect_error_stats());
    assert!(config.should_collect_queue_stats());
    assert_eq!(config.max_domain_entries(), 500);
}
