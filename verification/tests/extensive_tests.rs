use web_crawler::crawl_core::error::CrawlError;
use web_crawler::processing::discovery::{ExtractedLink, LinkType};
use web_crawler::processing::extensive::config::{CrawlDepth, DomainScope, ExtensiveConfig};
use web_crawler::crawl_core::types::{CrawlTask, TaskPriority, TaskStatus};
use web_crawler::processing::extensive::link_processor::{LinkCategory, LinkProcessor, ProcessedLink};
use web_crawler::processing::extensive::queue_manager::{Admission, ExtensiveQueueManager};

fn link(url: &str, anchor: &str) -> ExtractedLink {
    ExtractedLink {
        url: url.to_string(),
        anchor_text: anchor.to_string(),
        link_type: LinkType::Internal,
        depth: 1,
    }
}

fn sample_links() -> Vec<ExtractedLink> {
    vec![
        link("https://example.com/img/logo.png", ""),
        link("https://other.com/page?x=1#top", "Other"),
        link("https://example.com/about", "About"),
        link("https://example.com/files/report.PDF", "Report"),
    ]
}

#[test]
fn process_links_scores_and_sorts() {
    let processor = LinkProcessor::new(ExtensiveConfig::same_domain(3)).unwrap();
    let out = processor
        .process_links(sample_links(), "https://example.com/", 0)
        .unwrap();
    assert_eq!(out.len(), 4);

    assert_eq!(out[0].extracted_link.url, "https://example.com/about");
    assert_eq!(out[0].priority, 95);
    assert_eq!(out[0].category, LinkCategory::Internal);
    assert!(out[0].should_crawl);
    assert_eq!(out[0].reason, "Passed all filters");
    assert_eq!(out[0].depth, 1);

    assert_eq!(out[1].extracted_link.url, "https://other.com/page?x=1#top");
    assert_eq!(out[1].priority, 87);
    assert_eq!(out[1].normalized_url, "https://other.com/page?x=1");
    assert!(!out[1].should_crawl);
    assert_eq!(out[1].reason, "Domain not allowed");

    assert_eq!(out[2].category, LinkCategory::Document);
    assert_eq!(out[2].priority, 85);
    assert!(!out[2].should_crawl);
    assert_eq!(out[2].reason, "Extension 'pdf' in exclude list");

    assert_eq!(out[3].category, LinkCategory::Resource);
    assert_eq!(out[3].priority, 30);
    assert!(!out[3].should_crawl);
    assert_eq!(out[3].reason, "Resource/media link excluded");
}

#[test]
fn process_links_equal_priorities_keep_page_order() {
    let processor = LinkProcessor::new(ExtensiveConfig::same_domain(3)).unwrap();
    let links = vec![
        link("https://example.com/b", "B"),
        link("https://example.com/a", "A"),
    ];
    let out = processor.process_links(links, "https://example.com/", 0).unwrap();
    assert_eq!(out.len(), 2);
    assert_eq!(out[0].extracted_link.url, "https://example.com/b");
    assert_eq!(out[1].extracted_link.url, "https://example.com/a");
}

#[test]
fn process_links_depth_limit() {
    let processor = LinkProcessor::new(ExtensiveConfig::same_domain(3)).unwrap();
    let out = processor
        .process_links(vec![link("https://example.com/about", "About")], "https://example.com/", 3)
        .unwrap();
    assert_eq!(out.len(), 1);
    assert_eq!(out[0].depth, 4);
    assert!(!out[0].should_crawl);
    assert_eq!(out[0].reason, "Depth limit exceeded: 4");
}

#[test]
fn process_links_disabled_gives_nothing() {
    let processor = LinkProcessor::new(ExtensiveConfig::default()).unwrap();
    let out = processor.process_links(sample_links(), "https://example.com/", 0).unwrap();
    assert!(out.is_empty());
}

#[test]
fn process_links_bad_base_url() {
    let processor = LinkProcessor::new(ExtensiveConfig::same_domain(3)).unwrap();
    let r = processor.process_links(sample_links(), "not a url", 0);
    assert!(matches!(r, Err(CrawlError::InvalidUrl(_))));
}

#[test]
fn process_links_stops_at_links_per_page() {
    let mut config = ExtensiveConfig::same_domain(3);
    config.max_links_per_page = Some(1);
    let processor = LinkProcessor::new(config).unwrap();
    let links = vec![
        link("https://example.com/img/logo.png", ""),
        link("https://example.com/one", "One"),
        link("https://example.com/two", "Two"),
    ];
    let out = processor.process_links(links, "https://example.com/", 0).unwrap();
    // The image is processed but not followed; the first page fills the limit.
    assert_eq!(out.len(), 2);
    assert_eq!(out[0].extracted_link.url, "https://example.com/one");
    assert_eq!(out[1].extracted_link.url, "https://example.com/img/logo.png");
}

#[test]
fn process_links_include_pattern_and_too_short() {
    let mut config = ExtensiveConfig::unrestricted(5);
    config.link_filter.include_patterns = Some(vec!["/docs/".to_string()]);
    config.link_filter.min_url_length = Some(25);
    let processor = LinkProcessor::new(config).unwrap();
    let links = vec![
        link("https://a.io/x", "x"),
        link("https://example.com/blog/post", "post"),
        link("https://example.com/docs/intro", "intro"),
    ];
    let out = processor.process_links(links, "https://example.com/", 0).unwrap();
    let reasons: Vec<&str> = out.iter().map(|l| l.reason.as_str()).collect();
    assert!(reasons.contains(&"URL too short: 14 < 25"));
    assert!(reasons.contains(&"URL doesn't match include patterns"));
    assert!(reasons.contains(&"Passed all filters"));
}

#[test]
fn priority_pattern_boost() {
    let mut config = ExtensiveConfig::same_domain(3);
    config.priority_patterns = Some(vec!["important".to_string()]);
    let processor = LinkProcessor::new(config).unwrap();
    let out = processor
        .process_links(
            vec![link("https://example.com/a/b/c/d/important", "")],
            "https://example.com/",
            0,
        )
        .unwrap();
    // 50 + 20 (internal), five segments (no change), + 30 (pattern).
    assert_eq!(out[0].priority, 100);
}

#[test]
fn new_rejects_pattern_that_does_not_compile() {
    let mut config = ExtensiveConfig::default();
    config.priority_patterns = Some(vec!["(".to_string()]);
    match LinkProcessor::new(config) {
        Err(CrawlError::ExtensiveConfigError(m)) => {
            assert!(m.starts_with("Failed to compile priority pattern: "));
        }
        _ => panic!("expected a configuration error"),
    }
    let mut enabled = ExtensiveConfig::new(CrawlDepth::Limited(2), DomainScope::SameDomain);
    enabled.link_filter.include_patterns = Some(vec!["[".to_string()]);
    match LinkProcessor::new(enabled) {
        Err(CrawlError::ExtensiveConfigError(m)) => {
            assert!(m.starts_with("Invalid include pattern '['"));
        }
        _ => panic!("expected a configuration error"),
    }
}

fn processed(url: &str, normalized: &str, should_crawl: bool) -> ProcessedLink {
    ProcessedLink {
        extracted_link: link(url, ""),
        normalized_url: normalized.to_string(),
        category: LinkCategory::Internal,
        depth: 1,
        priority: 50,
        should_crawl,
        reason: String::new(),
    }
}

#[test]
fn filter_drops_skipped_and_duplicates() {
    let processor = LinkProcessor::new(ExtensiveConfig::same_domain(3)).unwrap();
    let links = vec![
        processed("https://e.com/a#1", "https://e.com/a", true),
        processed("https://e.com/b", "https://e.com/b", false),
        processed("https://e.com/a#2", "https://e.com/a", true),
        processed("https://e.com/c", "https://e.com/c", true),
    ];
    let out = processor.filter_processed_links(links);
    assert_eq!(out.len(), 2);
    assert_eq!(out[0].normalized_url, "https://e.com/a");
    assert_eq!(out[1].normalized_url, "https://e.com/c");
}

#[test]
fn filter_stops_at_queue_size() {
    let mut config = ExtensiveConfig::same_domain(3);
    config.max_queue_size = Some(2);
    let processor = LinkProcessor::new(config).unwrap();
    let links = vec![
        processed("https://e.com/a", "https://e.com/a", true),
        processed("https://e.com/b", "https://e.com/b", true),
        processed("https://e.com/c", "https://e.com/c", true),
    ];
    let out = processor.filter_processed_links(links);
    assert_eq!(out.len(), 2);
}

fn scored(url: &str, priority: u8, should_crawl: bool) -> ProcessedLink {
    let mut l = processed(url, url, should_crawl);
    l.priority = priority;
    l
}

#[test]
fn queue_manager_queues_and_counts() {
    let mut qm = ExtensiveQueueManager::new(ExtensiveConfig::same_domain(3)).unwrap();
    let links = vec![
        scored("https://e.com/a", 200, true),
        scored("https://e.com/b", 120, false),
        scored("https://e.com/a", 120, true),
        scored("https://e.com/c", 50, true),
    ];
    assert_eq!(qm.add_discovered_links_at(links, 1_000).unwrap(), 2);
    let stats = qm.get_discovery_stats();
    assert_eq!(stats.total_discovered, 4);
    assert_eq!(stats.queued, 2);
    assert_eq!(stats.filtered, 2);
    assert_eq!(stats.categories.internal, 4);
    assert_eq!(stats.rate_links, 4);
    assert_eq!(stats.rate_pages, 1);
    let status = qm.get_queue_status();
    assert_eq!(status.total_queued, 2);
    assert_eq!(status.processed, 2);
    assert_eq!(status.failed, 2);
    assert_eq!(qm.remaining_capacity(), Some(9998));
    let first = qm.get_next_url().unwrap();
    assert_eq!(first.url, "https://e.com/a");
    assert_eq!(first.priority, TaskPriority::Critical);
    assert_eq!(first.status, TaskStatus::Pending);
    let second = qm.get_next_url().unwrap();
    assert_eq!(second.url, "https://e.com/c");
    assert_eq!(second.priority, TaskPriority::Low);
    assert!(qm.get_next_url().is_none());
}

#[test]
fn queue_manager_average_priority_numerator() {
    let mut qm = ExtensiveQueueManager::new(ExtensiveConfig::same_domain(3)).unwrap();
    let links = vec![scored("https://e.com/a", 200, true), scored("https://e.com/b", 50, true)];
    qm.add_discovered_links_at(links, 0).unwrap();
    let stats = qm.get_discovery_stats();
    assert_eq!(stats.priority_numerator, 250);
    assert_eq!(stats.total_discovered, 2);
}

#[test]
fn queue_manager_requeues_after_an_hour() {
    let mut qm = ExtensiveQueueManager::new(ExtensiveConfig::same_domain(3)).unwrap();
    assert_eq!(qm.add_link(scored("https://e.com/a", 60, true), 0).unwrap(), Admission::Queued);
    assert_eq!(qm.add_link(scored("https://e.com/a", 60, true), 3_599_999).unwrap(), Admission::Skipped);
    assert_eq!(qm.add_link(scored("https://e.com/a", 60, true), 3_600_000).unwrap(), Admission::Queued);
    qm.cleanup_processed_urls_at(10, 3_600_005);
    assert_eq!(qm.add_link(scored("https://e.com/a", 60, true), 3_600_006).unwrap(), Admission::Skipped);
    qm.cleanup_processed_urls_at(10, 3_600_010);
    assert_eq!(qm.add_link(scored("https://e.com/a", 60, true), 3_600_011).unwrap(), Admission::Queued);
}

#[test]
fn queue_manager_full_and_invalid() {
    let mut config = ExtensiveConfig::same_domain(3);
    config.max_queue_size = Some(1);
    let mut qm = ExtensiveQueueManager::new(config).unwrap();
    let links = vec![
        scored("https://e.com/a", 60, true),
        scored("https://e.com/b", 60, true),
        scored("https://e.com/c", 60, true),
    ];
    assert_eq!(qm.add_discovered_links_at(links, 0).unwrap(), 1);
    assert!(!qm.has_capacity());
    assert_eq!(qm.get_discovery_stats().total_discovered, 2);

    let mut qm = ExtensiveQueueManager::new(ExtensiveConfig::same_domain(3)).unwrap();
    let r = qm.add_discovered_links_at(vec![scored("not a url", 60, true)], 0);
    assert!(matches!(r, Err(CrawlError::InvalidUrl(u)) if u == "not a url"));
    assert_eq!(qm.get_discovery_stats().rate_pages, 0);
}

#[test]
fn queue_manager_disabled_adds_nothing() {
    let mut qm = ExtensiveQueueManager::new(ExtensiveConfig::default()).unwrap();
    assert_eq!(qm.add_discovered_links_at(vec![scored("https://e.com/a", 60, true)], 0).unwrap(), 0);
    assert_eq!(qm.get_queue_status().total_queued, 0);
}

#[test]
fn queue_manager_prioritize_import_export() {
    let mut qm = ExtensiveQueueManager::new(ExtensiveConfig::same_domain(3)).unwrap();
    let tasks = vec![
        CrawlTask::new("https://e.com/1".to_string(), TaskPriority::Low, 3),
        CrawlTask::new("https://e.com/2".to_string(), TaskPriority::Critical, 3),
        CrawlTask::new("https://e.com/3".to_string(), TaskPriority::High, 3),
        CrawlTask::new("https://e.com/4".to_string(), TaskPriority::Low, 3),
    ];
    qm.import_queue(tasks).unwrap();
    qm.prioritize_queue();
    let urls: Vec<String> = qm.export_queue().into_iter().map(|t| t.url).collect();
    assert_eq!(urls, vec!["https://e.com/2", "https://e.com/3", "https://e.com/1", "https://e.com/4"]);
    qm.reset_stats();
    assert_eq!(qm.get_discovery_stats().total_discovered, 0);

    let mut config = ExtensiveConfig::same_domain(3);
    config.max_queue_size = Some(1);
    let mut small = ExtensiveQueueManager::new(config).unwrap();
    small
        .import_queue(vec![
            CrawlTask::new("https://e.com/x".to_string(), TaskPriority::Low, 3),
            CrawlTask::new("https://e.com/y".to_string(), TaskPriority::Low, 3),
        ])
        .unwrap();
    assert_eq!(small.export_queue().len(), 1);
    assert_eq!(small.remaining_capacity(), Some(0));
}
