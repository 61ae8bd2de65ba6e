use bloom::BloomFilter;
use web_crawler::crawler::engine::WebCrawler;
use web_crawler::crawler::engine_refactored::{CrawlerEngineConfig, CrawlerEngineState};
use web_crawler::logging::events::CrawlEventType;

fn filter() -> BloomFilter {
    BloomFilter::with_rate(0.01, 1000)
}

#[test]
fn test_crawler_reset() {
    let config = CrawlerEngineConfig::builder().build();
    let mut engine = CrawlerEngineState::try_new(config, filter(), 0).unwrap();
    let url = "https://example.com";
    assert!(!engine.is_url_processed(url));
    engine.mark_url_processed(url);
    assert!(engine.is_url_processed(url));
    engine.reset(1_000);
    assert!(!engine.is_url_processed(url));
    assert_eq!(engine.statistics().total_requests(), 0);
}

#[test]
fn a_filter_without_bits_makes_no_engine() {
    let config = CrawlerEngineConfig::builder().build();
    assert!(CrawlerEngineState::try_new(config, BloomFilter::with_size(0, 2), 0).is_none());
    let config = CrawlerEngineConfig::builder().build();
    assert!(CrawlerEngineState::try_new(config, BloomFilter::with_size(64, 0), 0).is_none());
}

#[test]
fn a_processed_url_is_refused_as_a_task() {
    let config = CrawlerEngineConfig::builder().build();
    let mut engine = CrawlerEngineState::try_new(config, filter(), 0).unwrap();
    assert!(engine.admit_task_url("https://example.com/a").is_ok());
    engine.mark_url_processed("https://example.com/a");
    assert!(engine.admit_task_url("https://example.com/a").is_err());
    assert!(engine.after_processed_lookup("https://example.com/b", false).is_ok());
    assert!(engine.after_processed_lookup("https://example.com/b", true).is_err());
}

#[test]
fn a_visited_url_is_not_crawled_twice() {
    let mut crawler =
        WebCrawler::try_new_with_session(filter(), 50, vec![], 1_000, Some("s1".to_string()))
            .unwrap();
    assert!(crawler.check_visited("https://example.com/", 5).is_none());
    let event = crawler.check_visited("https://example.com/", 7).unwrap();
    assert_eq!(event.event_type, CrawlEventType::Failed);
    assert_eq!(event.url, "https://example.com/");
    assert_eq!(
        event.error_message,
        Some("URL already visited (Bloom filter)".to_string())
    );
    assert_eq!(event.session_id, Some("s1".to_string()));
}

#[test]
fn the_visited_step_follows_the_filter_answer() {
    let mut crawler =
        WebCrawler::try_new_with_session(filter(), 50, vec![], 1_000, None).unwrap();
    assert!(crawler.after_visited_lookup("https://a.example/", 1, false).is_none());
    assert!(crawler.after_visited_lookup("https://b.example/", 1, true).is_some());
    assert!(crawler.check_visited("https://a.example/", 1).is_some());
}

use web_crawler::crawler::engine::{CrawlInput, CrawlStage};

#[test]
fn a_crawl_goes_through_its_stages_in_order() {
    let mut c = WebCrawler::try_new_with_session(filter(), 3, vec![], 1_000, Some("s".to_string()))
        .unwrap();
    let url = "https://example.com/page";
    let host = Some("example.com");
    let t = c.advance(CrawlStage::Visited, CrawlInput::VisitedAnswer(false), url, "https", host, 1);
    assert_eq!(t.next, CrawlStage::Robots);
    assert!(t.event.is_none() && t.result.is_none());
    let t = c.advance(CrawlStage::Robots, CrawlInput::RobotsAnswer(true), url, "https", host, 1);
    assert_eq!(t.next, CrawlStage::RateLimit);
    let t = c.advance(CrawlStage::RateLimit, CrawlInput::Waited(1_500), url, "https", host, 1);
    assert_eq!(t.next, CrawlStage::Fetch);
    let e = t.event.unwrap();
    assert_eq!(e.event_type, CrawlEventType::RateLimited);
    assert_eq!(e.error_message, Some("Rate limited for domain: example.com".to_string()));
    let t = c.advance(
        CrawlStage::Fetch,
        CrawlInput::Responded(200, Some("OK".to_string()), 42),
        url,
        "https",
        host,
        1,
    );
    assert_eq!(t.next, CrawlStage::ReadBody(200, 42));
    let t = c.advance(t.next, CrawlInput::BodyRead("<p>a b c</p>".to_string()), url, "https", host, 1);
    assert_eq!(t.next, CrawlStage::Extract(200, 42));
    let t = c.advance(t.next, CrawlInput::Extracted("a b c".to_string(), 3), url, "https", host, 1);
    assert_eq!(t.next, CrawlStage::Done);
    assert_eq!(t.result, Some(Ok(Some("a b c".to_string()))));
    assert_eq!(t.event.unwrap().event_type, CrawlEventType::Completed);
    // the URL is now visited
    assert!(c.may_have_visited(url));
}

#[test]
fn a_crawl_ends_early_on_refusals_and_errors() {
    let mut c = WebCrawler::try_new_with_session(filter(), 3, vec![], 1_000, None).unwrap();
    let url = "https://example.com/x";
    let t = c.advance(CrawlStage::Robots, CrawlInput::RobotsAnswer(false), url, "https", Some("example.com"), 1);
    assert_eq!(t.next, CrawlStage::Done);
    assert_eq!(t.result, Some(Ok(None)));
    assert_eq!(
        t.event.unwrap().error_message,
        Some("Blocked by robots.txt: https://example.com/robots.txt".to_string())
    );
    let t = c.advance(
        CrawlStage::Fetch,
        CrawlInput::Responded(404, Some("Not Found".to_string()), 0),
        url,
        "https",
        None,
        1,
    );
    assert_eq!(t.result, Some(Err("HTTP error: 404 Not Found".to_string())));
    let t = c.advance(CrawlStage::Fetch, CrawlInput::SendFailed("refused".to_string()), url, "https", None, 1);
    assert_eq!(t.result, Some(Err("refused".to_string())));
    assert_eq!(t.event.unwrap().error_message, Some("Network error: refused".to_string()));
    let t = c.advance(CrawlStage::ReadBody(200, 0), CrawlInput::BodyRead(String::new()), url, "https", None, 1);
    assert_eq!(t.result, Some(Ok(None)));
    let t = c.advance(CrawlStage::Extract(200, 0), CrawlInput::Extracted("a".to_string(), 1), url, "https", None, 1);
    assert_eq!(t.result, Some(Ok(None)));
    assert_eq!(
        t.event.unwrap().error_message,
        Some("Content too short: 1 words < 3 minimum".to_string())
    );
    // an observation that does not belong to the stage changes nothing
    let t = c.advance(CrawlStage::Robots, CrawlInput::Waited(5), url, "https", None, 1);
    assert_eq!(t.next, CrawlStage::Robots);
    assert!(t.event.is_none() && t.result.is_none());
}

#[test]
fn test_url_deduplication() {
    let config = CrawlerEngineConfig::builder().build();
    let mut engine = CrawlerEngineState::try_new(config, filter(), 0).unwrap();
    let url = "https://example.com";
    assert!(!engine.is_url_processed(url));
    engine.mark_url_processed(url);
    assert!(engine.is_url_processed(url));
}
