use web_crawler::common::{BooleanFlag, LimitValue};
use web_crawler::processing::content_refactored::{ContentProcessingConfig, ContentProcessor};
use web_crawler::crawl_core::error::CrawlError;
use web_crawler::crawl_core::types::LangType;
use web_crawler::crawl_core::utils::ErrorUtils;
use web_crawler::network::robots::{parse_robots_txt, DelayDirective};
use web_crawler::processing::discovery::{LinkExtractor, LinkType};
use web_crawler::processing::keyword::config::{KeywordConfig, KeywordMode, KeywordOptions};
use web_crawler::processing::language::{
    detect_language, detect_language_type, estimate_content_difficulty, estimate_reading_time,
    is_supported_language, language_code_to_name, ContentDifficulty,
};

#[test]
fn robots_disallow_then_allow() {
    let txt = "User-agent: *\nDisallow: /private\nAllow: /private/open\n";
    assert!(!parse_robots_txt(txt, "/private/secret").allowed);
    assert!(parse_robots_txt(txt, "/private/open/page").allowed);
    assert!(parse_robots_txt(txt, "/public").allowed);
}

#[test]
fn robots_other_agents_are_ignored() {
    let txt = "# comment\nUser-agent: googlebot\nDisallow: /\n\nUser-agent: *\nDisallow:\n";
    assert!(parse_robots_txt(txt, "/anything").allowed);
}

#[test]
fn robots_case_and_delays() {
    let txt = "USER-AGENT: *\r\nDISALLOW: /a\r\nCrawl-delay: 2.5\r\nRequest-rate: 1/5\r\nRequest-rate: bad\n";
    let v = parse_robots_txt(txt, "/a/b");
    assert!(!v.allowed);
    assert_eq!(v.delays.len(), 2);
    match &v.delays[0] {
        DelayDirective::CrawlDelay(s) => assert_eq!(s, "2.5"),
        _ => panic!("expected a crawl delay"),
    }
    match &v.delays[1] {
        DelayDirective::RequestRate(a, b) => {
            assert_eq!(a, "1");
            assert_eq!(b, "5");
        }
        _ => panic!("expected a request rate"),
    }
}

#[test]
fn keyword_config_validation_messages() {
    let empty = KeywordConfig::new(vec![], KeywordMode::Any);
    match empty.validate() {
        Err(CrawlError::KeywordConfigError(m)) => {
            assert_eq!(m, "Keywords cannot be empty when keyword filtering is enabled")
        }
        _ => panic!("expected an error"),
    }
    let blank = KeywordConfig::new(vec!["rust".to_string(), "  ".to_string()], KeywordMode::Any);
    match blank.validate() {
        Err(CrawlError::KeywordConfigError(m)) => assert_eq!(m, "Keywords cannot contain empty strings"),
        _ => panic!("expected an error"),
    }
    let bad_regex = KeywordConfig::new(vec!["(".to_string()], KeywordMode::Regex);
    match bad_regex.validate() {
        Err(CrawlError::KeywordConfigError(m)) => assert!(m.starts_with("Invalid regex pattern '(': ")),
        _ => panic!("expected an error"),
    }
    let mut opts = KeywordOptions::default();
    opts.proximity_distance = Some(0);
    let prox = KeywordConfig::with_options(vec!["a".to_string()], KeywordMode::Any, opts);
    match prox.validate() {
        Err(CrawlError::KeywordConfigError(m)) => assert_eq!(m, "Proximity distance must be greater than 0"),
        _ => panic!("expected an error"),
    }
    let mut opts = KeywordOptions::default();
    opts.include_context = true;
    opts.context_window = 0;
    let ctx = KeywordConfig::with_options(vec!["a".to_string()], KeywordMode::Any, opts);
    match ctx.validate() {
        Err(CrawlError::KeywordConfigError(m)) => {
            assert_eq!(m, "Context window must be greater than 0 when including context")
        }
        _ => panic!("expected an error"),
    }
    assert!(KeywordConfig::new(vec!["rust".to_string()], KeywordMode::Regex).validate().is_ok());
    assert!(KeywordConfig::default().validate().is_ok());
}

#[test]
fn keyword_config_filtering_and_normalization() {
    let c = KeywordConfig::new(vec!["Rust".to_string(), "WEB".to_string()], KeywordMode::CaseInsensitive);
    assert!(c.should_filter());
    assert_eq!(c.normalized_keywords(), vec!["rust".to_string(), "web".to_string()]);
    let exact = KeywordConfig::new(vec!["Rust".to_string()], KeywordMode::Exact);
    assert_eq!(exact.normalized_keywords(), vec!["Rust".to_string()]);
    assert!(!KeywordConfig::default().should_filter());
}

#[test]
fn language_names_and_estimates() {
    assert_eq!(language_code_to_name("en"), "English");
    assert_eq!(language_code_to_name("hi"), "Hindi");
    assert_eq!(language_code_to_name("xx"), "Unknown");
    assert_eq!(estimate_reading_time(225), 60_000);
    assert_eq!(estimate_reading_time(0), 0);
    assert_eq!(estimate_content_difficulty(""), ContentDifficulty::Unknown);
    assert_eq!(estimate_content_difficulty("a bb ccc"), ContentDifficulty::Easy);
    assert_eq!(estimate_content_difficulty("hello world"), ContentDifficulty::Medium);
    assert_eq!(estimate_content_difficulty("sixsix seven77"), ContentDifficulty::Hard);
    assert_eq!(estimate_content_difficulty("extraordinary"), ContentDifficulty::VeryHard);
}

#[test]
fn language_detection_maps_codes() {
    let text = "The quick brown fox jumps over the lazy dog and keeps running through the forest";
    assert_eq!(detect_language(text), Some("en".to_string()));
    assert_eq!(detect_language_type(text), Some(LangType::Eng));
    assert!(is_supported_language(text, &[LangType::Eng]));
    assert!(!is_supported_language(text, &[LangType::Fra]));
    assert_eq!(ErrorUtils::detect_language_simple(text), Some("en".to_string()));
    assert_eq!(ErrorUtils::detect_language_typed(text), Some(LangType::Eng));
}

#[test]
fn crawl_url_screening() {
    assert!(ErrorUtils::is_valid_crawl_url("https://example.com/page"));
    assert!(!ErrorUtils::is_valid_crawl_url("ftp://example.com/page"));
    assert!(!ErrorUtils::is_valid_crawl_url("https://example.com/file.PDF"));
    assert!(!ErrorUtils::is_valid_crawl_url("not a url"));
    let long = format!("https://example.com/redirect/{}", "a".repeat(200));
    assert!(!ErrorUtils::is_valid_crawl_url(&long));
    assert_eq!(ErrorUtils::extract_domain("https://sub.example.com/x"), Some("sub.example.com".to_string()));
    assert_eq!(ErrorUtils::extract_domain("nope"), None);
}

#[test]
fn status_texts() {
    assert_eq!(ErrorUtils::http_status_to_error(404), "Not Found");
    assert_eq!(ErrorUtils::http_status_to_error(429), "Too Many Requests");
    assert_eq!(ErrorUtils::http_status_to_error(418), "HTTP 418");
}

#[test]
fn anyhow_errors_are_categorized() {
    let e = anyhow::Error::msg("Connection timeout while fetching");
    let (err, retry) = ErrorUtils::categorize_and_check_retry(&e);
    assert!(matches!(err, CrawlError::NetworkTimeout));
    assert!(retry);
    let e = anyhow::Error::msg("something odd");
    let (err, retry) = ErrorUtils::categorize_and_check_retry(&e);
    assert!(matches!(err, CrawlError::UnknownError(_)));
    assert!(!retry);
}

#[test]
fn links_are_found_and_classified() {
    let ex = LinkExtractor::new("https://example.com/", vec!["partner.org".to_string()], 3);
    let html = r#"<p><a href="/about">About us</a> <a href="https://blog.example.com/post">Blog</a>
        <a href="https://other.net/x">Other</a> <a href="https://partner.org/p">Partner</a>
        <a href="/files/report.pdf">Report</a> <img src="/logo.png"> <link href="/style.css"></p>"#;
    let links = ex.extract_links(html, "https://example.com/index.html", 0).unwrap();
    let urls: Vec<&str> = links.iter().map(|l| l.url.as_str()).collect();
    assert_eq!(urls, vec!["https://example.com/about", "https://blog.example.com/post", "https://partner.org/p"]);
    assert_eq!(links[0].anchor_text, "About us");
    assert_eq!(links[0].link_type, LinkType::Internal);
    assert_eq!(links[1].link_type, LinkType::Subdomain);
    assert_eq!(links[2].link_type, LinkType::Internal);
    assert_eq!(links[0].depth, 1);
    let stats = ex.get_stats(&links);
    assert_eq!(stats.total, 3);
    assert_eq!(stats.internal, 2);
    assert_eq!(stats.subdomain, 1);
    assert!(ex.extract_links(html, "https://example.com/", 3).unwrap().is_empty());
    assert_eq!(ex.classify_link("example.com", "/a/b.css"), LinkType::Asset);
    assert_eq!(ex.classify_link("example.com", "/a/b.docx"), LinkType::Document);
    assert_eq!(ex.classify_link("elsewhere.com", "/a"), LinkType::External);
}

#[test]
fn test_content_processor_creation() {
    let config = ContentProcessingConfig::builder()
        .with_content_length_range(LimitValue::new(5), LimitValue::new(1000))
        .build();
    let processor = ContentProcessor::new(config).expect("Failed to create processor");
    assert_eq!(processor.config().min_content_length(), 5);
}

#[test]
fn test_text_processing() {
    let processor = ContentProcessor::with_defaults().expect("Failed to create processor");
    let text = "  <p>Hello    World!</p>  ";
    let result = processor.process_text(text).expect("Failed to process text");
    assert_eq!(result.trim(), "Hello World!");
}

#[test]
fn text_processing_refuses_short_text_and_drops_special_chars() {
    let processor = ContentProcessor::with_defaults().unwrap();
    match processor.process_text("<b>Hi</b>") {
        Err(e) => assert_eq!(e.message(), "Content too short: 2 characters (min: 10)"),
        Ok(_) => panic!("expected the text to be refused"),
    }
    let config = ContentProcessingConfig::builder()
        .with_text_processing(BooleanFlag::enabled(), BooleanFlag::disabled())
        .with_content_length_range(LimitValue::new(1), LimitValue::new(1000))
        .build();
    let processor = ContentProcessor::new(config).unwrap();
    assert_eq!(processor.process_text("a-b, c!").unwrap(), "ab c");
}
