use web_crawler::crawl_core::error::CrawlError;
use web_crawler::processing::keyword::config::{KeywordConfig, KeywordMode, KeywordOptions};
use web_crawler::processing::keyword::extractor::KeywordExtractor;
use web_crawler::processing::keyword::matcher::KeywordMatcher;

fn words(ws: &[&str]) -> Vec<String> {
    ws.iter().map(|w| w.to_string()).collect()
}

fn options() -> KeywordOptions {
    KeywordOptions {
        min_matches: None,
        proximity_distance: None,
        include_context: false,
        context_window: 100,
        highlight_matches: false,
    }
}

#[test]
fn any_mode_finds_every_occurrence() {
    let m = KeywordMatcher::new(KeywordConfig::new(words(&["rust", "fast"]), KeywordMode::Any)).unwrap();
    let r = m.match_keywords("rust is fast and rust is safe").unwrap();
    assert!(r.found);
    assert_eq!(r.match_count, 3);
    let found: Vec<(&str, usize, usize)> = r
        .matches
        .iter()
        .map(|x| (x.keyword.as_str(), x.position, x.length))
        .collect();
    assert_eq!(found, vec![("rust", 0, 4), ("rust", 17, 4), ("fast", 8, 4)]);
    assert_eq!(r.matched_keywords, vec!["rust".to_string(), "fast".to_string()]);
    assert_eq!(r.stats.most_frequent_keyword, Some("rust".to_string()));
    assert_eq!(r.stats.total_chars, 29);
    assert_eq!(r.stats.keyword_total, 2);
}

#[test]
fn case_insensitive_mode_lowercases() {
    let m = KeywordMatcher::new(KeywordConfig::new(words(&["Rust"]), KeywordMode::CaseInsensitive)).unwrap();
    let r = m.match_keywords("RUST and rust").unwrap();
    let found: Vec<(&str, usize)> = r.matches.iter().map(|x| (x.keyword.as_str(), x.position)).collect();
    assert_eq!(found, vec![("rust", 0), ("rust", 9)]);
}

#[test]
fn all_mode_needs_every_keyword() {
    let m = KeywordMatcher::new(KeywordConfig::new(words(&["rust", "python"]), KeywordMode::All)).unwrap();
    assert!(!m.match_keywords("rust only").unwrap().found);
    let r = m.match_keywords("rust and python").unwrap();
    assert_eq!(r.match_count, 2);
}

#[test]
fn exact_mode_keeps_whole_words() {
    let m = KeywordMatcher::new(KeywordConfig::new(words(&["cat"]), KeywordMode::Exact)).unwrap();
    let r = m.match_keywords("cat concatenate cat.").unwrap();
    let positions: Vec<usize> = r.matches.iter().map(|x| x.position).collect();
    assert_eq!(positions, vec![0, 16]);
}

#[test]
fn regex_mode_reports_spans() {
    let m = KeywordMatcher::new(KeywordConfig::new(words(&["\\d+"]), KeywordMode::Regex)).unwrap();
    let r = m.match_keywords("a1b22").unwrap();
    let spans: Vec<(usize, usize)> = r.matches.iter().map(|x| (x.position, x.length)).collect();
    assert_eq!(spans, vec![(1, 1), (3, 2)]);
    assert_eq!(r.matches[0].keyword, "\\d+");
}

#[test]
fn context_with_highlight() {
    let mut o = options();
    o.include_context = true;
    o.context_window = 3;
    o.highlight_matches = true;
    let m = KeywordMatcher::new(KeywordConfig::with_options(words(&["fast"]), KeywordMode::Any, o)).unwrap();
    let r = m.match_keywords("rust is fast and").unwrap();
    assert_eq!(r.matches[0].context, Some("is **fast** an".to_string()));
}

#[test]
fn context_without_highlight() {
    let mut o = options();
    o.include_context = true;
    o.context_window = 2;
    let m = KeywordMatcher::new(KeywordConfig::with_options(words(&["b"]), KeywordMode::Any, o)).unwrap();
    let r = m.match_keywords("abc").unwrap();
    assert_eq!(r.matches[0].context, Some("abc".to_string()));
}

#[test]
fn min_matches_and_proximity() {
    let mut o = options();
    o.min_matches = Some(2);
    let m = KeywordMatcher::new(KeywordConfig::with_options(words(&["rust"]), KeywordMode::Any, o)).unwrap();
    assert!(!m.match_keywords("rust once").unwrap().found);
    assert!(m.match_keywords("rust twice rust").unwrap().found);

    let mut p = options();
    p.proximity_distance = Some(5);
    let m = KeywordMatcher::new(KeywordConfig::with_options(words(&["alpha", "omega"]), KeywordMode::Any, p)).unwrap();
    assert!(!m.match_keywords("alpha is very far from omega").unwrap().found);
    assert!(m.match_keywords("alpha omega").unwrap().found);
}

#[test]
fn disabled_matcher_finds_nothing() {
    let m = KeywordMatcher::new(KeywordConfig::default()).unwrap();
    let r = m.match_keywords("anything").unwrap();
    assert!(!r.found);
    assert_eq!(r.match_count, 0);
}

#[test]
fn invalid_regex_is_rejected() {
    match KeywordMatcher::new(KeywordConfig::new(words(&["("]), KeywordMode::Regex)) {
        Err(CrawlError::KeywordConfigError(m)) => assert!(m.starts_with("Invalid regex pattern '('")),
        _ => panic!("expected a configuration error"),
    }
}

#[test]
fn try_match_declines_uncuttable_context() {
    let mut o = options();
    o.include_context = true;
    o.context_window = 1;
    let m = KeywordMatcher::new(KeywordConfig::with_options(words(&["b"]), KeywordMode::Any, o)).unwrap();
    // One byte before "b" falls inside the two-byte "é".
    assert!(m.try_match_keywords("éb").is_none());
    assert!(m.try_match_keywords("ab").is_some());
}

#[test]
fn extract_keeps_relevant_paragraphs() {
    let x = KeywordExtractor::new(KeywordConfig::new(words(&["rust"]), KeywordMode::Any)).unwrap();
    let info = x.extract_content("intro line\nrust is here\n\nother").unwrap();
    assert_eq!(info.filtered_content, Some("rust is here".to_string()));
    assert_eq!(info.stats.original_length, 30);
    assert_eq!(info.stats.filtered_length, 12);
    assert_eq!(info.stats.relevant_paragraphs, 1);
    assert_eq!(info.match_result.match_count, 1);
}

#[test]
fn extract_reports_missing_keywords() {
    let x = KeywordExtractor::new(KeywordConfig::new(words(&["rust"]), KeywordMode::Any)).unwrap();
    assert!(matches!(x.extract_content("nothing here"), Err(CrawlError::KeywordNotFound)));
    assert!(matches!(x.extract_matches_only("nothing here"), Err(CrawlError::KeywordNotFound)));
    let s = x.get_content_summary("nothing here").unwrap();
    assert_eq!(s.original_length, 12);
    assert_eq!(s.filtered_length, 0);
}

#[test]
fn extract_disabled_keeps_everything() {
    let x = KeywordExtractor::new(KeywordConfig::default()).unwrap();
    let info = x.extract_content("all of it").unwrap();
    assert_eq!(info.filtered_content, Some("all of it".to_string()));
    assert_eq!(info.stats.filtered_length, 9);
}

#[test]
fn extract_matches_only_lists_matched_text() {
    let x = KeywordExtractor::new(KeywordConfig::new(words(&["fast"]), KeywordMode::Any)).unwrap();
    assert_eq!(x.extract_matches_only("rust is fast").unwrap(), vec!["fast".to_string()]);
    let s = x.get_content_summary("rust is fast\nslow").unwrap();
    assert_eq!(s.relevant_paragraphs, 1);
    assert_eq!(s.filtered_length, 12);
}
