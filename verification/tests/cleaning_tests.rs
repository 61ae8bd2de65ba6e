use web_crawler::crawl_core::error::CrawlError;
use web_crawler::processing::cleaning::cleaner::TextCleaner;
use web_crawler::processing::cleaning::config::CleaningConfig;

#[test]
fn disabled_cleaning_returns_text_unchanged() {
    let cleaner = TextCleaner::new(CleaningConfig::new()).unwrap();
    let r = cleaner.clean_text("  Hello   world ").unwrap();
    assert_eq!(r.cleaned_text, "  Hello   world ");
    assert!(!r.was_cleaned);
    assert_eq!(r.stats.operations_performed, 0);
}

#[test]
fn basic_cleaning_normalizes_whitespace() {
    let cleaner = TextCleaner::new(CleaningConfig::basic()).unwrap();
    let r = cleaner.clean_text("  Hello \n\t world  ").unwrap();
    assert_eq!(r.cleaned_text, "Hello world");
    assert!(r.was_cleaned);
    assert_eq!(r.stats.original_words, 2);
    assert_eq!(r.stats.cleaned_words, 2);
    assert_eq!(r.stats.cleaned_chars, 11);
    assert_eq!(r.stats.operations_performed, 1);
}

#[test]
fn aggressive_cleaning_drops_non_ascii_numbers_and_symbols() {
    let cleaner = TextCleaner::new(CleaningConfig::aggressive()).unwrap();
    let r = cleaner.clean_text("Café costs 5 euros!\nreally nice").unwrap();
    assert_eq!(r.cleaned_text, "Caf costs really nice");
    assert_eq!(r.stats.operations_performed, 2);
}

#[test]
fn cjk_removal() {
    let cleaner = TextCleaner::new(CleaningConfig::remove_cjk()).unwrap();
    let r = cleaner.clean_text("Hello 世界 こんにちは 안녕 world").unwrap();
    assert_eq!(r.cleaned_text, "Hello world");
}

#[test]
fn word_and_length_filters() {
    let config = CleaningConfig::new()
        .with_word_filter(vec!["The".to_string()], false)
        .with_length_filter(Some(3), Some(5));
    let mut config = config;
    config.enabled = true;
    let cleaner = TextCleaner::new(config).unwrap();
    let r = cleaner.clean_text("the cat sat on a verylongword mat").unwrap();
    assert_eq!(r.cleaned_text, "cat sat mat");
}

#[test]
fn empty_result_is_refused() {
    let mut config = CleaningConfig::basic();
    config.allow_empty_result = false;
    let cleaner = TextCleaner::new(config).unwrap();
    match cleaner.clean_text("   \n ") {
        Err(CrawlError::CleaningRuleError(m)) => assert_eq!(m, "Text cleaning resulted in empty content"),
        _ => panic!("expected a refusal"),
    }
}

#[test]
fn custom_rules_apply_and_malformed_ones_are_refused() {
    let mut config = CleaningConfig::new();
    config.enabled = true;
    config.custom_rules = Some(vec!["replace:[0-9]+:#".to_string(), "remove:x".to_string()]);
    let cleaner = TextCleaner::new(config).unwrap();
    let r = cleaner.clean_text("room 101 xx").unwrap();
    assert_eq!(r.cleaned_text, "room #");
    let mut bad = CleaningConfig::new();
    bad.enabled = true;
    bad.custom_rules = Some(vec!["drop:x".to_string()]);
    match TextCleaner::new(bad) {
        Err(CrawlError::CleaningConfigError(m)) => assert_eq!(
            m,
            "Invalid custom rule format: 'drop:x'. Use 'remove:pattern' or 'replace:pattern:replacement'"
        ),
        _ => panic!("expected a refusal"),
    }
}
