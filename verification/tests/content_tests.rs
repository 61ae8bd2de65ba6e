use web_crawler::crawl_core::types::LangType;
use web_crawler::processing::content::{ContentExtractor, ExtractionLimits};

fn limits() -> ExtractionLimits {
    ExtractionLimits {
        min_content_length_bytes: 20,
        min_extracted_text_length: 20,
        lang_detection_sample_size: 1000,
        cjk_word_count_sample_size: 1000,
        min_word_length_latin: 3,
        min_word_count_threshold: 5,
    }
}

const PAGE: &str = "<html><body><p>The quick brown fox jumps over the lazy dog while the farmer watches from the field near the old barn</p></body></html>";
const TEXT: &str = "The quick brown fox jumps over the lazy dog while the farmer watches from the field near the old barn";

#[test]
fn tags_become_spaces_and_words_are_joined() {
    let e = ContentExtractor::new(vec![LangType::Eng], limits()).unwrap();
    assert_eq!(e.extract_text_from_cleaned_html("<p>a  b</p><br/>c"), "a b c");
    assert_eq!(e.extract_text_from_cleaned_html("<div></div>"), "");
}

#[test]
fn english_page_is_extracted_by_the_fallback() {
    let e = ContentExtractor::new(vec![LangType::Eng], limits()).unwrap();
    assert_eq!(e.extract_and_validate(PAGE, None), (TEXT.to_string(), 20));
    assert_eq!(e.extract_text_fallback(PAGE), (TEXT.to_string(), 20));
}

#[test]
fn rewritten_page_is_validated() {
    let e = ContentExtractor::new(vec![LangType::Eng], limits()).unwrap();
    let rewritten = format!("  {}  ", PAGE);
    assert_eq!(e.extract_and_validate(PAGE, Some(&rewritten)), (TEXT.to_string(), 20));
}

#[test]
fn short_or_empty_pages_give_nothing() {
    let e = ContentExtractor::new(vec![LangType::Eng], limits()).unwrap();
    assert_eq!(e.extract_and_validate("", None), (String::new(), 0));
    assert_eq!(e.extract_and_validate("<p>hi</p>", None), (String::new(), 0));
    assert_eq!(e.extract_and_validate(PAGE, Some("<p>tiny</p>")), (String::new(), 0));
}

#[test]
fn unaccepted_language_gives_nothing() {
    let e = ContentExtractor::new(vec![LangType::Fra], limits()).unwrap();
    assert_eq!(e.extract_and_validate(PAGE, None), (String::new(), 0));
}

#[test]
fn too_few_long_words_keep_only_the_count() {
    let mut l = limits();
    l.min_word_count_threshold = 50;
    let e = ContentExtractor::new(vec![LangType::Eng], l).unwrap();
    assert_eq!(e.extract_and_validate(PAGE, None), (String::new(), 20));
}

#[test]
fn detection_is_checked_against_accepted_languages() {
    let accepted = [LangType::Eng, LangType::Deu];
    assert_eq!(LangType::from_detection_with_validation(Some("eng"), &accepted), Some(LangType::Eng));
    assert_eq!(LangType::from_detection_with_validation(Some("fra"), &accepted), None);
    assert_eq!(LangType::from_detection_with_validation(Some("spa"), &accepted), None);
    assert_eq!(LangType::from_detection_with_validation(None, &accepted), None);
}
