//! Language detection (through `whatlang`) and simple text measures.
use vstd::prelude::*;
use crate::crawl_core::types::{lang_from_code, LangType, lang_list_contains};
use crate::text_util::{chars_of, is_whitespace_char, is_ws, str_eq, word_count, count_words};

verus! {

/// The three-letter code (ISO 639-3, as `whatlang::Lang::code` gives it) of
/// the language `whatlang::detect` finds in a text, or `None` when it finds
/// none.
pub uninterp spec fn detected_language_code(text: Seq<char>) -> Option<Seq<char>>;

/// Calls `whatlang::detect` and reads the detected language's code. The
/// outcome is named `detected_language_code` of the text; detection depends
/// on the text alone.
#[verifier::external_body]
pub(crate) fn detect_code(text: &str) -> (r: Option<String>)
    ensures
        match r {
            Some(c) => detected_language_code(text@) == Some(c@),
            None => detected_language_code(text@) is None,
        },
{
    match whatlang::detect(text) {
        Some(info) => Some(info.lang().code().to_string()),
        None => None,
    }
}

/// The short code reported for a detected language: two letters for the
/// twelve common languages, the three-letter code for any other.
pub open spec fn short_language_code(code: Seq<char>) -> Seq<char> {
    if code == "eng"@ { "en"@ }
    else if code == "fra"@ { "fr"@ }
    else if code == "deu"@ { "de"@ }
    else if code == "cmn"@ { "zh"@ }
    else if code == "jpn"@ { "ja"@ }
    else if code == "kor"@ { "ko"@ }
    else if code == "spa"@ { "es"@ }
    else if code == "ita"@ { "it"@ }
    else if code == "por"@ { "pt"@ }
    else if code == "rus"@ { "ru"@ }
    else if code == "ara"@ { "ar"@ }
    else if code == "hin"@ { "hi"@ }
    else { code }
}

/// `short_language_code` as a string.
pub fn short_code_of(code: &str) -> (r: String)
    ensures
        r@ == short_language_code(code@),
{
    let s: &str = if str_eq(code, "eng") { "en" }
        else if str_eq(code, "fra") { "fr" }
        else if str_eq(code, "deu") { "de" }
        else if str_eq(code, "cmn") { "zh" }
        else if str_eq(code, "jpn") { "ja" }
        else if str_eq(code, "kor") { "ko" }
        else if str_eq(code, "spa") { "es" }
        else if str_eq(code, "ita") { "it" }
        else if str_eq(code, "por") { "pt" }
        else if str_eq(code, "rus") { "ru" }
        else if str_eq(code, "ara") { "ar" }
        else if str_eq(code, "hin") { "hi" }
        else { code };
    s.to_string()
}

/// The code of the detected language (see `short_language_code`), or
/// `None` when no language is detected.
pub fn detect_language(content: &str) -> (r: Option<String>)
    ensures
        match detected_language_code(content@) {
            Some(c) => r matches Some(s) && s@ == short_language_code(c),
            None => r is None,
        },
{
    match detect_code(content) {
        Some(c) => Some(short_code_of(c.as_str())),
        None => None,
    }
}

/// The detected language when it is one of the supported ones.
pub fn detect_language_type(content: &str) -> (r: Option<LangType>)
    ensures
        r == (match detected_language_code(content@) {
            Some(c) => lang_from_code(c),
            None => None,
        }),
{
    match detect_code(content) {
        Some(c) => LangType::from_detected_code(c.as_str()),
        None => None,
    }
}

/// English name of a two-letter language code.
pub open spec fn language_name(code: Seq<char>) -> Seq<char> {
    if code == "en"@ { "English"@ }
    else if code == "fr"@ { "French"@ }
    else if code == "de"@ { "German"@ }
    else if code == "zh"@ { "Chinese"@ }
    else if code == "ja"@ { "Japanese"@ }
    else if code == "ko"@ { "Korean"@ }
    else if code == "es"@ { "Spanish"@ }
    else if code == "it"@ { "Italian"@ }
    else if code == "pt"@ { "Portuguese"@ }
    else if code == "ru"@ { "Russian"@ }
    else if code == "ar"@ { "Arabic"@ }
    else if code == "hi"@ { "Hindi"@ }
    else { "Unknown"@ }
}

/// The display name of a language code.
pub fn language_code_to_name(code: &str) -> (r: &'static str)
    ensures
        r@ == language_name(code@),
{
    if str_eq(code, "en") { "English" }
    else if str_eq(code, "fr") { "French" }
    else if str_eq(code, "de") { "German" }
    else if str_eq(code, "zh") { "Chinese" }
    else if str_eq(code, "ja") { "Japanese" }
    else if str_eq(code, "ko") { "Korean" }
    else if str_eq(code, "es") { "Spanish" }
    else if str_eq(code, "it") { "Italian" }
    else if str_eq(code, "pt") { "Portuguese" }
    else if str_eq(code, "ru") { "Russian" }
    else if str_eq(code, "ar") { "Arabic" }
    else if str_eq(code, "hi") { "Hindi" }
    else { "Unknown" }
}

/// Reading time in milliseconds at 225 words a minute, rounded down.
pub fn estimate_reading_time(word_count: usize) -> (r: u128)
    ensures
        r == word_count as int * 800 / 3,
{
    (word_count as u128) * 800 / 3
}

/// Difficulty of a text judged by its average word length.
#[derive(Debug, Clone, Copy, PartialEq, Eq, Structural)]
pub enum ContentDifficulty {
    Easy,
    Medium,
    Hard,
    VeryHard,
    Unknown,
}

/// Number of characters that are not whitespace (the characters of the
/// words that `split_whitespace` yields).
pub open spec fn letter_count(s: Seq<char>) -> nat
    decreases s.len(),
{
    if s.len() == 0 {
        0
    } else {
        letter_count(s.drop_last()) + if is_ws(s.last()) { 0nat } else { 1nat }
    }
}

/// The difficulty band of `total` characters over `words` words: average
/// below 4 is easy, below 5.5 medium, below 7 hard, else very hard; no
/// words is unknown.
pub open spec fn difficulty_of(total: nat, words: nat) -> ContentDifficulty {
    if words == 0 {
        ContentDifficulty::Unknown
    } else if total < 4 * words {
        ContentDifficulty::Easy
    } else if 2 * total < 11 * words {
        ContentDifficulty::Medium
    } else if total < 7 * words {
        ContentDifficulty::Hard
    } else {
        ContentDifficulty::VeryHard
    }
}

/// Difficulty from the average length of the whitespace-separated words.
pub fn estimate_content_difficulty(content: &str) -> (r: ContentDifficulty)
    ensures
        r == difficulty_of(letter_count(content@), word_count(content@)),
{
    let words = count_words(content);
    let v = chars_of(content);
    let mut total: u64 = 0;
    let mut i: usize = 0;
    while i < v.len()
        invariant
            v@ == content@,
            i <= v.len(),
            total == letter_count(v@.take(i as int)),
            total <= i,
        decreases v.len() - i,
    {
        proof {
            assert(v@.take(i + 1).drop_last() == v@.take(i as int));
        }
        if !is_whitespace_char(v[i]) {
            total = total + 1;
        }
        i = i + 1;
    }
    proof {
        assert(v@.take(v@.len() as int) == v@);
    }
    let t: u128 = total as u128;
    let n: u128 = words as u128;
    if n == 0 {
        ContentDifficulty::Unknown
    } else if t < 4 * n {
        ContentDifficulty::Easy
    } else if 2 * t < 11 * n {
        ContentDifficulty::Medium
    } else if t < 7 * n {
        ContentDifficulty::Hard
    } else {
        ContentDifficulty::VeryHard
    }
}

/// Whether the detected language is one of the supported ones.
pub fn is_supported_language(content: &str, supported_languages: &[LangType]) -> (r: bool)
    ensures
        r == (match detect_language_type_spec(content@) {
            Some(l) => supported_languages@.contains(l),
            None => false,
        }),
{
    match detect_language_type(content) {
        Some(l) => {
            let b = lang_list_contains(supported_languages, l);
            b
        },
        None => false,
    }
}

/// The supported language detected in a text, if any.
pub open spec fn detect_language_type_spec(text: Seq<char>) -> Option<LangType> {
    match detected_language_code(text) {
        Some(c) => lang_from_code(c),
        None => None,
    }
}

} // verus!
