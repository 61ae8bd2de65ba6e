//! Text extraction and validation of fetched pages: the markup is stripped,
//! the language is detected and checked against the accepted ones, and the
//! words are counted (every word for Chinese, Japanese and Korean, only
//! words of some length for the other languages). Text that is too short,
//! in an unaccepted language or with too few words is given back empty.
//!
//! Removing whole elements (scripts, styles, navigation and the like) is
//! done by an HTML rewriter outside this library; its output, or the fact
//! that it failed, is handed to `extract_and_validate`.
use vstd::prelude::*;
use unicode_segmentation::UnicodeSegmentation;
use crate::byte_text::bytes_of;
use crate::crawl_core::types::{accepted_detection, LangType};
use crate::patterns::{regex_compile_error, regex_error, regex_replaced, replace_all};
use crate::processing::language::{detect_code, detected_language_code};
use crate::text_util::{join_with, joined_with, split_words, trim_seq, trim_str, words_of};

verus! {

/// The byte lengths of the words `UnicodeSegmentation::unicode_words` finds
/// in a text, in order.
pub uninterp spec fn unicode_word_byte_lengths(text: Seq<char>) -> Seq<usize>;

/// Calls `unicode_words` and gives the byte length of each word found. The
/// result is named `unicode_word_byte_lengths` of the text. The crate
/// documents the words as pieces of a split of the text that each hold at
/// least one alphanumeric character, so there are no more words than
/// characters.
#[verifier::external_body]
fn word_byte_lengths(text: &str) -> (r: Vec<usize>)
    ensures
        r@ == unicode_word_byte_lengths(text@),
        r@.len() <= text@.len(),
{
    text.unicode_words().map(|w| w.len()).collect()
}

/// The pattern of a markup tag.
pub open spec fn tag_pattern() -> Seq<char> {
    "<[^>]*>"@
}

/// The thresholds of extraction, in the units the crawler configures them:
/// lengths of text in bytes, sample sizes in characters.
#[derive(Clone, Copy, Debug, PartialEq, Eq, Structural)]
pub struct ExtractionLimits {
    /// Pages shorter than this (in bytes) are not examined.
    pub min_content_length_bytes: usize,
    /// Extracted text shorter than this (in bytes) is dropped.
    pub min_extracted_text_length: usize,
    /// Text longer than this (in bytes) has its language detected on its
    /// first this-many characters.
    pub lang_detection_sample_size: usize,
    /// Chinese, Japanese or Korean text longer than this (in bytes) has its
    /// words counted on its first this-many characters, scaled up.
    pub cjk_word_count_sample_size: usize,
    /// Other languages count only words of at least this many bytes.
    pub min_word_length_latin: usize,
    /// Text with fewer words is dropped.
    pub min_word_count_threshold: usize,
}

/// The text of markup: tags become spaces, and the words are joined with
/// single spaces.
pub open spec fn text_of_html(html: Seq<char>) -> Seq<char> {
    joined_with(words_of(regex_replaced(tag_pattern(), html, " "@)), " "@)
}

/// How many of the lengths are at least `min`.
pub open spec fn count_at_least(lens: Seq<usize>, min: usize) -> nat
    decreases lens.len(),
{
    if lens.len() == 0 {
        0
    } else {
        count_at_least(lens.drop_last(), min) + if lens.last() >= min { 1nat } else { 0nat }
    }
}

/// The first `n` characters of a text (all of a shorter one).
pub open spec fn char_prefix(t: Seq<char>, n: usize) -> Seq<char> {
    if t.len() > n {
        t.take(n as int)
    } else {
        t
    }
}

/// Chinese, Japanese or Korean.
pub open spec fn is_cjk_lang(l: LangType) -> bool {
    l == LangType::Cmn || l == LangType::Jpn || l == LangType::Kor
}

/// The outcome for a word count: the text when it has enough words, empty
/// text otherwise, with the count either way.
pub open spec fn thresholded(t: Seq<char>, wc: nat, limits: ExtractionLimits) -> (Seq<char>, nat) {
    if wc >= limits.min_word_count_threshold {
        (t, wc)
    } else {
        (Seq::empty(), wc)
    }
}

/// The word count of a text in language `l` when no sampling applies.
pub open spec fn plain_word_count(t: Seq<char>, l: LangType, limits: ExtractionLimits) -> nat {
    if is_cjk_lang(l) {
        unicode_word_byte_lengths(t).len()
    } else {
        count_at_least(unicode_word_byte_lengths(t), limits.min_word_length_latin)
    }
}

/// What the fallback extraction gives for a page: its text (see
/// `text_of_html`), the language detected on the whole text, and the word
/// count.
pub open spec fn fallback_outcome(content: Seq<char>, accepted: Seq<LangType>, limits: ExtractionLimits) -> (
    Seq<char>,
    nat,
) {
    let t = text_of_html(content);
    if t.len() == 0 {
        (Seq::empty(), 0)
    } else {
        match accepted_detection(detected_language_code(t), accepted) {
            None => (Seq::empty(), 0),
            Some(l) => thresholded(t, plain_word_count(t, l, limits), limits),
        }
    }
}

/// The word count of extracted text in language `l`: for Chinese, Japanese
/// or Korean text longer than the sample size, the count on the sample
/// scaled by the text's length in characters over the sample size.
pub open spec fn extracted_word_count(t: Seq<char>, l: LangType, limits: ExtractionLimits) -> nat {
    let n = limits.cjk_word_count_sample_size;
    if is_cjk_lang(l) && bytes_of(t).len() > n {
        (unicode_word_byte_lengths(char_prefix(t, n)).len() * t.len()) / (n as nat)
    } else {
        plain_word_count(t, l, limits)
    }
}

/// What validation gives for the rewriter's output: its trimmed text, the
/// language detected on a sample of it, and the word count.
pub open spec fn validated_outcome(rewritten: Seq<char>, accepted: Seq<LangType>, limits: ExtractionLimits) -> (
    Seq<char>,
    nat,
) {
    let t = trim_seq(text_of_html(rewritten));
    if t.len() == 0 || bytes_of(t).len() < limits.min_extracted_text_length {
        (Seq::empty(), 0)
    } else {
        let sample = if bytes_of(t).len() > limits.lang_detection_sample_size {
            char_prefix(t, limits.lang_detection_sample_size)
        } else {
            t
        };
        match accepted_detection(detected_language_code(sample), accepted) {
            None => (Seq::empty(), 0),
            Some(l) => thresholded(t, extracted_word_count(t, l, limits), limits),
        }
    }
}

/// What extraction gives for a page: nothing for an empty or short page;
/// the fallback when the rewriter failed (`None`); otherwise validation of
/// the rewriter's output.
pub open spec fn extraction_outcome(
    content: Seq<char>,
    rewritten: Option<Seq<char>>,
    accepted: Seq<LangType>,
    limits: ExtractionLimits,
) -> (Seq<char>, nat) {
    if content.len() == 0 || bytes_of(content).len() < limits.min_content_length_bytes {
        (Seq::empty(), 0)
    } else {
        match rewritten {
            None => fallback_outcome(content, accepted, limits),
            Some(h) => validated_outcome(h, accepted, limits),
        }
    }
}

/// Extracts and validates page text for a set of accepted languages.
#[derive(Debug)]
pub struct ContentExtractor {
    accepted_languages: Vec<LangType>,
    limits: ExtractionLimits,
}

/// Abstract content of an extractor.
pub struct ContentExtractorView {
    pub accepted_languages: Seq<LangType>,
    pub limits: ExtractionLimits,
}

impl View for ContentExtractor {
    type V = ContentExtractorView;

    closed spec fn view(&self) -> ContentExtractorView {
        ContentExtractorView { accepted_languages: self.accepted_languages@, limits: self.limits }
    }
}

/// Counts the lengths that are at least `min`.
fn count_long(lens: &Vec<usize>, min: usize) -> (r: usize)
    ensures
        r == count_at_least(lens@, min),
{
    let mut n: usize = 0;
    let mut i: usize = 0;
    while i < lens.len()
        invariant
            i <= lens@.len(),
            n == count_at_least(lens@.take(i as int), min),
            n <= i,
        decreases lens@.len() - i,
    {
        proof {
            assert(lens@.take(i as int + 1).drop_last() =~= lens@.take(i as int));
        }
        if lens[i] >= min {
            n = n + 1;
        }
        i = i + 1;
    }
    proof {
        assert(lens@.take(lens@.len() as int) =~= lens@);
    }
    n
}

/// The first `n` characters of a text, as a new string.
fn char_prefix_of(t: &str, n: usize) -> (r: String)
    ensures
        r@ == char_prefix(t@, n),
{
    let len = t.unicode_len();
    if len > n {
        t.substring_char(0, n).to_string()
    } else {
        proof {
            assert(t@.subrange(0, len as int) =~= t@);
        }
        t.substring_char(0, len).to_string()
    }
}

/// The scaled word count: `count * total / n`, which is at most `total`
/// when `count <= n`.
fn scaled_count(count: usize, total: usize, n: usize) -> (r: usize)
    requires
        n > 0,
        count <= n,
    ensures
        r == (count as nat * total as nat) / (n as nat),
{
    proof {
        assert(count * total <= n * total) by (nonlinear_arith)
            requires
                count <= n,
        ;
        assert((n * total) / (n as int) == total) by (nonlinear_arith)
            requires
                n > 0,
        ;
        assert(count * total / (n as int) <= n * total / (n as int)) by (nonlinear_arith)
            requires
                count * total <= n * total,
                n > 0,
        ;
        assert(usize::MAX * usize::MAX <= u128::MAX) by (nonlinear_arith)
            requires
                usize::MAX <= u64::MAX,
        ;
        assert(count * total <= u128::MAX) by (nonlinear_arith)
            requires
                count <= usize::MAX,
                total <= usize::MAX,
                usize::MAX * usize::MAX <= u128::MAX,
        ;
    }
    let p: u128 = (count as u128) * (total as u128);
    let q: u128 = p / (n as u128);
    q as usize
}

impl ContentExtractor {
    /// Well-formedness: the tag pattern compiles.
    pub closed spec fn wf(&self) -> bool {
        regex_compile_error(tag_pattern()) is None
    }

    /// An extractor for the accepted languages, with its thresholds. It
    /// fails with the regular-expression error when the tag pattern does not
    /// compile.
    pub fn new(accepted_languages: Vec<LangType>, limits: ExtractionLimits) -> (r: Result<Self, String>)
        ensures
            match regex_compile_error(tag_pattern()) {
                Some(e) => r matches Err(x) && x@ == e,
                None => r matches Ok(c) && c.wf() && c@.accepted_languages == accepted_languages@
                    && c@.limits == limits,
            },
    {
        match regex_error("<[^>]*>") {
            Some(e) => Err(e),
            None => Ok(ContentExtractor { accepted_languages, limits }),
        }
    }

    /// The extractor's thresholds.
    pub fn limits(&self) -> (r: ExtractionLimits)
        ensures
            r == self@.limits,
    {
        self.limits
    }

    /// The text of markup (see `text_of_html`).
    pub fn extract_text_from_cleaned_html(&self, html: &str) -> (r: String)
        requires
            self.wf(),
        ensures
            r@ == text_of_html(html@),
    {
        let replaced = replace_all("<[^>]*>", html, " ");
        let words = split_words(replaced.as_str());
        join_with(&words, " ")
    }

    /// The supported, accepted language detected in a text, if any.
    fn accepted_language_of(&self, text: &str) -> (r: Option<LangType>)
        ensures
            r == accepted_detection(detected_language_code(text@), self@.accepted_languages),
    {
        let code = detect_code(text);
        match code {
            Some(c) => LangType::from_detection_with_validation(Some(c.as_str()), self.accepted_languages.as_slice()),
            None => LangType::from_detection_with_validation(None, self.accepted_languages.as_slice()),
        }
    }

    /// The word count of text without sampling (see `plain_word_count`).
    fn plain_count(&self, t: &str, l: LangType) -> (r: usize)
        ensures
            r == plain_word_count(t@, l, self@.limits),
    {
        let lens = word_byte_lengths(t);
        if l.is_cjk() {
            lens.len()
        } else {
            count_long(&lens, self.limits.min_word_length_latin)
        }
    }

    /// Extraction without the rewriter (see `fallback_outcome`).
    pub fn extract_text_fallback(&self, content: &str) -> (r: (String, usize))
        requires
            self.wf(),
        ensures
            (r.0@, r.1 as nat) == fallback_outcome(content@, self@.accepted_languages, self@.limits),
    {
        let text = self.extract_text_from_cleaned_html(content);
        if text.unicode_len() == 0 {
            return (String::new(), 0);
        }
        match self.accepted_language_of(text.as_str()) {
            None => (String::new(), 0),
            Some(l) => {
                let wc = self.plain_count(text.as_str(), l);
                if wc >= self.limits.min_word_count_threshold {
                    (text, wc)
                } else {
                    (String::new(), wc)
                }
            },
        }
    }

    /// Validation of the rewriter's output (see `validated_outcome`).
    pub fn validate_extracted(&self, rewritten: &str) -> (r: (String, usize))
        requires
            self.wf(),
            self@.limits.cjk_word_count_sample_size > 0,
        ensures
            (r.0@, r.1 as nat) == validated_outcome(rewritten@, self@.accepted_languages, self@.limits),
    {
        let text0 = self.extract_text_from_cleaned_html(rewritten);
        let text = trim_str(text0.as_str());
        let t = text.as_str();
        if t.unicode_len() == 0 || t.as_bytes().len() < self.limits.min_extracted_text_length {
            return (String::new(), 0);
        }
        let detected = if t.as_bytes().len() > self.limits.lang_detection_sample_size {
            let sample = char_prefix_of(t, self.limits.lang_detection_sample_size);
            self.accepted_language_of(sample.as_str())
        } else {
            self.accepted_language_of(t)
        };
        match detected {
            None => (String::new(), 0),
            Some(l) => {
                let n = self.limits.cjk_word_count_sample_size;
                let wc = if l.is_cjk() && t.as_bytes().len() > n {
                    let sample = char_prefix_of(t, n);
                    let lens = word_byte_lengths(sample.as_str());
                    proof {
                        assert(sample@.len() <= n);
                    }
                    scaled_count(lens.len(), t.unicode_len(), n)
                } else {
                    self.plain_count(t, l)
                };
                if wc >= self.limits.min_word_count_threshold {
                    (text, wc)
                } else {
                    (String::new(), wc)
                }
            },
        }
    }

    /// Extracts and validates the text of a page (see
    /// `extraction_outcome`). `rewritten` is the page with the unwanted
    /// elements removed, or `None` when the rewriter failed on it.
    pub fn extract_and_validate(&self, content: &str, rewritten: Option<&str>) -> (r: (String, usize))
        requires
            self.wf(),
            self@.limits.cjk_word_count_sample_size > 0,
        ensures
            (r.0@, r.1 as nat) == extraction_outcome(
                content@,
                match rewritten {
                    Some(h) => Some(h@),
                    None => None,
                },
                self@.accepted_languages,
                self@.limits,
            ),
    {
        if content.unicode_len() == 0 || content.as_bytes().len() < self.limits.min_content_length_bytes {
            return (String::new(), 0);
        }
        match rewritten {
            None => self.extract_text_fallback(content),
            Some(h) => self.validate_extracted(h),
        }
    }
}

} // verus!
