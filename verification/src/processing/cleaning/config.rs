//! Text cleaning configuration: filters by length, character, word and
//! script, presets, and the validation that rejects inconsistent settings.
use vstd::prelude::*;
use crate::crawl_core::error::CrawlError;
use crate::patterns::{regex_compile_error, regex_error};
use crate::text_util::{concat_str, decimal, is_blank, trim_seq, u64_to_string};

verus! {

/// Length limits on words, sentences and paragraphs.
#[derive(Clone, Copy, Debug)]
pub struct LengthFilter {
    pub enabled: bool,
    pub min_word_length: Option<usize>,
    pub max_word_length: Option<usize>,
    pub min_sentence_length: Option<usize>,
    pub max_sentence_length: Option<usize>,
    pub min_paragraph_length: Option<usize>,
    pub max_paragraph_length: Option<usize>,
}

impl Default for LengthFilter {
    /// Off, with no limits.
    fn default() -> (r: Self)
        ensures
            !r.enabled,
            r.min_word_length is None && r.max_word_length is None,
            r.min_sentence_length is None && r.max_sentence_length is None,
            r.min_paragraph_length is None && r.max_paragraph_length is None,
    {
        LengthFilter {
            enabled: false,
            min_word_length: None,
            max_word_length: None,
            min_sentence_length: None,
            max_sentence_length: None,
            min_paragraph_length: None,
            max_paragraph_length: None,
        }
    }
}

/// Which characters are removed.
#[derive(Debug)]
pub struct CharacterFilter {
    pub enabled: bool,
    pub remove_characters: Option<Vec<char>>,
    pub remove_unicode_ranges: Option<Vec<(u32, u32)>>,
    pub alphanumeric_only: bool,
    pub ascii_only: bool,
    pub normalize_whitespace: bool,
    pub remove_line_breaks: bool,
}

/// The default character settings: off, whitespace normalized.
pub open spec fn is_default_character_filter(f: CharacterFilter) -> bool {
    &&& !f.enabled
    &&& f.remove_characters is None
    &&& f.remove_unicode_ranges is None
    &&& !f.alphanumeric_only
    &&& !f.ascii_only
    &&& f.normalize_whitespace
    &&& !f.remove_line_breaks
}

impl Default for CharacterFilter {
    fn default() -> (r: Self)
        ensures
            is_default_character_filter(r),
    {
        CharacterFilter {
            enabled: false,
            remove_characters: None,
            remove_unicode_ranges: None,
            alphanumeric_only: false,
            ascii_only: false,
            normalize_whitespace: true,
            remove_line_breaks: false,
        }
    }
}

/// Which words are removed.
#[derive(Debug)]
pub struct WordFilter {
    pub enabled: bool,
    pub remove_words: Option<Vec<String>>,
    pub remove_patterns: Option<Vec<String>>,
    pub case_sensitive: bool,
    pub remove_stop_words: Option<Vec<String>>,
    pub remove_numeric_words: bool,
    pub remove_special_char_words: bool,
}

/// The default word settings: off, case-insensitive, nothing removed.
pub open spec fn is_default_word_filter(f: WordFilter) -> bool {
    &&& !f.enabled
    &&& f.remove_words is None
    &&& f.remove_patterns is None
    &&& !f.case_sensitive
    &&& f.remove_stop_words is None
    &&& !f.remove_numeric_words
    &&& !f.remove_special_char_words
}

impl Default for WordFilter {
    fn default() -> (r: Self)
        ensures
            is_default_word_filter(r),
    {
        WordFilter {
            enabled: false,
            remove_words: None,
            remove_patterns: None,
            case_sensitive: false,
            remove_stop_words: None,
            remove_numeric_words: false,
            remove_special_char_words: false,
        }
    }
}

/// Which scripts are removed.
#[derive(Debug)]
pub struct LanguageFilter {
    pub enabled: bool,
    pub remove_chinese: bool,
    pub remove_japanese: bool,
    pub remove_korean: bool,
    pub remove_arabic: bool,
    pub remove_cyrillic: bool,
    pub keep_only_scripts: Option<Vec<String>>,
    pub remove_unicode_blocks: Option<Vec<String>>,
}

/// The default script settings: off, nothing removed.
pub open spec fn is_default_language_filter(f: LanguageFilter) -> bool {
    &&& !f.enabled
    &&& !f.remove_chinese
    &&& !f.remove_japanese
    &&& !f.remove_korean
    &&& !f.remove_arabic
    &&& !f.remove_cyrillic
    &&& f.keep_only_scripts is None
    &&& f.remove_unicode_blocks is None
}

impl Default for LanguageFilter {
    fn default() -> (r: Self)
        ensures
            is_default_language_filter(r),
    {
        LanguageFilter {
            enabled: false,
            remove_chinese: false,
            remove_japanese: false,
            remove_korean: false,
            remove_arabic: false,
            remove_cyrillic: false,
            keep_only_scripts: None,
            remove_unicode_blocks: None,
        }
    }
}

/// How fetched text is cleaned.
#[derive(Debug)]
pub struct CleaningConfig {
    pub enabled: bool,
    pub length_filter: LengthFilter,
    pub character_filter: CharacterFilter,
    pub word_filter: WordFilter,
    pub language_filter: LanguageFilter,
    pub custom_rules: Option<Vec<String>>,
    pub preserve_formatting: bool,
    pub allow_empty_result: bool,
}

/// A length filter with no limits, off.
pub open spec fn is_default_length_filter(f: LengthFilter) -> bool {
    &&& !f.enabled
    &&& f.min_word_length is None && f.max_word_length is None
    &&& f.min_sentence_length is None && f.max_sentence_length is None
    &&& f.min_paragraph_length is None && f.max_paragraph_length is None
}

/// The default cleaning settings: off, every filter at its default, no
/// custom rules, formatting preserved, empty results refused.
pub open spec fn is_default_cleaning(c: CleaningConfig) -> bool {
    &&& !c.enabled
    &&& is_default_length_filter(c.length_filter)
    &&& is_default_character_filter(c.character_filter)
    &&& is_default_word_filter(c.word_filter)
    &&& is_default_language_filter(c.language_filter)
    &&& c.custom_rules is None
    &&& c.preserve_formatting
    &&& !c.allow_empty_result
}

/// A min/max pair in the wrong order.
pub open spec fn inverted(min: Option<usize>, max: Option<usize>) -> bool {
    min is Some && max is Some && min->0 > max->0
}

/// The first pattern that does not compile, with its error.
pub open spec fn first_bad_pattern(ps: Seq<String>) -> Option<(Seq<char>, Seq<char>)>
    decreases ps.len(),
{
    if ps.len() == 0 {
        None
    } else {
        match regex_compile_error(ps[0]@) {
            Some(e) => Some((ps[0]@, e)),
            None => first_bad_pattern(ps.drop_first()),
        }
    }
}

/// The first range whose start exceeds its end.
pub open spec fn first_bad_range(rs: Seq<(u32, u32)>) -> Option<(u32, u32)>
    decreases rs.len(),
{
    if rs.len() == 0 {
        None
    } else if rs[0].0 > rs[0].1 {
        Some(rs[0])
    } else {
        first_bad_range(rs.drop_first())
    }
}

/// Some rule is blank.
pub open spec fn has_blank_rule(rules: Seq<String>) -> bool {
    exists|i: int| 0 <= i < rules.len() && trim_seq(#[trigger] rules[i]@).len() == 0
}

/// The message `validate` rejects a configuration with, checked in order:
/// inverted word, sentence and paragraph limits, word patterns that do not
/// compile, inverted character ranges, blank custom rules. `None` when the
/// configuration is acceptable (a disabled one always is).
pub open spec fn cleaning_config_error(c: CleaningConfig) -> Option<Seq<char>> {
    if !c.enabled {
        None
    } else if c.length_filter.enabled && inverted(c.length_filter.min_word_length, c.length_filter.max_word_length) {
        Some("Minimum word length cannot be greater than maximum word length"@)
    } else if c.length_filter.enabled && inverted(
        c.length_filter.min_sentence_length,
        c.length_filter.max_sentence_length,
    ) {
        Some("Minimum sentence length cannot be greater than maximum sentence length"@)
    } else if c.length_filter.enabled && inverted(
        c.length_filter.min_paragraph_length,
        c.length_filter.max_paragraph_length,
    ) {
        Some("Minimum paragraph length cannot be greater than maximum paragraph length"@)
    } else if c.word_filter.enabled && c.word_filter.remove_patterns is Some && first_bad_pattern(
        c.word_filter.remove_patterns->0@,
    ) is Some {
        let (p, e) = first_bad_pattern(c.word_filter.remove_patterns->0@)->0;
        Some("Invalid word pattern '"@ + p + "': "@ + e)
    } else if c.character_filter.enabled && c.character_filter.remove_unicode_ranges is Some
        && first_bad_range(c.character_filter.remove_unicode_ranges->0@) is Some {
        let (a, b) = first_bad_range(c.character_filter.remove_unicode_ranges->0@)->0;
        Some("Invalid Unicode range: "@ + decimal(a as nat) + " > "@ + decimal(b as nat))
    } else if c.custom_rules is Some && has_blank_rule(c.custom_rules->0@) {
        Some("Custom rules cannot be empty"@)
    } else {
        None
    }
}

fn find_bad_pattern(ps: &Vec<String>) -> (r: Option<(usize, String)>)
    ensures
        match r {
            Some((i, e)) => i < ps@.len() && first_bad_pattern(ps@) == Some((ps@[i as int]@, e@)),
            None => first_bad_pattern(ps@) is None,
        },
{
    let mut i: usize = 0;
    assert(ps@.skip(0) =~= ps@);
    while i < ps.len()
        invariant
            i <= ps@.len(),
            first_bad_pattern(ps@) == first_bad_pattern(ps@.skip(i as int)),
        decreases ps@.len() - i,
    {
        proof {
            assert(ps@.skip(i as int).drop_first() =~= ps@.skip(i as int + 1));
            assert(ps@.skip(i as int)[0] == ps@[i as int]);
        }
        match regex_error(ps[i].as_str()) {
            Some(e) => {
                return Some((i, e));
            },
            None => {},
        }
        i = i + 1;
    }
    proof {
        assert(ps@.skip(i as int).len() == 0);
    }
    None
}

fn find_bad_range(rs: &Vec<(u32, u32)>) -> (r: Option<(u32, u32)>)
    ensures
        r == first_bad_range(rs@),
{
    let mut i: usize = 0;
    assert(rs@.skip(0) =~= rs@);
    while i < rs.len()
        invariant
            i <= rs@.len(),
            first_bad_range(rs@) == first_bad_range(rs@.skip(i as int)),
        decreases rs@.len() - i,
    {
        proof {
            assert(rs@.skip(i as int).drop_first() =~= rs@.skip(i as int + 1));
            assert(rs@.skip(i as int)[0] == rs@[i as int]);
        }
        if rs[i].0 > rs[i].1 {
            return Some(rs[i]);
        }
        i = i + 1;
    }
    proof {
        assert(rs@.skip(i as int).len() == 0);
    }
    None
}

/// Whether some entry is empty once trimmed.
pub fn any_blank(rules: &Vec<String>) -> (r: bool)
    ensures
        r == has_blank_rule(rules@),
{
    let mut i: usize = 0;
    while i < rules.len()
        invariant
            i <= rules@.len(),
            forall|j: int| 0 <= j < i ==> trim_seq(#[trigger] rules@[j]@).len() != 0,
        decreases rules@.len() - i,
    {
        if is_blank(rules[i].as_str()) {
            return true;
        }
        i = i + 1;
    }
    false
}

fn inverted_exec(min: Option<usize>, max: Option<usize>) -> (r: bool)
    ensures
        r == inverted(min, max),
{
    match (min, max) {
        (Some(a), Some(b)) => a > b,
        _ => false,
    }
}

impl CleaningConfig {
    /// The default settings (cleaning off).
    pub fn new() -> (r: Self)
        ensures
            is_default_cleaning(r),
    {
        Self::default()
    }

    /// Cleaning on, with whitespace normalization only.
    pub fn basic() -> (r: Self)
        ensures
            r.enabled,
            r.character_filter.enabled,
            r.character_filter.normalize_whitespace,
            !r.character_filter.ascii_only && !r.character_filter.alphanumeric_only,
            !r.character_filter.remove_line_breaks,
            is_default_length_filter(r.length_filter),
            is_default_word_filter(r.word_filter),
            is_default_language_filter(r.language_filter),
            r.custom_rules is None,
    {
        let mut c = Self::default();
        c.enabled = true;
        c.character_filter.enabled = true;
        c.character_filter.normalize_whitespace = true;
        c
    }

    /// Cleaning on: ASCII only, whitespace normalized, line breaks
    /// removed, and words with digits or special characters dropped.
    pub fn aggressive() -> (r: Self)
        ensures
            r.enabled,
            r.character_filter.enabled && r.character_filter.ascii_only,
            r.character_filter.normalize_whitespace && r.character_filter.remove_line_breaks,
            r.word_filter.enabled && r.word_filter.remove_numeric_words && r.word_filter.remove_special_char_words,
            r.word_filter.remove_words is None && r.word_filter.remove_patterns is None,
            is_default_length_filter(r.length_filter),
            is_default_language_filter(r.language_filter),
            r.custom_rules is None,
    {
        let mut c = Self::default();
        c.enabled = true;
        c.character_filter.enabled = true;
        c.character_filter.ascii_only = true;
        c.character_filter.normalize_whitespace = true;
        c.character_filter.remove_line_breaks = true;
        c.word_filter.enabled = true;
        c.word_filter.remove_numeric_words = true;
        c.word_filter.remove_special_char_words = true;
        c
    }

    /// Cleaning on: Chinese, Japanese and Korean script removed, whitespace
    /// normalized.
    pub fn remove_cjk() -> (r: Self)
        ensures
            r.enabled,
            r.language_filter.enabled,
            r.language_filter.remove_chinese && r.language_filter.remove_japanese && r.language_filter.remove_korean,
            !r.language_filter.remove_arabic && !r.language_filter.remove_cyrillic,
            r.character_filter.enabled && r.character_filter.normalize_whitespace,
            !r.character_filter.ascii_only,
            is_default_length_filter(r.length_filter),
            is_default_word_filter(r.word_filter),
            r.custom_rules is None,
    {
        let mut c = Self::default();
        c.enabled = true;
        c.language_filter.enabled = true;
        c.language_filter.remove_chinese = true;
        c.language_filter.remove_japanese = true;
        c.language_filter.remove_korean = true;
        c.character_filter.enabled = true;
        c.character_filter.normalize_whitespace = true;
        c
    }

    /// Accepts a consistent configuration, and rejects an inconsistent one
    /// with the first problem found.
    pub fn validate(&self) -> (r: Result<(), CrawlError>)
        ensures
            match cleaning_config_error(*self) {
                None => r is Ok,
                Some(m) => r matches Err(CrawlError::CleaningConfigError(s)) && s@ == m,
            },
    {
        if !self.enabled {
            return Ok(());
        }
        proof {
            reveal_strlit("Minimum word length cannot be greater than maximum word length");
            reveal_strlit("Minimum sentence length cannot be greater than maximum sentence length");
            reveal_strlit("Minimum paragraph length cannot be greater than maximum paragraph length");
            reveal_strlit("Invalid word pattern '");
            reveal_strlit("': ");
            reveal_strlit("Invalid Unicode range: ");
            reveal_strlit(" > ");
            reveal_strlit("Custom rules cannot be empty");
        }
        if self.length_filter.enabled {
            if inverted_exec(self.length_filter.min_word_length, self.length_filter.max_word_length) {
                return Err(CrawlError::CleaningConfigError(
                    "Minimum word length cannot be greater than maximum word length".to_string(),
                ));
            }
            if inverted_exec(self.length_filter.min_sentence_length, self.length_filter.max_sentence_length) {
                return Err(CrawlError::CleaningConfigError(
                    "Minimum sentence length cannot be greater than maximum sentence length".to_string(),
                ));
            }
            if inverted_exec(self.length_filter.min_paragraph_length, self.length_filter.max_paragraph_length) {
                return Err(CrawlError::CleaningConfigError(
                    "Minimum paragraph length cannot be greater than maximum paragraph length".to_string(),
                ));
            }
        }
        if self.word_filter.enabled {
            match &self.word_filter.remove_patterns {
                Some(patterns) => {
                    match find_bad_pattern(patterns) {
                        Some((i, e)) => {
                            let mut msg = concat_str("Invalid word pattern '", patterns[i].as_str());
                            msg.append("': ");
                            msg.append(e.as_str());
                            return Err(CrawlError::CleaningConfigError(msg));
                        },
                        None => {},
                    }
                },
                None => {},
            }
        }
        if self.character_filter.enabled {
            match &self.character_filter.remove_unicode_ranges {
                Some(ranges) => {
                    match find_bad_range(ranges) {
                        Some((a, b)) => {
                            let mut msg = concat_str("Invalid Unicode range: ", u64_to_string(a as u64).as_str());
                            msg.append(" > ");
                            msg.append(u64_to_string(b as u64).as_str());
                            return Err(CrawlError::CleaningConfigError(msg));
                        },
                        None => {},
                    }
                },
                None => {},
            }
        }
        match &self.custom_rules {
            Some(rules) => {
                if any_blank(rules) {
                    return Err(CrawlError::CleaningConfigError("Custom rules cannot be empty".to_string()));
                }
            },
            None => {},
        }
        Ok(())
    }

    /// Cleaning happens when it is on and some filter or custom rule is set.
    pub fn should_clean(&self) -> (r: bool)
        ensures
            r == (self.enabled && (self.length_filter.enabled || self.character_filter.enabled
                || self.word_filter.enabled || self.language_filter.enabled || self.custom_rules is Some)),
    {
        self.enabled && (self.length_filter.enabled || self.character_filter.enabled
            || self.word_filter.enabled || self.language_filter.enabled || self.custom_rules.is_some())
    }

    /// Turns the length filter on with the given word length limits.
    pub fn with_length_filter(self, min_word: Option<usize>, max_word: Option<usize>) -> (r: Self)
        ensures
            r.length_filter == (LengthFilter {
                enabled: true,
                min_word_length: min_word,
                max_word_length: max_word,
                ..self.length_filter
            }),
            r.enabled == self.enabled,
    {
        let mut c = self;
        c.length_filter.enabled = true;
        c.length_filter.min_word_length = min_word;
        c.length_filter.max_word_length = max_word;
        c
    }

    /// Turns the character filter on with the given options.
    pub fn with_character_filter(self, ascii_only: bool, normalize_whitespace: bool) -> (r: Self)
        ensures
            r.character_filter.enabled,
            r.character_filter.ascii_only == ascii_only,
            r.character_filter.normalize_whitespace == normalize_whitespace,
            r.character_filter.alphanumeric_only == self.character_filter.alphanumeric_only,
            r.character_filter.remove_line_breaks == self.character_filter.remove_line_breaks,
            r.enabled == self.enabled,
            r.length_filter == self.length_filter,
    {
        let mut c = self;
        c.character_filter.enabled = true;
        c.character_filter.ascii_only = ascii_only;
        c.character_filter.normalize_whitespace = normalize_whitespace;
        c
    }

    /// Turns the word filter on with the given words to remove.
    pub fn with_word_filter(self, remove_words: Vec<String>, case_sensitive: bool) -> (r: Self)
        ensures
            r.word_filter.enabled,
            r.word_filter.remove_words == Some(remove_words),
            r.word_filter.case_sensitive == case_sensitive,
            r.enabled == self.enabled,
            r.length_filter == self.length_filter,
    {
        let mut c = self;
        c.word_filter.enabled = true;
        c.word_filter.remove_words = Some(remove_words);
        c.word_filter.case_sensitive = case_sensitive;
        c
    }

    /// Turns the script filter on: CJK scripts are removed when asked (and
    /// otherwise left as they were), Arabic as given.
    pub fn with_language_filter(self, remove_cjk: bool, remove_arabic: bool) -> (r: Self)
        ensures
            r.language_filter.enabled,
            r.language_filter.remove_chinese == (remove_cjk || self.language_filter.remove_chinese),
            r.language_filter.remove_japanese == (remove_cjk || self.language_filter.remove_japanese),
            r.language_filter.remove_korean == (remove_cjk || self.language_filter.remove_korean),
            r.language_filter.remove_arabic == remove_arabic,
            r.language_filter.remove_cyrillic == self.language_filter.remove_cyrillic,
            r.enabled == self.enabled,
            r.length_filter == self.length_filter,
    {
        let mut c = self;
        c.language_filter.enabled = true;
        if remove_cjk {
            c.language_filter.remove_chinese = true;
            c.language_filter.remove_japanese = true;
            c.language_filter.remove_korean = true;
        }
        c.language_filter.remove_arabic = remove_arabic;
        c
    }
}

impl Default for CleaningConfig {
    fn default() -> (r: Self)
        ensures
            is_default_cleaning(r),
    {
        CleaningConfig {
            enabled: false,
            length_filter: LengthFilter::default(),
            character_filter: CharacterFilter::default(),
            word_filter: WordFilter::default(),
            language_filter: LanguageFilter::default(),
            custom_rules: None,
            preserve_formatting: true,
            allow_empty_result: false,
        }
    }
}

/// A configuration with cleaning off is always accepted.
pub proof fn lemma_disabled_config_valid(c: CleaningConfig)
    requires
        !c.enabled,
    ensures
        cleaning_config_error(c) is None,
{
}

} // verus!
