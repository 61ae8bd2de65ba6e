//! The text cleaner: runs the configured character, word, script and
//! length filters, the custom rules and whitespace normalization over a
//! text, and reports what changed.
use vstd::prelude::*;
use vstd::utf8::encode_utf8;
use crate::crawl_core::error::CrawlError;
use crate::patterns::{first_bad, first_invalid_pattern, regex_compile_error, regex_is_match, regex_matches};
use crate::processing::cleaning::config::{cleaning_config_error, CharacterFilter, CleaningConfig, LanguageFilter, LengthFilter, WordFilter};
use crate::processing::cleaning::rules::{by_priority_from, enabled_rules, first_rule_error, rules_applied, CleaningEngine, CleaningRule, RuleType};
use crate::text_util::{
    alphanumeric, chars_of, collapse_whitespace, collapse_ws, count_words, is_alphanumeric_char, is_whitespace_char,
    is_ws, join_with, joined_with, lowercase_of, push_char, split_char, split_seq, split_words, str_eq,
    string_from_chars, strings_view, to_lowercase, trim_seq, trim_str, word_count, words_of, decimal, u64_to_string,
    free_of, all_free, lemma_words_free, lemma_joined_free, lemma_split_free, lemma_collapse_free, lemma_trim_free,
};

verus! {

/// Some range holds the character's code point.
pub open spec fn in_ranges(rs: Seq<(u32, u32)>, c: char) -> bool {
    exists|i: int| 0 <= i < rs.len() && #[trigger] rs[i].0 <= (c as u32) && (c as u32) <= rs[i].1
}

/// The character filter keeps a character: it is not listed for removal,
/// not in a removed range, ASCII when only ASCII is kept, alphanumeric or
/// whitespace when only those are kept.
pub open spec fn char_kept(f: CharacterFilter, c: char) -> bool {
    &&& !(f.remove_characters matches Some(v) && v@.contains(c))
    &&& !(f.remove_unicode_ranges matches Some(v) && in_ranges(v@, c))
    &&& (!f.ascii_only || (c as u32) < 128)
    &&& (!f.alphanumeric_only || alphanumeric(c) || is_ws(c))
}

/// Line breaks become spaces when the filter removes them.
pub open spec fn char_mapped(f: CharacterFilter, c: char) -> char {
    if f.remove_line_breaks && (c == '\n' || c == '\r') { ' ' } else { c }
}

/// The text after the character filter.
pub open spec fn char_filtered(f: CharacterFilter, s: Seq<char>) -> Seq<char>
    decreases s.len(),
{
    if s.len() == 0 {
        Seq::empty()
    } else {
        let prev = char_filtered(f, s.drop_last());
        if char_kept(f, s.last()) { prev.push(char_mapped(f, s.last())) } else { prev }
    }
}

/// The script filter removes a character: a Chinese ideograph, Hiragana or
/// Katakana, a Hangul syllable, an Arabic or a Cyrillic letter, each when
/// that script is removed.
pub open spec fn script_removed(f: LanguageFilter, c: char) -> bool {
    let n = c as u32;
    ||| f.remove_chinese && 0x4e00 <= n <= 0x9fff
    ||| f.remove_japanese && (0x3040 <= n <= 0x309f || 0x30a0 <= n <= 0x30ff)
    ||| f.remove_korean && 0xac00 <= n <= 0xd7af
    ||| f.remove_arabic && 0x0600 <= n <= 0x06ff
    ||| f.remove_cyrillic && 0x0400 <= n <= 0x04ff
}

/// The text after the script filter.
pub open spec fn script_filtered(f: LanguageFilter, s: Seq<char>) -> Seq<char>
    decreases s.len(),
{
    if s.len() == 0 {
        Seq::empty()
    } else {
        let prev = script_filtered(f, s.drop_last());
        if script_removed(f, s.last()) { prev } else { prev.push(s.last()) }
    }
}

/// The listed word, compared as the filter compares words.
pub open spec fn listed_form(f: WordFilter, w: Seq<char>) -> Seq<char> {
    if f.case_sensitive { w } else { lowercase_of(w) }
}

/// The word filter removes a word: it is listed (ignoring case unless the
/// filter is case-sensitive), a removal pattern matches it, it holds an
/// ASCII digit when numeric words go, or a character that is not
/// alphanumeric when such words go.
pub open spec fn word_removed(f: WordFilter, w: Seq<char>) -> bool {
    ||| (f.remove_words matches Some(v) && exists|i: int| 0 <= i < v@.len() && #[trigger] listed_form(f, v@[i]@) == listed_form(f, w))
    ||| (f.remove_patterns matches Some(ps) && exists|j: int| 0 <= j < ps@.len() && #[trigger] regex_matches(ps@[j]@, w))
    ||| (f.remove_numeric_words && exists|k: int| 0 <= k < w.len() && '0' <= #[trigger] w[k] && w[k] <= '9')
    ||| (f.remove_special_char_words && exists|k: int| 0 <= k < w.len() && !alphanumeric(#[trigger] w[k]))
}

/// The words a predicate keeps, in order.
pub open spec fn words_kept(f: WordFilter, ws: Seq<Seq<char>>) -> Seq<Seq<char>>
    decreases ws.len(),
{
    if ws.len() == 0 {
        Seq::empty()
    } else {
        let prev = words_kept(f, ws.drop_last());
        if word_removed(f, ws.last()) { prev } else { prev.push(ws.last()) }
    }
}

/// The text after the word filter: the kept words joined by spaces.
pub open spec fn word_filtered(f: WordFilter, s: Seq<char>) -> Seq<char> {
    joined_with(words_kept(f, words_of(s)), " "@)
}

/// A size in bytes within optional bounds.
pub open spec fn within(n: usize, min: Option<usize>, max: Option<usize>) -> bool {
    (min matches Some(m) ==> n >= m) && (max matches Some(m) ==> n <= m)
}

/// The UTF-8 size of a text, as `str::len` gives it.
pub open spec fn byte_len(s: Seq<char>) -> usize {
    encode_utf8(s).len() as usize
}

pub open spec fn sized_words(f: LengthFilter, ws: Seq<Seq<char>>) -> Seq<Seq<char>>
    decreases ws.len(),
{
    if ws.len() == 0 {
        Seq::empty()
    } else {
        let prev = sized_words(f, ws.drop_last());
        if within(byte_len(ws.last()), f.min_word_length, f.max_word_length) { prev.push(ws.last()) } else { prev }
    }
}

pub open spec fn sized_sentences(f: LengthFilter, ss: Seq<Seq<char>>) -> Seq<Seq<char>>
    decreases ss.len(),
{
    if ss.len() == 0 {
        Seq::empty()
    } else {
        let prev = sized_sentences(f, ss.drop_last());
        if within(byte_len(trim_seq(ss.last())), f.min_sentence_length, f.max_sentence_length) {
            prev.push(ss.last())
        } else {
            prev
        }
    }
}

/// The text after the length filter: words outside the word-size bounds
/// are dropped (the rest joined by spaces); when sentence bounds are set,
/// the pieces between periods whose trimmed size is outside them are
/// dropped too (the rest joined by periods). Sizes are in bytes.
pub open spec fn length_filtered(f: LengthFilter, s: Seq<char>) -> Seq<char> {
    let t = joined_with(sized_words(f, words_of(s)), " "@);
    if f.min_sentence_length is Some || f.max_sentence_length is Some {
        joined_with(sized_sentences(f, split_seq(t, '.')), "."@)
    } else {
        t
    }
}

/// The cleaned text: the enabled filters in order (characters, words,
/// scripts, lengths), then the custom rules, then, when the character
/// filter normalizes whitespace, runs of whitespace collapsed to single
/// spaces and the ends trimmed.
pub open spec fn cleaned(c: CleaningConfig, custom: Option<Seq<CleaningRule>>, text: Seq<char>) -> Seq<char> {
    let t1 = if c.character_filter.enabled { char_filtered(c.character_filter, text) } else { text };
    let t2 = if c.word_filter.enabled { word_filtered(c.word_filter, t1) } else { t1 };
    let t3 = if c.language_filter.enabled { script_filtered(c.language_filter, t2) } else { t2 };
    let t4 = if c.length_filter.enabled { length_filtered(c.length_filter, t3) } else { t3 };
    let t5 = match custom {
        Some(rs) => rules_applied(rs, t4),
        None => t4,
    };
    if c.character_filter.normalize_whitespace { trim_seq(collapse_ws(t5)) } else { t5 }
}

/// The number of cleaning steps that run.
pub open spec fn operations(c: CleaningConfig, custom: Option<Seq<CleaningRule>>) -> nat {
    (if c.character_filter.enabled { 1nat } else { 0nat }) + (if c.word_filter.enabled { 1nat } else { 0nat })
        + (if c.language_filter.enabled { 1nat } else { 0nat }) + (if c.length_filter.enabled { 1nat } else { 0nat })
        + (if custom is Some { 1nat } else { 0nat })
}

/// Sizes and counts before and after cleaning. Sizes are in bytes; the
/// time is milliseconds.
#[derive(Debug, Clone, Copy, PartialEq, Eq, Structural)]
pub struct CleaningStats {
    pub original_chars: usize,
    pub cleaned_chars: usize,
    pub original_words: usize,
    pub cleaned_words: usize,
    pub operations_performed: usize,
    pub processing_time_ms: u64,
}

/// What cleaning made of a text.
#[derive(Debug)]
pub struct CleaningResult {
    pub original_text: String,
    pub cleaned_text: String,
    pub stats: CleaningStats,
    pub was_cleaned: bool,
}

/// Cleans texts by a configuration.
#[derive(Debug)]
pub struct TextCleaner {
    config: CleaningConfig,
    custom_engine: Option<CleaningEngine>,
}

fn char_filter_text(f: &CharacterFilter, text: &str) -> (r: String)
    ensures
        r@ == char_filtered(*f, text@),
{
    let v = chars_of(text);
    let mut out: Vec<char> = Vec::new();
    let mut i: usize = 0;
    proof {
        assert(v@.take(0) =~= Seq::<char>::empty());
    }
    while i < v.len()
        invariant
            v@ == text@,
            i <= v.len(),
            out@ == char_filtered(*f, v@.take(i as int)),
        decreases v.len() - i,
    {
        proof {
            assert(v@.take(i + 1).drop_last() =~= v@.take(i as int));
        }
        let c = v[i];
        let mut listed = false;
        match &f.remove_characters {
            Some(cs) => {
                let mut j: usize = 0;
                while j < cs.len()
                    invariant
                        j <= cs@.len(),
                        listed == exists|t: int| 0 <= t < j && #[trigger] cs@[t] == c,
                    decreases cs@.len() - j,
                {
                    if cs[j] == c {
                        listed = true;
                    }
                    j = j + 1;
                }
                proof {
                    if listed {
                        let t = choose|t: int| 0 <= t < cs@.len() && #[trigger] cs@[t] == c;
                        assert(cs@.contains(c));
                    } else {
                        assert(!cs@.contains(c));
                    }
                }
            },
            None => {},
        }
        let mut hit = false;
        match &f.remove_unicode_ranges {
            Some(rs) => {
                let code = c as u32;
                let mut j: usize = 0;
                while j < rs.len()
                    invariant
                        j <= rs@.len(),
                        code == c as u32,
                        hit == exists|t: int| 0 <= t < j && #[trigger] rs@[t].0 <= code && code <= rs@[t].1,
                    decreases rs@.len() - j,
                {
                    if rs[j].0 <= code && code <= rs[j].1 {
                        hit = true;
                    }
                    j = j + 1;
                }
            },
            None => {},
        }
        let not_ascii = f.ascii_only && (c as u32) >= 128;
        let not_alnum = f.alphanumeric_only && !(is_alphanumeric_char(c) || is_whitespace_char(c));
        let keep = !listed && !hit && !not_ascii && !not_alnum;
        proof {
            assert(keep == char_kept(*f, c));
            assert(v@.take(i + 1).last() == c);
        }
        if keep {
            let m = if f.remove_line_breaks && (c == '\n' || c == '\r') { ' ' } else { c };
            out.push(m);
        }
        i = i + 1;
    }
    proof {
        assert(v@.take(v@.len() as int) =~= v@);
    }
    string_from_chars(&out)
}

fn script_filter_text(f: &LanguageFilter, text: &str) -> (r: String)
    ensures
        r@ == script_filtered(*f, text@),
{
    let v = chars_of(text);
    let mut out: Vec<char> = Vec::new();
    let mut i: usize = 0;
    proof {
        assert(v@.take(0) =~= Seq::<char>::empty());
    }
    while i < v.len()
        invariant
            v@ == text@,
            i <= v.len(),
            out@ == script_filtered(*f, v@.take(i as int)),
        decreases v.len() - i,
    {
        proof {
            assert(v@.take(i + 1).drop_last() =~= v@.take(i as int));
        }
        let c = v[i];
        let n = c as u32;
        let removed = (f.remove_chinese && 0x4e00 <= n && n <= 0x9fff)
            || (f.remove_japanese && ((0x3040 <= n && n <= 0x309f) || (0x30a0 <= n && n <= 0x30ff)))
            || (f.remove_korean && 0xac00 <= n && n <= 0xd7af)
            || (f.remove_arabic && 0x0600 <= n && n <= 0x06ff)
            || (f.remove_cyrillic && 0x0400 <= n && n <= 0x04ff);
        if !removed {
            out.push(c);
        }
        i = i + 1;
    }
    proof {
        assert(v@.take(v@.len() as int) =~= v@);
    }
    string_from_chars(&out)
}

fn word_is_removed(f: &WordFilter, w: &str) -> (r: bool)
    requires
        f.remove_patterns matches Some(ps) ==> first_bad(ps@) is None,
    ensures
        r == word_removed(*f, w@),
{
    let check = if f.case_sensitive { w.to_string() } else { to_lowercase(w) };
    let mut listed = false;
    match &f.remove_words {
        Some(v) => {
            let mut i: usize = 0;
            while i < v.len()
                invariant
                    i <= v@.len(),
                    check@ == listed_form(*f, w@),
                    listed == exists|t: int| 0 <= t < i && #[trigger] listed_form(*f, v@[t]@) == listed_form(*f, w@),
                decreases v@.len() - i,
            {
                let form = if f.case_sensitive { v[i].clone() } else { to_lowercase(v[i].as_str()) };
                proof {
                    assert(form@ == listed_form(*f, v@[i as int]@));
                }
                if str_eq(form.as_str(), check.as_str()) {
                    listed = true;
                }
                i = i + 1;
            }
        },
        None => {},
    }
    if listed {
        return true;
    }
    proof {
        assert(!(f.remove_words matches Some(v) && exists|i: int| 0 <= i < v@.len() && #[trigger] listed_form(*f, v@[i]@) == listed_form(*f, w@)));
    }
    match &f.remove_patterns {
        Some(ps) => {
            let mut j: usize = 0;
            while j < ps.len()
                invariant
                    j <= ps@.len(),
                    f.remove_patterns matches Some(q) && q@ == ps@,
                    first_bad(ps@) is None,
                    forall|t: int| 0 <= t < j ==> !regex_matches(#[trigger] ps@[t]@, w@),
                decreases ps@.len() - j,
            {
                proof {
                    lemma_first_bad_none(ps@, j as int);
                }
                if regex_is_match(ps[j].as_str(), w) {
                    proof {
                        assert(regex_matches(ps@[j as int]@, w@));
                    }
                    return true;
                }
                j = j + 1;
            }
        },
        None => {},
    }
    let v = chars_of(w);
    if f.remove_numeric_words {
        let mut k: usize = 0;
        while k < v.len()
            invariant
                v@ == w@,
                k <= v@.len(),
                f.remove_numeric_words,
                forall|t: int| 0 <= t < k ==> !('0' <= #[trigger] v@[t] && v@[t] <= '9'),
            decreases v@.len() - k,
        {
            if '0' <= v[k] && v[k] <= '9' {
                proof {
                    assert('0' <= w@[k as int] && w@[k as int] <= '9');
                }
                return true;
            }
            k = k + 1;
        }
    }
    if f.remove_special_char_words {
        let mut k: usize = 0;
        while k < v.len()
            invariant
                v@ == w@,
                k <= v@.len(),
                f.remove_special_char_words,
                forall|t: int| 0 <= t < k ==> alphanumeric(#[trigger] v@[t]),
            decreases v@.len() - k,
        {
            if !is_alphanumeric_char(v[k]) {
                proof {
                    assert(!alphanumeric(w@[k as int]));
                }
                return true;
            }
            k = k + 1;
        }
    }
    false
}

/// A list with no bad pattern compiles at every position.
proof fn lemma_first_bad_none(ps: Seq<String>, j: int)
    requires
        first_bad(ps) is None,
        0 <= j < ps.len(),
    ensures
        regex_compile_error(ps[j]@) is None,
    decreases ps.len(),
{
    if j > 0 {
        lemma_first_bad_none(ps.drop_first(), j - 1);
    }
}

fn word_filter_text(f: &WordFilter, text: &str) -> (r: String)
    requires
        f.remove_patterns matches Some(ps) ==> first_bad(ps@) is None,
    ensures
        r@ == word_filtered(*f, text@),
{
    let words = split_words(text);
    let ghost ws = words_of(text@);
    let mut kept: Vec<String> = Vec::new();
    let mut i: usize = 0;
    proof {
        assert(ws.take(0) =~= Seq::<Seq<char>>::empty());
        assert(strings_view(kept@) =~= Seq::<Seq<char>>::empty());
    }
    while i < words.len()
        invariant
            strings_view(words@) == ws,
            i <= words@.len(),
            f.remove_patterns matches Some(ps) ==> first_bad(ps@) is None,
            strings_view(kept@) == words_kept(*f, ws.take(i as int)),
        decreases words@.len() - i,
    {
        proof {
            assert(ws.take(i + 1).drop_last() =~= ws.take(i as int));
            assert(ws.take(i + 1).last() == words@[i as int]@);
        }
        if !word_is_removed(f, words[i].as_str()) {
            let ghost k0 = strings_view(kept@);
            kept.push(words[i].clone());
            proof {
                assert(strings_view(kept@) =~= k0.push(kept@.last()@));
            }
        }
        i = i + 1;
    }
    proof {
        assert(ws.take(words@.len() as int) =~= ws);
    }
    proof {
        reveal_strlit(" ");
    }
    join_with(&kept, " ")
}

fn length_filter_text(f: &LengthFilter, text: &str) -> (r: String)
    ensures
        r@ == length_filtered(*f, text@),
{
    let words = split_words(text);
    let ghost ws = words_of(text@);
    let mut kept: Vec<String> = Vec::new();
    let mut i: usize = 0;
    proof {
        assert(ws.take(0) =~= Seq::<Seq<char>>::empty());
        assert(strings_view(kept@) =~= Seq::<Seq<char>>::empty());
        reveal_strlit(" ");
        reveal_strlit(".");
    }
    while i < words.len()
        invariant
            strings_view(words@) == ws,
            i <= words@.len(),
            strings_view(kept@) == sized_words(*f, ws.take(i as int)),
        decreases words@.len() - i,
    {
        proof {
            assert(ws.take(i + 1).drop_last() =~= ws.take(i as int));
            assert(ws.take(i + 1).last() == words@[i as int]@);
        }
        let n = words[i].as_str().len();
        let ok = match f.min_word_length {
            Some(m) => n >= m,
            None => true,
        } && match f.max_word_length {
            Some(m) => n <= m,
            None => true,
        };
        if ok {
            let ghost k0 = strings_view(kept@);
            kept.push(words[i].clone());
            proof {
                assert(strings_view(kept@) =~= k0.push(kept@.last()@));
            }
        }
        i = i + 1;
    }
    proof {
        assert(ws.take(words@.len() as int) =~= ws);
    }
    let joined = join_with(&kept, " ");
    if f.min_sentence_length.is_none() && f.max_sentence_length.is_none() {
        return joined;
    }
    let pieces = split_char(joined.as_str(), '.');
    let ghost ps = split_seq(joined@, '.');
    let mut good: Vec<String> = Vec::new();
    let mut j: usize = 0;
    proof {
        assert(ps.take(0) =~= Seq::<Seq<char>>::empty());
        assert(strings_view(good@) =~= Seq::<Seq<char>>::empty());
    }
    while j < pieces.len()
        invariant
            strings_view(pieces@) == ps,
            j <= pieces@.len(),
            strings_view(good@) == sized_sentences(*f, ps.take(j as int)),
        decreases pieces@.len() - j,
    {
        proof {
            assert(ps.take(j + 1).drop_last() =~= ps.take(j as int));
            assert(ps.take(j + 1).last() == pieces@[j as int]@);
        }
        let t = trim_str(pieces[j].as_str());
        let n = t.as_str().len();
        let ok = match f.min_sentence_length {
            Some(m) => n >= m,
            None => true,
        } && match f.max_sentence_length {
            Some(m) => n <= m,
            None => true,
        };
        if ok {
            let ghost g0 = strings_view(good@);
            good.push(pieces[j].clone());
            proof {
                assert(strings_view(good@) =~= g0.push(good@.last()@));
            }
        }
        j = j + 1;
    }
    proof {
        assert(ps.take(pieces@.len() as int) =~= ps);
    }
    join_with(&good, ".")
}

/// A custom rule as written: `remove:pattern` or
/// `replace:pattern:replacement`.
pub enum CustomRuleSpec {
    Remove(Seq<char>),
    Replace(Seq<char>, Seq<char>),
}

/// How a custom rule text reads, if it is well-formed.
pub open spec fn parse_custom_rule(text: Seq<char>) -> Option<CustomRuleSpec> {
    let parts = split_seq(text, ':');
    if parts.len() == 2 && parts[0] == "remove"@ {
        Some(CustomRuleSpec::Remove(parts[1]))
    } else if parts.len() == 3 && parts[0] == "replace"@ {
        Some(CustomRuleSpec::Replace(parts[1], parts[2]))
    } else {
        None
    }
}

/// The first custom rule text that is not well-formed.
pub open spec fn first_malformed(rules: Seq<String>) -> Option<Seq<char>>
    decreases rules.len(),
{
    if rules.len() == 0 {
        None
    } else if parse_custom_rule(rules[0]@) is None {
        Some(rules[0]@)
    } else {
        first_malformed(rules.drop_first())
    }
}

/// The rule made from the `i`-th custom rule text: named `custom_i`,
/// enabled, of priority 50.
pub open spec fn is_custom_rule(r: CleaningRule, i: nat, p: CustomRuleSpec) -> bool {
    &&& r.name@ == "custom_"@ + decimal(i)
    &&& r.enabled
    &&& r.priority == 50
    &&& match p {
        CustomRuleSpec::Remove(pat) => r.rule_type == RuleType::Remove && r.pattern@ == pat && r.replacement is None,
        CustomRuleSpec::Replace(pat, rep) => r.rule_type == RuleType::Replace && r.pattern@ == pat
            && (r.replacement matches Some(x) && x@ == rep),
    }
}

/// `rv` holds the rules made from the custom rule texts, in order.
pub open spec fn custom_rules_from(rv: Seq<CleaningRule>, texts: Seq<String>) -> bool {
    &&& rv.len() == texts.len()
    &&& forall|i: int| 0 <= i < texts.len() ==> (parse_custom_rule(#[trigger] texts[i]@) matches Some(p)
        && is_custom_rule(rv[i], i as nat, p))
}

/// The message a malformed custom rule is refused with.
pub open spec fn malformed_message(t: Seq<char>) -> Seq<char> {
    "Invalid custom rule format: '"@ + t + "'. Use 'remove:pattern' or 'replace:pattern:replacement'"@
}

impl TextCleaner {
    /// The rules of the custom engine, when there is one.
    pub closed spec fn custom_rules(&self) -> Option<Seq<CleaningRule>> {
        match self.custom_engine {
            Some(e) => Some(e.rules()),
            None => None,
        }
    }

    pub closed spec fn config_spec(&self) -> CleaningConfig {
        self.config
    }

    /// The engine's rules compile, it exists exactly when custom rules
    /// are configured, and the word patterns compile when the word filter
    /// is on.
    pub closed spec fn wf(&self) -> bool {
        &&& (self.custom_engine matches Some(e) ==> e.wf())
        &&& (self.custom_engine is Some <==> self.config.custom_rules is Some)
        &&& (self.config.word_filter.enabled ==> (self.config.word_filter.remove_patterns matches Some(ps)
            ==> first_bad(ps@) is None))
    }

    /// A cleaner for a configuration: the configuration must pass
    /// `validate`, every custom rule text must be well-formed, the rules
    /// made from them must be accepted by `CleaningEngine::new`, and the
    /// word patterns must compile when the word filter is on.
    pub fn new(config: CleaningConfig) -> (r: Result<TextCleaner, CrawlError>)
        ensures
            cleaning_config_error(config) matches Some(m) ==> (r matches Err(CrawlError::CleaningConfigError(s)) && s@ == m),
            cleaning_config_error(config) is None ==> (config.custom_rules matches Some(rs) ==> (first_malformed(rs@) matches Some(t)
                ==> (r matches Err(CrawlError::CleaningConfigError(s)) && s@ == malformed_message(t)))),
            r matches Ok(tc) ==> {
                &&& tc.wf()
                &&& tc.config_spec() == config
                &&& cleaning_config_error(config) is None
                &&& match config.custom_rules {
                    Some(rs) => exists|rv: Seq<CleaningRule>| custom_rules_from(rv, rs@)
                        && tc.custom_rules() == Some(enabled_rules(by_priority_from(rv, 0)))
                        && first_rule_error(enabled_rules(by_priority_from(rv, 0))) is None,
                    None => tc.custom_rules() is None,
                }
                &&& (config.word_filter.enabled ==> (config.word_filter.remove_patterns matches Some(ps) ==> first_bad(ps@) is None))
            },
            r matches Err(CrawlError::CleaningRuleError(m)) ==> (config.custom_rules matches Some(rs) && exists|rv: Seq<CleaningRule>|
                custom_rules_from(rv, rs@) && first_rule_error(enabled_rules(by_priority_from(rv, 0))) == Some(m@)),
    {
        match config.validate() {
            Err(e) => return Err(e),
            Ok(()) => {},
        }
        proof {
            reveal_strlit("remove");
            reveal_strlit("replace");
            reveal_strlit("custom_");
            reveal_strlit("Invalid custom rule format: '");
            reveal_strlit("'. Use 'remove:pattern' or 'replace:pattern:replacement'");
            reveal_strlit("Failed to compile word pattern: ");
        }
        let custom_engine = match &config.custom_rules {
            Some(texts) => {
                let mut rules: Vec<CleaningRule> = Vec::new();
                let mut i: usize = 0;
                proof {
                    assert(texts@.skip(0) =~= texts@);
                }
                while i < texts.len()
                    invariant
                        cleaning_config_error(config) is None,
                        config.custom_rules matches Some(q) && q@ == texts@,
                        i <= texts@.len(),
                        rules@.len() == i,
                        first_malformed(texts@) == first_malformed(texts@.skip(i as int)),
                        forall|j: int| 0 <= j < i ==> (parse_custom_rule(#[trigger] texts@[j]@) matches Some(p)
                            && is_custom_rule(rules@[j], j as nat, p)),
                    decreases texts@.len() - i,
                {
                    proof {
                        assert(texts@.skip(i as int).drop_first() =~= texts@.skip(i + 1));
                        assert(texts@.skip(i as int)[0] == texts@[i as int]);
                    }
                    let parts = split_char(texts[i].as_str(), ':');
                    let mut name = "custom_".to_string();
                    let num = u64_to_string(i as u64);
                    name.append(num.as_str());
                    let rule = if parts.len() == 2 && str_eq(parts[0].as_str(), "remove") {
                        CleaningRule::remove(name.as_str(), parts[1].as_str())
                    } else if parts.len() == 3 && str_eq(parts[0].as_str(), "replace") {
                        CleaningRule::replace(name.as_str(), parts[1].as_str(), parts[2].as_str())
                    } else {
                        let mut m = "Invalid custom rule format: '".to_string();
                        m.append(texts[i].as_str());
                        m.append("'. Use 'remove:pattern' or 'replace:pattern:replacement'");
                        return Err(CrawlError::CleaningConfigError(m));
                    };
                    let ghost r0 = rules@;
                    rules.push(rule);
                    proof {
                        assert forall|j: int| 0 <= j < i + 1 implies (parse_custom_rule(#[trigger] texts@[j]@) matches Some(p)
                            && is_custom_rule(rules@[j], j as nat, p)) by {
                            if j < i {
                                assert(rules@[j] == r0[j]);
                            }
                        }
                    }
                    i = i + 1;
                }
                proof {
                    assert(custom_rules_from(rules@, texts@));
                }
                let ghost rv = rules@;
                match CleaningEngine::new(rules) {
                    Ok(e) => Some(e),
                    Err(err) => {
                        return Err(err);
                    },
                }
            },
            None => None,
        };
        if config.word_filter.enabled {
            match &config.word_filter.remove_patterns {
                Some(ps) => {
                    match first_invalid_pattern(ps) {
                        Some((_, e)) => {
                            let mut m = "Failed to compile word pattern: ".to_string();
                            m.append(e.as_str());
                            return Err(CrawlError::CleaningConfigError(m));
                        },
                        None => {},
                    }
                },
                None => {},
            }
        }
        Ok(TextCleaner { config, custom_engine })
    }
}

/// What `clean_text` gives for a text: when cleaning is off, the text
/// unchanged and not marked cleaned; otherwise the cleaned text (see
/// `cleaned`), refused when it is blank and empty results are not allowed.
pub open spec fn clean_outcome(c: CleaningConfig, custom: Option<Seq<CleaningRule>>, text: Seq<char>, r: Result<CleaningResult, CrawlError>) -> bool {
    let should = c.enabled && (c.length_filter.enabled || c.character_filter.enabled || c.word_filter.enabled
        || c.language_filter.enabled || c.custom_rules is Some);
    if !should {
        r matches Ok(res) && res.original_text@ == text && res.cleaned_text@ == text && !res.was_cleaned
            && res.stats == (CleaningStats {
                original_chars: 0,
                cleaned_chars: 0,
                original_words: 0,
                cleaned_words: 0,
                operations_performed: 0,
                processing_time_ms: 0,
            })
    } else {
        let out = cleaned(c, custom, text);
        if trim_seq(out).len() == 0 && !c.allow_empty_result {
            r matches Err(CrawlError::CleaningRuleError(m)) && m@ == "Text cleaning resulted in empty content"@
        } else {
            r matches Ok(res) && res.original_text@ == text && res.cleaned_text@ == out && res.was_cleaned
                && res.stats.original_chars == byte_len(text) && res.stats.cleaned_chars == byte_len(out)
                && res.stats.original_words == words_of(text).len() && res.stats.cleaned_words == words_of(out).len()
                && res.stats.operations_performed == operations(c, custom)
        }
    }
}

impl TextCleaner {
    /// Cleans a text (see `clean_outcome`); the time taken is measured
    /// with the clock.
    pub fn clean_text(&self, text: &str) -> (r: Result<CleaningResult, CrawlError>)
        requires
            self.wf(),
        ensures
            clean_outcome(self.config_spec(), self.custom_rules(), text@, r),
    {
        if !self.config.should_clean() {
            return Ok(CleaningResult {
                original_text: text.to_string(),
                cleaned_text: text.to_string(),
                stats: CleaningStats {
                    original_chars: 0,
                    cleaned_chars: 0,
                    original_words: 0,
                    cleaned_words: 0,
                    operations_performed: 0,
                    processing_time_ms: 0,
                },
                was_cleaned: false,
            });
        }
        let start = crate::common::now_millis();
        let mut t = text.to_string();
        let mut ops: usize = 0;
        let original_chars = text.len();
        let original_words = split_words(text).len();
        if self.config.character_filter.enabled {
            t = char_filter_text(&self.config.character_filter, t.as_str());
            ops = ops + 1;
        }
        if self.config.word_filter.enabled {
            t = word_filter_text(&self.config.word_filter, t.as_str());
            ops = ops + 1;
        }
        if self.config.language_filter.enabled {
            t = script_filter_text(&self.config.language_filter, t.as_str());
            ops = ops + 1;
        }
        if self.config.length_filter.enabled {
            t = length_filter_text(&self.config.length_filter, t.as_str());
            ops = ops + 1;
        }
        match &self.custom_engine {
            Some(engine) => {
                t = engine.apply_rules(t.as_str());
                ops = ops + 1;
            },
            None => {},
        }
        if self.config.character_filter.normalize_whitespace {
            let collapsed = collapse_whitespace(t.as_str());
            t = trim_str(collapsed.as_str());
        }
        proof {
            reveal_strlit("Text cleaning resulted in empty content");
        }
        let trimmed = trim_str(t.as_str());
        if trimmed.unicode_len() == 0 && !self.config.allow_empty_result {
            return Err(CrawlError::CleaningRuleError("Text cleaning resulted in empty content".to_string()));
        }
        let cleaned_chars = t.as_str().len();
        let cleaned_words = split_words(t.as_str()).len();
        let end = crate::common::now_millis();
        let elapsed = if end >= start { end - start } else { 0 };
        Ok(CleaningResult {
            original_text: text.to_string(),
            cleaned_text: t,
            stats: CleaningStats {
                original_chars,
                cleaned_chars,
                original_words,
                cleaned_words,
                operations_performed: ops,
                processing_time_ms: elapsed,
            },
            was_cleaned: true,
        })
    }

    /// The configuration the cleaner runs.
    pub fn config(&self) -> (r: &CleaningConfig)
        ensures
            *r == self.config_spec(),
    {
        &self.config
    }
}

/// A code point range the language filter is set to remove: CJK
/// ideographs U+4E00..=U+9FFF, Hiragana U+3040..=U+309F, Katakana
/// U+30A0..=U+30FF, Hangul syllables U+AC00..=U+D7AF, Arabic
/// U+0600..=U+06FF, Cyrillic U+0400..=U+04FF.
pub open spec fn removed_script_range(f: LanguageFilter, lo: u32, hi: u32) -> bool {
    ||| f.remove_chinese && lo == 0x4e00 && hi == 0x9fff
    ||| f.remove_japanese && lo == 0x3040 && hi == 0x309f
    ||| f.remove_japanese && lo == 0x30a0 && hi == 0x30ff
    ||| f.remove_korean && lo == 0xac00 && hi == 0xd7af
    ||| f.remove_arabic && lo == 0x0600 && hi == 0x06ff
    ||| f.remove_cyrillic && lo == 0x0400 && hi == 0x04ff
}

/// The script filter leaves no character of a script it removes.
pub proof fn lemma_script_filter_removes(f: LanguageFilter, s: Seq<char>, lo: u32, hi: u32)
    requires
        removed_script_range(f, lo, hi),
    ensures
        free_of(script_filtered(f, s), lo, hi),
    decreases s.len(),
{
    if s.len() > 0 {
        lemma_script_filter_removes(f, s.drop_last(), lo, hi);
        let a = script_filtered(f, s.drop_last());
        if !script_removed(f, s.last()) {
            let r = a.push(s.last());
            assert forall|k: int| 0 <= k < r.len() implies !(lo <= (#[trigger] r[k]) as u32 && (r[k] as u32) <= hi) by {
                if k < a.len() {
                    assert(r[k] == a[k]);
                }
            }
        }
    }
}

proof fn lemma_sized_words_free(f: LengthFilter, ws: Seq<Seq<char>>, lo: u32, hi: u32)
    requires
        all_free(ws, lo, hi),
    ensures
        all_free(sized_words(f, ws), lo, hi),
    decreases ws.len(),
{
    if ws.len() > 0 {
        let p = ws.drop_last();
        assert(all_free(p, lo, hi)) by {
            assert forall|i: int| 0 <= i < p.len() implies free_of(#[trigger] p[i], lo, hi) by {
                assert(p[i] == ws[i]);
            }
        }
        lemma_sized_words_free(f, p, lo, hi);
        let a = sized_words(f, p);
        let r = a.push(ws.last());
        assert(free_of(ws[ws.len() - 1], lo, hi));
        assert forall|i: int| 0 <= i < r.len() implies free_of(#[trigger] r[i], lo, hi) by {
            if i < a.len() {
                assert(r[i] == a[i]);
            }
        }
    }
}

proof fn lemma_sized_sentences_free(f: LengthFilter, ss: Seq<Seq<char>>, lo: u32, hi: u32)
    requires
        all_free(ss, lo, hi),
    ensures
        all_free(sized_sentences(f, ss), lo, hi),
    decreases ss.len(),
{
    if ss.len() > 0 {
        let p = ss.drop_last();
        assert(all_free(p, lo, hi)) by {
            assert forall|i: int| 0 <= i < p.len() implies free_of(#[trigger] p[i], lo, hi) by {
                assert(p[i] == ss[i]);
            }
        }
        lemma_sized_sentences_free(f, p, lo, hi);
        let a = sized_sentences(f, p);
        let r = a.push(ss.last());
        assert(free_of(ss[ss.len() - 1], lo, hi));
        assert forall|i: int| 0 <= i < r.len() implies free_of(#[trigger] r[i], lo, hi) by {
            if i < a.len() {
                assert(r[i] == a[i]);
            }
        }
    }
}

/// The length filter only drops words and sentences: it adds no character
/// but spaces and periods.
proof fn lemma_length_filter_free(f: LengthFilter, s: Seq<char>, lo: u32, hi: u32)
    requires
        free_of(s, lo, hi),
        lo > 0x2e,
    ensures
        free_of(length_filtered(f, s), lo, hi),
{
    lemma_words_free(s, lo, hi);
    lemma_sized_words_free(f, words_of(s), lo, hi);
    assert(free_of(" "@, lo, hi)) by {
        reveal_strlit(" ");
        assert(" "@[0] == ' ');
    }
    assert(free_of("."@, lo, hi)) by {
        reveal_strlit(".");
        assert("."@[0] == '.');
    }
    let t = joined_with(sized_words(f, words_of(s)), " "@);
    lemma_joined_free(sized_words(f, words_of(s)), " "@, lo, hi);
    lemma_split_free(t, '.', lo, hi);
    lemma_sized_sentences_free(f, split_seq(t, '.'), lo, hi);
    lemma_joined_free(sized_sentences(f, split_seq(t, '.')), "."@, lo, hi);
}

/// With the language filter on and no custom rules, no character of a
/// script that the filter removes survives cleaning: the later steps
/// (length filter, whitespace normalization) add only spaces and periods.
pub proof fn lemma_removed_script_absent(c: CleaningConfig, text: Seq<char>, lo: u32, hi: u32)
    requires
        c.language_filter.enabled,
        removed_script_range(c.language_filter, lo, hi),
    ensures
        free_of(cleaned(c, None, text), lo, hi),
{
    let t1 = if c.character_filter.enabled { char_filtered(c.character_filter, text) } else { text };
    let t2 = if c.word_filter.enabled { word_filtered(c.word_filter, t1) } else { t1 };
    let t3 = script_filtered(c.language_filter, t2);
    lemma_script_filter_removes(c.language_filter, t2, lo, hi);
    let t4 = if c.length_filter.enabled { length_filtered(c.length_filter, t3) } else { t3 };
    if c.length_filter.enabled {
        lemma_length_filter_free(c.length_filter, t3, lo, hi);
    }
    if c.character_filter.normalize_whitespace {
        lemma_collapse_free(t4, lo, hi);
        lemma_trim_free(collapse_ws(t4), lo, hi);
    }
}

/// With the language filter on and Arabic removed, and no custom rules,
/// no character in U+0600..=U+06FF survives cleaning.
pub proof fn lemma_arabic_removed(c: CleaningConfig, text: Seq<char>)
    requires
        c.language_filter.enabled,
        c.language_filter.remove_arabic,
    ensures
        free_of(cleaned(c, None, text), 0x0600, 0x06ff),
{
    lemma_removed_script_absent(c, text, 0x0600, 0x06ff);
}

/// What `clean_text` hands back, when cleaning is on with the language
/// filter removing Arabic and no custom rules, holds no character in
/// U+0600..=U+06FF.
pub proof fn lemma_clean_text_removes_arabic(c: CleaningConfig, text: Seq<char>, r: Result<CleaningResult, CrawlError>)
    requires
        c.enabled,
        c.language_filter.enabled,
        c.language_filter.remove_arabic,
        clean_outcome(c, None, text, r),
    ensures
        r matches Ok(res) ==> free_of(res.cleaned_text@, 0x0600, 0x06ff),
{
    lemma_arabic_removed(c, text);
}

} // verus!