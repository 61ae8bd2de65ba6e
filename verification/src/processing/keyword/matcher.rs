//! Finding keywords in content: where each keyword occurs (by byte offset,
//! as `str::find` reports it), the text around each occurrence, and the
//! decision whether the content matches.
use vstd::prelude::*;
use vstd::utf8::{decode_utf8, is_char_boundary};
use crate::byte_text::{bytes_of, byte_slice, candidates_from, candidate_offsets, occurrence_offsets, occurrences_from};
use crate::crawl_core::error::CrawlError;
use crate::patterns::{first_bad, lemma_no_bad_pattern, match_spans, regex_compile_error, regex_match_spans, spans_view};
use crate::processing::keyword::config::{keyword_config_error, normalized_view, KeywordConfig, KeywordMode, KeywordOptions};
use crate::text_util::{alphanumeric, chars_of, clone_strings, concat_str, is_alphanumeric_char, lowercase_of, str_eq, strings_view, to_lowercase};
use crate::web_url::opt_text;

verus! {

/// One occurrence of a keyword.
#[derive(Debug)]
pub struct MatchInfo {
    /// The keyword found.
    pub keyword: String,
    /// Byte offset of the occurrence.
    pub position: usize,
    /// Byte length of the occurrence.
    pub length: usize,
    /// The text around the occurrence, when contexts are kept.
    pub context: Option<String>,
}

pub struct MatchInfoView {
    pub keyword: Seq<char>,
    pub position: int,
    pub length: int,
    pub context: Option<Seq<char>>,
}

impl View for MatchInfo {
    type V = MatchInfoView;

    open spec fn view(&self) -> MatchInfoView {
        MatchInfoView {
            keyword: self.keyword@,
            position: self.position as int,
            length: self.length as int,
            context: opt_text(self.context),
        }
    }
}

pub open spec fn infos_view(v: Seq<MatchInfo>) -> Seq<MatchInfoView> {
    v.map_values(|m: MatchInfo| m@)
}

/// Figures about a match: the content's length in bytes, the number of
/// configured keywords, and the keyword found most often.
#[derive(Debug)]
pub struct MatchStats {
    pub total_chars: usize,
    pub keyword_total: usize,
    pub most_frequent_keyword: Option<String>,
}

/// The outcome of matching keywords against content.
#[derive(Debug)]
pub struct MatchResult {
    pub found: bool,
    pub match_count: usize,
    pub matches: Vec<MatchInfo>,
    /// The distinct keywords found, in the order of their first occurrence
    /// in `matches`.
    pub matched_keywords: Vec<String>,
    pub stats: MatchStats,
}

/// Nothing found, with empty statistics.
pub open spec fn is_empty_result(m: MatchResult) -> bool {
    &&& !m.found
    &&& m.match_count == 0
    &&& m.matches@.len() == 0
    &&& m.matched_keywords@.len() == 0
    &&& m.stats.total_chars == 0
    &&& m.stats.keyword_total == 0
    &&& m.stats.most_frequent_keyword is None
}

impl Default for MatchResult {
    fn default() -> (r: Self)
        ensures
            is_empty_result(r),
    {
        MatchResult {
            found: false,
            match_count: 0,
            matches: Vec::new(),
            matched_keywords: Vec::new(),
            stats: MatchStats { total_chars: 0, keyword_total: 0, most_frequent_keyword: None },
        }
    }
}

/// Where the context of an occurrence at byte offset `p` of `len` bytes
/// starts and ends: `context_window` bytes before and after it, within the
/// text.
pub open spec fn context_start(o: KeywordOptions, p: int) -> int {
    if p >= o.context_window { p - o.context_window } else { 0 }
}

pub open spec fn context_end(o: KeywordOptions, b: Seq<u8>, p: int, len: int) -> int {
    if b.len() < p + len + o.context_window { b.len() as int } else { p + len + o.context_window }
}

/// The context can be cut from the text: its ends (and, when highlighting,
/// the occurrence's ends) are character boundaries in order, and the
/// window's end fits in a `usize`.
pub open spec fn context_cuttable(o: KeywordOptions, text: Seq<char>, p: int, len: int) -> bool {
    let b = bytes_of(text);
    let start = context_start(o, p);
    let end = context_end(o, b, p, len);
    &&& p + len + o.context_window <= usize::MAX
    &&& start <= end
    &&& is_char_boundary(b, start)
    &&& is_char_boundary(b, end)
    &&& o.highlight_matches ==> (p + len <= end && is_char_boundary(b, p) && is_char_boundary(b, p + len))
}

/// The text around an occurrence; with highlighting, the occurrence is
/// wrapped in `**`.
pub open spec fn context_of(o: KeywordOptions, text: Seq<char>, p: int, len: int) -> Seq<char> {
    let b = bytes_of(text);
    let start = context_start(o, p);
    let end = context_end(o, b, p, len);
    if o.highlight_matches {
        decode_utf8(b.subrange(start, p)) + "**"@ + decode_utf8(b.subrange(p, p + len)) + "**"@ + decode_utf8(
            b.subrange(p + len, end),
        )
    } else {
        decode_utf8(b.subrange(start, end))
    }
}

/// An occurrence can be recorded: its context, when kept, can be cut.
pub open spec fn hit_ok(c: KeywordConfig, text: Seq<char>, p: int, len: int) -> bool {
    c.options.include_context ==> context_cuttable(c.options, text, p, len)
}

/// The record of an occurrence of keyword `k`.
pub open spec fn hit(c: KeywordConfig, text: Seq<char>, k: Seq<char>, p: int, len: int) -> MatchInfoView {
    MatchInfoView {
        keyword: k,
        position: p,
        length: len,
        context: if c.options.include_context { Some(context_of(c.options, text, p, len)) } else { None },
    }
}

/// The records of the occurrences at `ps` of keyword `k` of `len` bytes,
/// or `None` when one of them cannot be recorded.
pub open spec fn hits_scan(c: KeywordConfig, text: Seq<char>, k: Seq<char>, len: int, ps: Seq<int>) -> Option<
    Seq<MatchInfoView>,
>
    decreases ps.len(),
{
    if ps.len() == 0 {
        Some(Seq::empty())
    } else {
        match hits_scan(c, text, k, len, ps.drop_last()) {
            Some(prev) => if hit_ok(c, text, ps.last(), len) {
                Some(prev.push(hit(c, text, k, ps.last(), len)))
            } else {
                None
            },
            None => None,
        }
    }
}

/// The records of the regular-expression matches at `spans` for pattern
/// `k`, or `None` when one of them cannot be recorded.
pub open spec fn spans_scan(c: KeywordConfig, text: Seq<char>, k: Seq<char>, spans: Seq<(int, int)>) -> Option<
    Seq<MatchInfoView>,
>
    decreases spans.len(),
{
    if spans.len() == 0 {
        Some(Seq::empty())
    } else {
        match spans_scan(c, text, k, spans.drop_last()) {
            Some(prev) => {
                let (a, b) = spans.last();
                if hit_ok(c, text, a, b - a) {
                    Some(prev.push(hit(c, text, k, a, b - a)))
                } else {
                    None
                }
            },
            None => None,
        }
    }
}

/// What exact matching reads around a candidate at byte offset `p`: the
/// search resumes one byte further, which must be a character boundary,
/// and the characters at index `p - 1` and `p + len` (a byte offset used as
/// a character index) are looked up where the checks need them.
pub open spec fn probe_ok(text: Seq<char>, p: int, len: int) -> bool {
    let n = bytes_of(text).len();
    &&& is_char_boundary(bytes_of(text), p + 1)
    &&& (p == 0 || p - 1 < text.len())
    &&& (p + len >= n || p + len < text.len())
}

/// The candidate stands as a word: no alphanumeric character just before
/// or just after it (as exact matching looks them up).
pub open spec fn word_bounded(text: Seq<char>, p: int, len: int) -> bool {
    &&& (p == 0 || !alphanumeric(text[p - 1]))
    &&& (p + len >= bytes_of(text).len() || !alphanumeric(text[p + len]))
}

/// The records of the candidates at `ps` that stand as words, or `None`
/// when a candidate cannot be examined or recorded.
pub open spec fn exact_scan(c: KeywordConfig, text: Seq<char>, k: Seq<char>, len: int, ps: Seq<int>) -> Option<
    Seq<MatchInfoView>,
>
    decreases ps.len(),
{
    if ps.len() == 0 {
        Some(Seq::empty())
    } else {
        match exact_scan(c, text, k, len, ps.drop_last()) {
            Some(prev) => {
                let p = ps.last();
                if !probe_ok(text, p, len) {
                    None
                } else if word_bounded(text, p, len) {
                    if hit_ok(c, text, p, len) {
                        Some(prev.push(hit(c, text, k, p, len)))
                    } else {
                        None
                    }
                } else {
                    Some(prev)
                }
            },
            None => None,
        }
    }
}

/// The text searched: the lowercased content in `CaseInsensitive` mode,
/// the content otherwise.
pub open spec fn search_bytes(c: KeywordConfig, text: Seq<char>) -> Seq<u8> {
    if c.mode == KeywordMode::CaseInsensitive {
        bytes_of(lowercase_of(text))
    } else {
        bytes_of(text)
    }
}

/// The occurrences of one keyword: non-overlapping occurrences in the
/// searched text; in `Exact` mode the overlapping ones that stand as words;
/// in `Regex` mode the pattern's matches. `None` where matching would not
/// finish normally (an empty keyword, or a record or check that cannot be
/// made).
pub open spec fn keyword_scan(c: KeywordConfig, text: Seq<char>, k: Seq<char>) -> Option<Seq<MatchInfoView>> {
    let kb = bytes_of(k);
    match c.mode {
        KeywordMode::Exact => if kb.len() == 0 {
            None
        } else {
            exact_scan(c, text, k, kb.len() as int, candidates_from(bytes_of(text), kb, 0))
        },
        KeywordMode::Regex => spans_scan(c, text, k, regex_match_spans(k, text)),
        _ => if kb.len() == 0 {
            None
        } else {
            hits_scan(c, text, k, kb.len() as int, occurrences_from(search_bytes(c, text), kb, 0))
        },
    }
}

/// The occurrences of the keywords, keyword after keyword.
pub open spec fn scan_keywords(c: KeywordConfig, text: Seq<char>, ks: Seq<Seq<char>>) -> Option<Seq<MatchInfoView>>
    decreases ks.len(),
{
    if ks.len() == 0 {
        Some(Seq::empty())
    } else {
        match (scan_keywords(c, text, ks.drop_last()), keyword_scan(c, text, ks.last())) {
            (Some(a), Some(b)) => Some(a + b),
            _ => None,
        }
    }
}

/// The keywords searched for: the normalized ones, except in `Exact` and
/// `Regex` modes.
pub open spec fn keyword_list(c: KeywordConfig) -> Seq<Seq<char>> {
    if c.mode == KeywordMode::Exact || c.mode == KeywordMode::Regex {
        strings_view(c.keywords@)
    } else {
        normalized_view(c)
    }
}

/// Every keyword occurs in the searched text.
pub open spec fn all_present(c: KeywordConfig, text: Seq<char>) -> bool {
    forall|i: int|
        0 <= i < keyword_list(c).len() ==> (#[trigger] crate::byte_text::first_occurrence(
            search_bytes(c, text),
            bytes_of(keyword_list(c)[i]),
            0,
        )) is Some
}

/// All occurrences found (none in `All` mode unless every keyword occurs),
/// or `None` where matching would not finish normally.
pub open spec fn raw_scan(c: KeywordConfig, text: Seq<char>) -> Option<Seq<MatchInfoView>> {
    if c.mode == KeywordMode::All && !all_present(c, text) {
        Some(Seq::empty())
    } else {
        scan_keywords(c, text, keyword_list(c))
    }
}

proof fn lemma_hits_scan_stays_none(c: KeywordConfig, text: Seq<char>, k: Seq<char>, len: int, ps: Seq<int>, i: int)
    requires
        0 <= i <= ps.len(),
        hits_scan(c, text, k, len, ps.take(i)) is None,
    ensures
        hits_scan(c, text, k, len, ps) is None,
    decreases ps.len(),
{
    if ps.len() == i {
        assert(ps.take(i) =~= ps);
    } else {
        assert(ps.drop_last().take(i) =~= ps.take(i));
        lemma_hits_scan_stays_none(c, text, k, len, ps.drop_last(), i);
    }
}

proof fn lemma_spans_scan_stays_none(c: KeywordConfig, text: Seq<char>, k: Seq<char>, ps: Seq<(int, int)>, i: int)
    requires
        0 <= i <= ps.len(),
        spans_scan(c, text, k, ps.take(i)) is None,
    ensures
        spans_scan(c, text, k, ps) is None,
    decreases ps.len(),
{
    if ps.len() == i {
        assert(ps.take(i) =~= ps);
    } else {
        assert(ps.drop_last().take(i) =~= ps.take(i));
        lemma_spans_scan_stays_none(c, text, k, ps.drop_last(), i);
    }
}

proof fn lemma_exact_scan_stays_none(c: KeywordConfig, text: Seq<char>, k: Seq<char>, len: int, ps: Seq<int>, i: int)
    requires
        0 <= i <= ps.len(),
        exact_scan(c, text, k, len, ps.take(i)) is None,
    ensures
        exact_scan(c, text, k, len, ps) is None,
    decreases ps.len(),
{
    if ps.len() == i {
        assert(ps.take(i) =~= ps);
    } else {
        assert(ps.drop_last().take(i) =~= ps.take(i));
        lemma_exact_scan_stays_none(c, text, k, len, ps.drop_last(), i);
    }
}

proof fn lemma_scan_keywords_stays_none(c: KeywordConfig, text: Seq<char>, ks: Seq<Seq<char>>, i: int)
    requires
        0 <= i <= ks.len(),
        scan_keywords(c, text, ks.take(i)) is None,
    ensures
        scan_keywords(c, text, ks) is None,
    decreases ks.len(),
{
    if ks.len() == i {
        assert(ks.take(i) =~= ks);
    } else {
        assert(ks.drop_last().take(i) =~= ks.take(i));
        lemma_scan_keywords_stays_none(c, text, ks.drop_last(), i);
    }
}

/// Each record's end offset fits in a `usize`.
pub open spec fn ends_fit(v: Seq<MatchInfo>) -> bool {
    forall|j: int| 0 <= j < v.len() ==> (#[trigger] v[j]).position + v[j].length <= usize::MAX
}

proof fn lemma_hits_scan_records(c: KeywordConfig, text: Seq<char>, k: Seq<char>, len: int, ps: Seq<int>)
    requires
        hits_scan(c, text, k, len, ps) is Some,
    ensures
        ({
            let hs = hits_scan(c, text, k, len, ps)->0;
            &&& hs.len() == ps.len()
            &&& forall|i: int| 0 <= i < hs.len() ==> (#[trigger] hs[i]).keyword == k && hs[i].position == ps[i] && hs[i].length == len
        }),
    decreases ps.len(),
{
    if ps.len() > 0 {
        lemma_hits_scan_records(c, text, k, len, ps.drop_last());
    }
}

proof fn lemma_exact_scan_records(c: KeywordConfig, text: Seq<char>, k: Seq<char>, len: int, ps: Seq<int>)
    requires
        exact_scan(c, text, k, len, ps) is Some,
    ensures
        ({
            let hs = exact_scan(c, text, k, len, ps)->0;
            forall|i: int| 0 <= i < hs.len() ==> exists|j: int| 0 <= j < ps.len() && {
                &&& (#[trigger] hs[i]).keyword == k
                &&& hs[i].position == ps[j]
                &&& hs[i].length == len
                &&& word_bounded(text, ps[j], len)
            }
        }),
    decreases ps.len(),
{
    if ps.len() > 0 {
        lemma_exact_scan_records(c, text, k, len, ps.drop_last());
        let prev = exact_scan(c, text, k, len, ps.drop_last())->0;
        let hs = exact_scan(c, text, k, len, ps)->0;
        assert forall|i: int| 0 <= i < hs.len() implies exists|j: int| 0 <= j < ps.len() && {
            &&& (#[trigger] hs[i]).keyword == k
            &&& hs[i].position == ps[j]
            &&& hs[i].length == len
            &&& word_bounded(text, ps[j], len)
        } by {
            if i < prev.len() {
                assert(hs[i] == prev[i]);
                let j = choose|j: int| 0 <= j < ps.drop_last().len() && {
                    &&& prev[i].keyword == k
                    &&& prev[i].position == ps.drop_last()[j]
                    &&& prev[i].length == len
                    &&& word_bounded(text, ps.drop_last()[j], len)
                };
                assert(ps[j] == ps.drop_last()[j]);
            } else {
                assert(hs[i].position == ps[ps.len() - 1]);
            }
        }
    }
}

proof fn lemma_scan_keywords_occurrences(c: KeywordConfig, text: Seq<char>, ks: Seq<Seq<char>>)
    requires
        scan_keywords(c, text, ks) is Some,
        c.mode != KeywordMode::Regex,
    ensures
        ({
            let hs = scan_keywords(c, text, ks)->0;
            forall|i: int| 0 <= i < hs.len() ==> {
                let h = #[trigger] hs[i];
                &&& h.length == bytes_of(h.keyword).len()
                &&& (c.mode == KeywordMode::Exact ==> crate::byte_text::occurs_at_byte(bytes_of(text), bytes_of(h.keyword), h.position)
                    && word_bounded(text, h.position, h.length))
                &&& (c.mode != KeywordMode::Exact ==> crate::byte_text::occurs_at_byte(search_bytes(c, text), bytes_of(h.keyword), h.position))
            }
        }),
    decreases ks.len(),
{
    if ks.len() > 0 {
        lemma_scan_keywords_occurrences(c, text, ks.drop_last());
        let a = scan_keywords(c, text, ks.drop_last())->0;
        let b = keyword_scan(c, text, ks.last())->0;
        let hs = scan_keywords(c, text, ks)->0;
        assert(hs == a + b);
        let k = ks.last();
        let kb = bytes_of(k);
        if c.mode == KeywordMode::Exact {
            let ps = candidates_from(bytes_of(text), kb, 0);
            crate::byte_text::lemma_candidates_occur(bytes_of(text), kb, 0);
            lemma_exact_scan_records(c, text, k, kb.len() as int, ps);
        } else {
            let ps = occurrences_from(search_bytes(c, text), kb, 0);
            crate::byte_text::lemma_occurrences_occur(search_bytes(c, text), kb, 0);
            lemma_hits_scan_records(c, text, k, kb.len() as int, ps);
        }
        assert forall|i: int| 0 <= i < hs.len() implies {
            let h = #[trigger] hs[i];
            &&& h.length == bytes_of(h.keyword).len()
            &&& (c.mode == KeywordMode::Exact ==> crate::byte_text::occurs_at_byte(bytes_of(text), bytes_of(h.keyword), h.position)
                && word_bounded(text, h.position, h.length))
            &&& (c.mode != KeywordMode::Exact ==> crate::byte_text::occurs_at_byte(search_bytes(c, text), bytes_of(h.keyword), h.position))
        } by {
            if i < a.len() {
                assert(hs[i] == a[i]);
            } else {
                assert(hs[i] == b[i - a.len()]);
            }
        }
    }
}

/// Every reported match is an occurrence of its keyword where it is said
/// to be, as long as the keyword: in the searched text (the lowercased
/// content in `CaseInsensitive` mode), and in `Exact` mode in the content,
/// standing as a word. Reported matches are at least `min_matches` in
/// number and no two consecutive ones are further apart than
/// `proximity_distance`.
pub proof fn lemma_reported_matches_occur(c: KeywordConfig, text: Seq<char>)
    requires
        reported_hits(c, text) is Some,
    ensures
        ({
            let hs = reported_hits(c, text)->0;
            &&& c.mode != KeywordMode::Regex ==> forall|i: int| 0 <= i < hs.len() ==> {
                let h = #[trigger] hs[i];
                &&& h.length == bytes_of(h.keyword).len()
                &&& (c.mode == KeywordMode::Exact ==> crate::byte_text::occurs_at_byte(bytes_of(text), bytes_of(h.keyword), h.position)
                    && word_bounded(text, h.position, h.length))
                &&& (c.mode != KeywordMode::Exact ==> crate::byte_text::occurs_at_byte(search_bytes(c, text), bytes_of(h.keyword), h.position))
            }
            &&& (c.options.min_matches matches Some(m) ==> hs.len() >= m)
            &&& (c.options.proximity_distance matches Some(d) ==> proximity_ok(hs, d))
        }),
{
    if c.mode != KeywordMode::Regex && !(c.mode == KeywordMode::All && !all_present(c, text)) {
        lemma_scan_keywords_occurrences(c, text, keyword_list(c));
    }
}

/// In `Exact` mode a keyword counts only as a whole word: every match
/// `match_keywords` reports is an occurrence of its keyword whose
/// neighbours (the characters just before and just after it, looked up as
/// exact matching does) are not alphanumeric, or are the ends of the text.
pub proof fn lemma_exact_matches_are_whole_words(c: KeywordConfig, text: Seq<char>, m: MatchResult)
    requires
        c.mode == KeywordMode::Exact,
        result_matches(c, text, m),
    ensures
        forall|i: int| 0 <= i < m.matches@.len() ==> {
            let h = #[trigger] m.matches@[i];
            let p = h.position as int;
            let len = h.length as int;
            &&& len == bytes_of(h.keyword@).len()
            &&& crate::byte_text::occurs_at_byte(bytes_of(text), bytes_of(h.keyword@), p)
            &&& (p == 0 || !alphanumeric(text[p - 1]))
            &&& (p + len >= bytes_of(text).len() || !alphanumeric(text[p + len]))
        },
        m.found <==> m.matches@.len() > 0,
{
    match reported_hits(c, text) {
        None => {},
        Some(hs) => {
            lemma_reported_matches_occur(c, text);
            assert forall|i: int| 0 <= i < m.matches@.len() implies {
                let h = #[trigger] m.matches@[i];
                let p = h.position as int;
                let len = h.length as int;
                &&& len == bytes_of(h.keyword@).len()
                &&& crate::byte_text::occurs_at_byte(bytes_of(text), bytes_of(h.keyword@), p)
                &&& (p == 0 || !alphanumeric(text[p - 1]))
                &&& (p + len >= bytes_of(text).len() || !alphanumeric(text[p + len]))
            } by {
                assert(infos_view(m.matches@)[i] == m.matches@[i]@);
                assert(hs[i] == m.matches@[i]@);
            }
        },
    }
}

pub open spec fn offsets_view(v: Seq<usize>) -> Seq<int> {
    v.map_values(|p: usize| p as int)
}

/// The keywords of the occurrences, in order.
pub open spec fn hit_keywords(hs: Seq<MatchInfoView>) -> Seq<Seq<char>> {
    hs.map_values(|h: MatchInfoView| h.keyword)
}

/// The distinct texts of a list, in the order of their first appearance.
pub open spec fn distinct_texts(s: Seq<Seq<char>>) -> Seq<Seq<char>>
    decreases s.len(),
{
    if s.len() == 0 {
        Seq::empty()
    } else {
        let d = distinct_texts(s.drop_last());
        if d.contains(s.last()) {
            d
        } else {
            d.push(s.last())
        }
    }
}

/// How often `k` appears in the list.
pub open spec fn count_of(s: Seq<Seq<char>>, k: Seq<char>) -> nat
    decreases s.len(),
{
    if s.len() == 0 {
        0
    } else {
        count_of(s.drop_last(), k) + if s.last() == k { 1nat } else { 0nat }
    }
}

/// The first of the candidates `d` that appears most often in `s`.
pub open spec fn most_frequent(d: Seq<Seq<char>>, s: Seq<Seq<char>>) -> Option<Seq<char>>
    decreases d.len(),
{
    if d.len() == 0 {
        None
    } else {
        match most_frequent(d.drop_last(), s) {
            None => Some(d.last()),
            Some(m) => if count_of(s, d.last()) > count_of(s, m) {
                Some(d.last())
            } else {
                Some(m)
            },
        }
    }
}

/// No gap between the end of an occurrence and the start of the next one
/// (in the order recorded) exceeds `d` bytes.
pub open spec fn proximity_ok(hs: Seq<MatchInfoView>, d: usize) -> bool {
    forall|i: int|
        0 <= i < hs.len() - 1 ==> {
            let end = (#[trigger] hs[i]).position + hs[i].length;
            !(hs[i + 1].position > end && hs[i + 1].position - end > d)
        }
}

/// Matching runs to completion: filtering is off, or every occurrence
/// can be found, examined and recorded.
pub open spec fn match_completes(c: KeywordConfig, text: Seq<char>) -> bool {
    !(c.enabled && c.keywords@.len() > 0) || raw_scan(c, text) is Some
}

/// The occurrences reported: none (an empty result) when filtering is off,
/// when fewer than `min_matches` are found, or when two consecutive ones
/// are further apart than `proximity_distance`.
pub open spec fn reported_hits(c: KeywordConfig, text: Seq<char>) -> Option<Seq<MatchInfoView>> {
    if !(c.enabled && c.keywords@.len() > 0) {
        None
    } else {
        match raw_scan(c, text) {
            None => None,
            Some(hs) => if c.options.min_matches matches Some(m) && hs.len() < m {
                None
            } else if c.options.proximity_distance matches Some(d) && !proximity_ok(hs, d) {
                None
            } else {
                Some(hs)
            },
        }
    }
}

/// The result `match_keywords` gives: empty when nothing is reported,
/// else the occurrences with their counts and statistics.
pub open spec fn result_matches(c: KeywordConfig, text: Seq<char>, m: MatchResult) -> bool {
    &&& ends_fit(m.matches@)
    &&& match reported_hits(c, text) {
        None => is_empty_result(m),
        Some(hs) => {
            let ks = hit_keywords(hs);
            &&& infos_view(m.matches@) == hs
            &&& m.found == (hs.len() > 0)
            &&& m.match_count == hs.len()
            &&& strings_view(m.matched_keywords@) == distinct_texts(ks)
            &&& m.stats.total_chars == bytes_of(text).len()
            &&& m.stats.keyword_total == c.keywords@.len()
            &&& opt_text(m.stats.most_frequent_keyword) == most_frequent(distinct_texts(ks), ks)
        },
    }
}

/// Why a matcher refuses a configuration: the first problem `validate`
/// finds, else (in `Regex` mode) a keyword that does not compile.
pub open spec fn matcher_error(c: KeywordConfig) -> Option<Seq<char>> {
    match keyword_config_error(c) {
        Some(m) => Some(m),
        None => if c.mode == KeywordMode::Regex && first_bad(c.keywords@) is Some {
            let (_, e) = first_bad(c.keywords@)->0;
            Some("Failed to compile regex: "@ + e)
        } else {
            None
        },
    }
}

/// Whether a text is among the texts.
fn has_text(v: &Vec<String>, t: &str) -> (r: bool)
    ensures
        r == strings_view(v@).contains(t@),
{
    let mut i: usize = 0;
    while i < v.len()
        invariant
            i <= v@.len(),
            forall|j: int| 0 <= j < i ==> (#[trigger] v@[j])@ != t@,
        decreases v@.len() - i,
    {
        if str_eq(v[i].as_str(), t) {
            proof {
                assert(strings_view(v@)[i as int] == t@);
            }
            return true;
        }
        i = i + 1;
    }
    proof {
        assert forall|j: int| 0 <= j < strings_view(v@).len() implies strings_view(v@)[j] != t@ by {
            assert(strings_view(v@)[j] == v@[j]@);
        }
    }
    false
}

/// The distinct keywords of the records, in order of first appearance.
fn distinct_keywords(ms: &Vec<MatchInfo>) -> (r: Vec<String>)
    ensures
        strings_view(r@) == distinct_texts(hit_keywords(infos_view(ms@))),
{
    let ghost ks = hit_keywords(infos_view(ms@));
    let mut r: Vec<String> = Vec::new();
    let mut i: usize = 0;
    proof {
        assert(ks.take(0) =~= Seq::<Seq<char>>::empty());
        assert(strings_view(r@) =~= Seq::<Seq<char>>::empty());
    }
    while i < ms.len()
        invariant
            ks == hit_keywords(infos_view(ms@)),
            i <= ms@.len(),
            strings_view(r@) == distinct_texts(ks.take(i as int)),
        decreases ms@.len() - i,
    {
        proof {
            assert(ks.take(i + 1).drop_last() =~= ks.take(i as int));
            assert(ks.take(i + 1).last() == ms@[i as int].keyword@);
        }
        if !has_text(&r, ms[i].keyword.as_str()) {
            let ghost r0 = r@;
            r.push(ms[i].keyword.clone());
            proof {
                assert(strings_view(r@) =~= strings_view(r0).push(ms@[i as int].keyword@));
            }
        }
        i = i + 1;
    }
    proof {
        assert(ks.take(ms@.len() as int) =~= ks);
    }
    r
}

/// How many records have keyword `k`.
fn count_keyword(ms: &Vec<MatchInfo>, k: &str) -> (r: usize)
    ensures
        r == count_of(hit_keywords(infos_view(ms@)), k@),
{
    let ghost ks = hit_keywords(infos_view(ms@));
    let mut n: usize = 0;
    let mut i: usize = 0;
    proof {
        assert(ks.take(0) =~= Seq::<Seq<char>>::empty());
    }
    while i < ms.len()
        invariant
            ks == hit_keywords(infos_view(ms@)),
            i <= ms@.len(),
            n <= i,
            n == count_of(ks.take(i as int), k@),
        decreases ms@.len() - i,
    {
        proof {
            assert(ks.take(i + 1).drop_last() =~= ks.take(i as int));
            assert(ks.take(i + 1).last() == ms@[i as int].keyword@);
        }
        if str_eq(ms[i].keyword.as_str(), k) {
            n = n + 1;
        }
        i = i + 1;
    }
    proof {
        assert(ks.take(ms@.len() as int) =~= ks);
    }
    n
}

/// The first of the keywords `d` found most often among the records.
fn most_frequent_of(d: &Vec<String>, ms: &Vec<MatchInfo>) -> (r: Option<String>)
    ensures
        opt_text(r) == most_frequent(strings_view(d@), hit_keywords(infos_view(ms@))),
{
    let ghost ks = hit_keywords(infos_view(ms@));
    let ghost dv = strings_view(d@);
    let mut best: Option<String> = None;
    let mut best_count: usize = 0;
    let mut i: usize = 0;
    proof {
        assert(dv.take(0) =~= Seq::<Seq<char>>::empty());
    }
    while i < d.len()
        invariant
            ks == hit_keywords(infos_view(ms@)),
            dv == strings_view(d@),
            i <= d@.len(),
            opt_text(best) == most_frequent(dv.take(i as int), ks),
            best matches Some(b) ==> best_count == count_of(ks, b@),
        decreases d@.len() - i,
    {
        proof {
            assert(dv.take(i + 1).drop_last() =~= dv.take(i as int));
            assert(dv.take(i + 1).last() == d@[i as int]@);
        }
        let c = count_keyword(ms, d[i].as_str());
        let better = match &best {
            None => true,
            Some(_) => c > best_count,
        };
        if better {
            best = Some(d[i].clone());
            best_count = c;
        }
        i = i + 1;
    }
    proof {
        assert(dv.take(d@.len() as int) =~= dv);
    }
    best
}

/// Whether consecutive records are close enough.
fn records_close(ms: &Vec<MatchInfo>, d: usize) -> (r: bool)
    requires
        ends_fit(ms@),
    ensures
        r == proximity_ok(infos_view(ms@), d),
{
    let ghost hs = infos_view(ms@);
    if ms.len() < 2 {
        return true;
    }
    let mut i: usize = 0;
    while i < ms.len() - 1
        invariant
            hs == infos_view(ms@),
            ends_fit(ms@),
            ms@.len() >= 2,
            i <= ms@.len() - 1,
            forall|j: int|
                0 <= j < i ==> {
                    let end = (#[trigger] hs[j]).position + hs[j].length;
                    !(hs[j + 1].position > end && hs[j + 1].position - end > d)
                },
        decreases ms@.len() - 1 - i,
    {
        let end = ms[i].position + ms[i].length;
        let next = ms[i + 1].position;
        proof {
            assert(hs[i as int] == ms@[i as int]@);
            assert(hs[i + 1] == ms@[i + 1]@);
        }
        if next > end && next - end > d {
            return false;
        }
        i = i + 1;
    }
    true
}

/// Matches keywords against content.
pub struct KeywordMatcher {
    config: KeywordConfig,
}

impl KeywordMatcher {
    pub closed spec fn config_spec(&self) -> KeywordConfig {
        self.config
    }

    pub fn config(&self) -> (r: &KeywordConfig)
        ensures
            *r == self.config_spec(),
    {
        &self.config
    }

    /// In `Regex` mode every keyword compiles.
    pub closed spec fn wf(&self) -> bool {
        self.config.mode == KeywordMode::Regex ==> first_bad(self.config.keywords@) is None
    }

    /// A matcher for valid settings.
    pub fn new(config: KeywordConfig) -> (r: Result<Self, CrawlError>)
        ensures
            match matcher_error(config) {
                None => r matches Ok(m) && m.config_spec() == config && m.wf(),
                Some(e) => r matches Err(CrawlError::KeywordConfigError(s)) && s@ == e,
            },
    {
        match config.validate() {
            Err(e) => {
                return Err(e);
            },
            Ok(()) => {},
        }
        if config.mode == KeywordMode::Regex {
            match crate::patterns::first_invalid_pattern(&config.keywords) {
                Some((_, e)) => {
                    return Err(CrawlError::KeywordConfigError(concat_str("Failed to compile regex: ", e.as_str())));
                },
                None => {},
            }
        }
        Ok(KeywordMatcher { config })
    }

    /// All occurrences (see `raw_scan`), or `None` where matching would not
    /// finish normally.
    fn scan(&self, text: &str) -> (r: Option<Vec<MatchInfo>>)
        requires
            self.wf(),
        ensures
            r is Some <==> raw_scan(self.config, text@) is Some,
            r matches Some(v) ==> raw_scan(self.config, text@) == Some(infos_view(v@)) && ends_fit(v@),
    {
        let ghost c = self.config;
        let mode = self.config.mode;
        let kws = if mode == KeywordMode::Exact || mode == KeywordMode::Regex {
            clone_strings(&self.config.keywords)
        } else {
            self.config.normalized_keywords()
        };
        let ghost kv = strings_view(kws@);
        proof {
            assert(kv == keyword_list(c));
            if mode == KeywordMode::Regex {
                lemma_no_bad_pattern(c.keywords@);
            }
        }
        let lowered = if mode == KeywordMode::CaseInsensitive {
            to_lowercase(text)
        } else {
            text.to_string()
        };
        let search = lowered.as_str().as_bytes();
        assert(search@ == search_bytes(c, text@));
        if mode == KeywordMode::All {
            let mut i: usize = 0;
            while i < kws.len()
                invariant
                    c == self.config,
                    mode == c.mode,
                    mode == KeywordMode::All,
                    kv == strings_view(kws@),
                    kv == keyword_list(c),
                    search@ == search_bytes(c, text@),
                    i <= kws@.len(),
                    forall|j: int|
                        0 <= j < i ==> (#[trigger] crate::byte_text::first_occurrence(
                            search@,
                            bytes_of(kv[j]),
                            0,
                        )) is Some,
                decreases kws@.len() - i,
            {
                proof {
                    assert(kv[i as int] == kws@[i as int]@);
                }
                if crate::byte_text::find_bytes_from(search, kws[i].as_str().as_bytes(), 0).is_none() {
                    let none: Vec<MatchInfo> = Vec::new();
                    proof {
                        assert(crate::byte_text::first_occurrence(search@, bytes_of(kv[i as int]), 0) is None);
                        assert(!all_present(c, text@));
                        assert(infos_view(none@) =~= Seq::<MatchInfoView>::empty());
                    }
                    return Some(none);
                }
                i = i + 1;
            }
            assert(all_present(c, text@));
        }
        let chars = chars_of(text);
        let mut out: Vec<MatchInfo> = Vec::new();
        let mut i: usize = 0;
        proof {
            assert(kv.take(0) =~= Seq::<Seq<char>>::empty());
            assert(infos_view(out@) =~= Seq::<MatchInfoView>::empty());
        }
        while i < kws.len()
            invariant
                c == self.config,
                self.wf(),
                mode == c.mode,
                chars@ == text@,
                kv == strings_view(kws@),
                kv == keyword_list(c),
                search@ == search_bytes(c, text@),
                mode == KeywordMode::All ==> all_present(c, text@),
                mode == KeywordMode::Regex ==> forall|j: int|
                    0 <= j < c.keywords@.len() ==> (#[trigger] regex_compile_error(c.keywords@[j]@)) is None,
                i <= kws@.len(),
                ends_fit(out@),
                scan_keywords(c, text@, kv.take(i as int)) == Some(infos_view(out@)),
            decreases kws@.len() - i,
        {
            proof {
                assert(kv.take(i + 1).drop_last() =~= kv.take(i as int));
                assert(kv.take(i + 1).last() == kws@[i as int]@);
            }
            let k = kws[i].as_str();
            let part = match mode {
                KeywordMode::Exact => self.word_hits(text, &chars, k),
                KeywordMode::Regex => {
                    proof {
                        assert(kws@[i as int]@ == c.keywords@[i as int]@);
                    }
                    self.pattern_hits(text, k)
                },
                _ => self.plain_hits(text, search, k),
            };
            match part {
                Some(mut v) => {
                    let ghost o0 = out@;
                    let ghost v0 = v@;
                    out.append(&mut v);
                    proof {
                        assert(out@ == o0 + v0);
                        assert(infos_view(out@) =~= infos_view(o0) + infos_view(v0));
                        assert forall|j: int| 0 <= j < out@.len() implies (#[trigger] out@[j]).position + out@[j].length
                            <= usize::MAX by {
                            if j >= o0.len() {
                                assert(out@[j] == v0[j - o0.len()]);
                            }
                        }
                    }
                },
                None => {
                    proof {
                        lemma_scan_keywords_stays_none(c, text@, kv, i + 1);
                    }
                    return None;
                },
            }
            i = i + 1;
        }
        proof {
            assert(kv.take(kws@.len() as int) =~= kv);
        }
        Some(out)
    }

    /// Matches the keywords against a text (see `reported_hits`). The
    /// matched keywords are listed in order of first occurrence and the
    /// most frequent is the first of those found most often.
    pub fn match_keywords(&self, text: &str) -> (r: Result<MatchResult, CrawlError>)
        requires
            self.wf(),
            match_completes(self.config_spec(), text@),
        ensures
            r matches Ok(m) && result_matches(self.config_spec(), text@, m),
    {
        if !self.config.should_filter() {
            return Ok(MatchResult::default());
        }
        let matches = match self.scan(text) {
            Some(v) => v,
            None => {
                return Ok(MatchResult::default());
            },
        };
        match self.config.options.min_matches {
            Some(m) => {
                if matches.len() < m {
                    return Ok(MatchResult::default());
                }
            },
            None => {},
        }
        match self.config.options.proximity_distance {
            Some(d) => {
                if !records_close(&matches, d) {
                    return Ok(MatchResult::default());
                }
            },
            None => {},
        }
        let matched_keywords = distinct_keywords(&matches);
        let most = most_frequent_of(&matched_keywords, &matches);
        let total_chars = text.as_bytes().len();
        let count = matches.len();
        Ok(
            MatchResult {
                found: count > 0,
                match_count: count,
                matches,
                matched_keywords,
                stats: MatchStats {
                    total_chars,
                    keyword_total: self.config.keywords.len(),
                    most_frequent_keyword: most,
                },
            },
        )
    }

    /// Matches the keywords when matching runs to completion on this text;
    /// `None` for texts on which it would not (see `match_completes`).
    pub fn try_match_keywords(&self, text: &str) -> (r: Option<Result<MatchResult, CrawlError>>)
        requires
            self.wf(),
        ensures
            r is Some <==> match_completes(self.config_spec(), text@),
            r matches Some(x) ==> x matches Ok(m) && result_matches(self.config_spec(), text@, m),
    {
        if self.config.should_filter() && self.scan(text).is_none() {
            return None;
        }
        Some(self.match_keywords(text))
    }

    /// The text around an occurrence, or `None` when it cannot be cut.
    fn context_for(&self, text: &str, p: usize, len: usize) -> (r: Option<String>)
        ensures
            r is Some <==> context_cuttable(self.config.options, text@, p as int, len as int),
            r matches Some(s) ==> s@ == context_of(self.config.options, text@, p as int, len as int),
    {
        let o = &self.config.options;
        let window = o.context_window;
        if len > usize::MAX - p || window > usize::MAX - (p + len) {
            return None;
        }
        let tl = text.as_bytes().len();
        let start = if p >= window { p - window } else { 0 };
        let end = if tl < p + len + window { tl } else { p + len + window };
        if start > end || !text.is_char_boundary(start) || !text.is_char_boundary(end) {
            return None;
        }
        if o.highlight_matches {
            if p + len > end || !text.is_char_boundary(p) || !text.is_char_boundary(p + len) {
                return None;
            }
            let before = byte_slice(text, start, p);
            let matched = byte_slice(text, p, p + len);
            let after = byte_slice(text, p + len, end);
            let mut s = concat_str(before.as_str(), "**");
            s.append(matched.as_str());
            s.append("**");
            s.append(after.as_str());
            Some(s)
        } else {
            Some(byte_slice(text, start, end))
        }
    }

    /// The record of an occurrence, or `None` when its context cannot be
    /// cut.
    fn make_hit(&self, text: &str, keyword: &str, p: usize, len: usize) -> (r: Option<MatchInfo>)
        ensures
            r is Some <==> hit_ok(self.config, text@, p as int, len as int),
            r matches Some(h) ==> h@ == hit(self.config, text@, keyword@, p as int, len as int),
    {
        let context = if self.config.options.include_context {
            match self.context_for(text, p, len) {
                Some(c) => Some(c),
                None => {
                    return None;
                },
            }
        } else {
            None
        };
        Some(MatchInfo { keyword: keyword.to_string(), position: p, length: len, context })
    }

    /// The records of the occurrences at `ps` of a keyword of `len` bytes.
    fn record_hits(&self, text: &str, keyword: &str, len: usize, ps: &Vec<usize>) -> (r: Option<Vec<MatchInfo>>)
        requires
            forall|j: int| 0 <= j < ps@.len() ==> #[trigger] ps@[j] + len <= usize::MAX,
        ensures
            r matches Some(v) ==> ends_fit(v@),
            r is Some <==> hits_scan(self.config, text@, keyword@, len as int, offsets_view(ps@)) is Some,
            r matches Some(v) ==> hits_scan(self.config, text@, keyword@, len as int, offsets_view(ps@)) == Some(
                infos_view(v@),
            ),
    {
        let ghost pv = offsets_view(ps@);
        let ghost c = self.config;
        let mut out: Vec<MatchInfo> = Vec::new();
        let mut i: usize = 0;
        proof {
            assert(pv.take(0) =~= Seq::<int>::empty());
            assert(infos_view(out@) =~= Seq::<MatchInfoView>::empty());
        }
        while i < ps.len()
            invariant
                c == self.config,
                pv == offsets_view(ps@),
                i <= ps@.len(),
                forall|j: int| 0 <= j < ps@.len() ==> #[trigger] ps@[j] + len <= usize::MAX,
                ends_fit(out@),
                hits_scan(c, text@, keyword@, len as int, pv.take(i as int)) == Some(infos_view(out@)),
            decreases ps@.len() - i,
        {
            proof {
                assert(pv.take(i + 1).drop_last() =~= pv.take(i as int));
                assert(pv.take(i + 1).last() == ps@[i as int] as int);
            }
            match self.make_hit(text, keyword, ps[i], len) {
                Some(h) => {
                    let ghost o0 = out@;
                    out.push(h);
                    proof {
                        assert(infos_view(out@) =~= infos_view(o0).push(h@));
                    }
                },
                None => {
                    proof {
                        lemma_hits_scan_stays_none(c, text@, keyword@, len as int, pv, i + 1);
                    }
                    return None;
                },
            }
            i = i + 1;
        }
        proof {
            assert(pv.take(ps@.len() as int) =~= pv);
        }
        Some(out)
    }

    /// The occurrences of one keyword in the searched bytes, non-overlapping.
    fn plain_hits(&self, text: &str, search: &[u8], keyword: &str) -> (r: Option<Vec<MatchInfo>>)
        ensures
            r matches Some(v) ==> ends_fit(v@),
            ({
                let kb = bytes_of(keyword@);
                let expected = if kb.len() == 0 {
                    None
                } else {
                    hits_scan(self.config, text@, keyword@, kb.len() as int, occurrences_from(search@, kb, 0))
                };
                &&& r is Some <==> expected is Some
                &&& r matches Some(v) ==> expected == Some(infos_view(v@))
            }),
    {
        let kb = keyword.as_bytes();
        if kb.len() == 0 {
            return None;
        }
        let sl = search.len();
        let ps = occurrence_offsets(search, kb);
        proof {
            crate::byte_text::lemma_occurrences_occur(search@, kb@, 0);
            assert forall|j: int| 0 <= j < ps@.len() implies #[trigger] ps@[j] + kb@.len() <= usize::MAX by {
                assert(offsets_view(ps@)[j] == ps@[j] as int);
                assert(crate::byte_text::occurs_at_byte(search@, kb@, offsets_view(ps@)[j]));
            }
        }
        self.record_hits(text, keyword, kb.len(), &ps)
    }

    /// The regular-expression matches of one pattern.
    fn pattern_hits(&self, text: &str, keyword: &str) -> (r: Option<Vec<MatchInfo>>)
        requires
            regex_compile_error(keyword@) is None,
        ensures
            r matches Some(v) ==> ends_fit(v@),
            r is Some <==> spans_scan(self.config, text@, keyword@, regex_match_spans(keyword@, text@)) is Some,
            r matches Some(v) ==> spans_scan(self.config, text@, keyword@, regex_match_spans(keyword@, text@)) == Some(
                infos_view(v@),
            ),
    {
        let tl = text.as_bytes().len();
        let spans = match_spans(keyword, text);
        let ghost sv = spans_view(spans@);
        let ghost c = self.config;
        let mut out: Vec<MatchInfo> = Vec::new();
        let mut i: usize = 0;
        proof {
            assert(sv.take(0) =~= Seq::<(int, int)>::empty());
            assert(infos_view(out@) =~= Seq::<MatchInfoView>::empty());
        }
        while i < spans.len()
            invariant
                c == self.config,
                sv == spans_view(spans@),
                sv == regex_match_spans(keyword@, text@),
                i <= spans@.len(),
                forall|j: int| 0 <= j < spans@.len() ==> (#[trigger] spans@[j]).0 <= spans@[j].1 <= tl,
                tl == bytes_of(text@).len(),
                ends_fit(out@),
                spans_scan(c, text@, keyword@, sv.take(i as int)) == Some(infos_view(out@)),
            decreases spans@.len() - i,
        {
            proof {
                assert(sv.take(i + 1).drop_last() =~= sv.take(i as int));
                assert(sv.take(i + 1).last() == (spans@[i as int].0 as int, spans@[i as int].1 as int));
            }
            let (a, b) = spans[i];
            match self.make_hit(text, keyword, a, b - a) {
                Some(h) => {
                    let ghost o0 = out@;
                    out.push(h);
                    proof {
                        assert(infos_view(out@) =~= infos_view(o0).push(h@));
                    }
                },
                None => {
                    proof {
                        lemma_spans_scan_stays_none(c, text@, keyword@, sv, i + 1);
                    }
                    return None;
                },
            }
            i = i + 1;
        }
        proof {
            assert(sv.take(spans@.len() as int) =~= sv);
        }
        Some(out)
    }

    /// The occurrences of one keyword that stand as words.
    fn word_hits(&self, text: &str, chars: &Vec<char>, keyword: &str) -> (r: Option<Vec<MatchInfo>>)
        requires
            chars@ == text@,
        ensures
            r matches Some(v) ==> ends_fit(v@),
            ({
                let kb = bytes_of(keyword@);
                let expected = if kb.len() == 0 {
                    None
                } else {
                    exact_scan(self.config, text@, keyword@, kb.len() as int, candidates_from(bytes_of(text@), kb, 0))
                };
                &&& r is Some <==> expected is Some
                &&& r matches Some(v) ==> expected == Some(infos_view(v@))
            }),
    {
        let kb = keyword.as_bytes();
        let tb = text.as_bytes();
        if kb.len() == 0 {
            return None;
        }
        let len = kb.len();
        let n = tb.len();
        let ps = candidate_offsets(tb, kb);
        let ghost pv = offsets_view(ps@);
        let ghost c = self.config;
        proof {
            crate::byte_text::lemma_candidates_occur(tb@, kb@, 0);
        }
        let mut out: Vec<MatchInfo> = Vec::new();
        let mut i: usize = 0;
        proof {
            assert(pv.take(0) =~= Seq::<int>::empty());
            assert(infos_view(out@) =~= Seq::<MatchInfoView>::empty());
        }
        while i < ps.len()
            invariant
                c == self.config,
                chars@ == text@,
                tb@ == bytes_of(text@),
                kb@ == bytes_of(keyword@),
                len == kb@.len(),
                n == tb@.len(),
                len > 0,
                pv == offsets_view(ps@),
                pv == candidates_from(tb@, kb@, 0),
                forall|j: int| 0 <= j < pv.len() ==> crate::byte_text::occurs_at_byte(tb@, kb@, #[trigger] pv[j]),
                i <= ps@.len(),
                ends_fit(out@),
                exact_scan(c, text@, keyword@, len as int, pv.take(i as int)) == Some(infos_view(out@)),
            decreases ps@.len() - i,
        {
            proof {
                assert(pv.take(i + 1).drop_last() =~= pv.take(i as int));
                assert(pv.take(i + 1).last() == ps@[i as int] as int);
                assert(crate::byte_text::occurs_at_byte(tb@, kb@, pv[i as int]));
            }
            let p = ps[i];
            let probe = text.is_char_boundary(p + 1) && (p == 0 || p - 1 < chars.len()) && (p + len >= n || p + len
                < chars.len());
            if !probe {
                proof {
                    lemma_exact_scan_stays_none(c, text@, keyword@, len as int, pv, i + 1);
                }
                return None;
            }
            let starts_word = p == 0 || !is_alphanumeric_char(chars[p - 1]);
            let ends_word = p + len >= n || !is_alphanumeric_char(chars[p + len]);
            if starts_word && ends_word {
                match self.make_hit(text, keyword, p, len) {
                    Some(h) => {
                        let ghost o0 = out@;
                        out.push(h);
                        proof {
                            assert(infos_view(out@) =~= infos_view(o0).push(h@));
                        }
                    },
                    None => {
                        proof {
                            lemma_exact_scan_stays_none(c, text@, keyword@, len as int, pv, i + 1);
                        }
                        return None;
                    },
                }
            }
            i = i + 1;
        }
        proof {
            assert(pv.take(ps@.len() as int) =~= pv);
        }
        Some(out)
    }
}

} // verus!
