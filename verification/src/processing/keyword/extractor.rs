//! Keeping the parts of content that contain keywords: the paragraphs with
//! an occurrence, or else the sentences around the occurrences.
use vstd::prelude::*;
use vstd::utf8::{decode_utf8, is_char_boundary};
use crate::byte_text::{bytes_of, byte_slice, first_occurrence, find_bytes_from};
use crate::crawl_core::error::CrawlError;
use crate::processing::keyword::config::KeywordConfig;
use crate::processing::keyword::matcher::{
    infos_view, is_empty_result, match_completes, matcher_error, reported_hits, result_matches, KeywordMatcher,
    MatchInfo, MatchInfoView, MatchResult,
};
use crate::web_url::opt_text;
use crate::text_order::{sort_texts, sorted_texts};
use crate::text_util::{join_with, joined_with, split_char, split_seq, strings_view, trim_seq, trim_str};

verus! {

/// Figures about kept content: lengths in bytes before and after, and the
/// number of paragraphs (or sentences) kept.
#[derive(Debug, Clone, Copy, PartialEq, Eq, Structural)]
pub struct ContentStats {
    pub original_length: usize,
    pub filtered_length: usize,
    pub relevant_paragraphs: usize,
}

/// Content with its keyword matches and the parts kept.
#[derive(Debug)]
pub struct KeywordMatchInfo {
    pub original_content: String,
    pub filtered_content: Option<String>,
    pub match_result: MatchResult,
    pub stats: ContentStats,
}

/// Where a paragraph is taken to lie: at the first occurrence of its text
/// in the content (offset 0 when absent), for its length in bytes.
pub open spec fn paragraph_span(content: Seq<char>, para: Seq<char>) -> (int, int) {
    let start = match first_occurrence(bytes_of(content), bytes_of(para), 0) {
        Some(p) => p,
        None => 0,
    };
    (start, start + bytes_of(para).len())
}

/// Some occurrence starts within the paragraph's span.
pub open spec fn paragraph_relevant(content: Seq<char>, para: Seq<char>, hs: Seq<MatchInfoView>) -> bool {
    let (start, end) = paragraph_span(content, para);
    exists|i: int| 0 <= i < hs.len() && start <= (#[trigger] hs[i]).position < end
}

/// The non-blank paragraphs (lines) that contain an occurrence, in order.
pub open spec fn relevant_paragraphs(content: Seq<char>, paras: Seq<Seq<char>>, hs: Seq<MatchInfoView>) -> Seq<
    Seq<char>,
>
    decreases paras.len(),
{
    if paras.len() == 0 {
        Seq::empty()
    } else {
        let prev = relevant_paragraphs(content, paras.drop_last(), hs);
        let p = paras.last();
        if trim_seq(p).len() > 0 && paragraph_relevant(content, p, hs) {
            prev.push(p)
        } else {
            prev
        }
    }
}

/// The offset of the last `.` before byte offset `cur`.
pub open spec fn dot_before(b: Seq<u8>, cur: int) -> Option<int>
    decreases cur,
{
    if cur <= 0 || cur > b.len() {
        None
    } else if b[cur - 1] == 46u8 {
        Some(cur - 1)
    } else {
        dot_before(b, cur - 1)
    }
}

/// The offset of the first `.` at or after byte offset `cur`.
pub open spec fn dot_from(b: Seq<u8>, cur: int) -> Option<int>
    decreases b.len() - cur,
{
    if cur < 0 || cur >= b.len() {
        None
    } else if b[cur] == 46u8 {
        Some(cur)
    } else {
        dot_from(b, cur + 1)
    }
}

/// Where the text two sentences before offset `cur` starts: just after the
/// second `.` found searching backwards (0 when there are fewer), or
/// `None` when the search would cut the text inside a character.
pub open spec fn sentence_start(b: Seq<u8>, cur: int, found: nat) -> Option<int>
    decreases cur,
{
    if cur > 0 && found < 2 {
        if !is_char_boundary(b, cur) {
            None
        } else {
            match dot_before(b, cur) {
                Some(e) => if found + 1 >= 2 {
                    Some(e + 1)
                } else if 0 <= e < cur {
                    sentence_start(b, e, found + 1)
                } else {
                    None
                },
                None => Some(0),
            }
        }
    } else {
        Some(0)
    }
}

/// Where the text two sentences after offset `cur` ends: just after the
/// second `.` found searching forwards (the end of the text when there are
/// fewer), or `None` when the search would cut the text inside a
/// character.
pub open spec fn sentence_end(b: Seq<u8>, cur: int, found: nat) -> Option<int>
    decreases b.len() - cur,
{
    if 0 <= cur < b.len() && found < 2 {
        if !is_char_boundary(b, cur) {
            None
        } else {
            match dot_from(b, cur) {
                Some(a) => if found + 1 >= 2 {
                    Some(if a + 1 < b.len() { a + 1 } else { b.len() as int })
                } else if cur <= a < b.len() {
                    sentence_end(b, a + 1, found + 1)
                } else {
                    None
                },
                None => Some(b.len() as int),
            }
        }
    } else {
        Some(b.len() as int)
    }
}

/// The trimmed sentences around the occurrences (blank ones left out), or
/// `None` when one cannot be cut from the content.
pub open spec fn sentences_scan(content: Seq<char>, hs: Seq<MatchInfoView>) -> Option<Seq<Seq<char>>>
    decreases hs.len(),
{
    if hs.len() == 0 {
        Some(Seq::empty())
    } else {
        match sentences_scan(content, hs.drop_last()) {
            None => None,
            Some(prev) => {
                let b = bytes_of(content);
                let h = hs.last();
                match (sentence_start(b, h.position, 0), sentence_end(b, h.position + h.length, 0)) {
                    (Some(s), Some(e)) => if s <= e && is_char_boundary(b, s) && is_char_boundary(b, e) {
                        let t = trim_seq(decode_utf8(b.subrange(s, e)));
                        if t.len() > 0 {
                            Some(prev.push(t))
                        } else {
                            Some(prev)
                        }
                    } else {
                        None
                    },
                    _ => None,
                }
            },
        }
    }
}

/// The list without repeats of the same text next to each other.
pub open spec fn dedup_adjacent(s: Seq<Seq<char>>) -> Seq<Seq<char>>
    decreases s.len(),
{
    if s.len() == 0 {
        Seq::empty()
    } else {
        let prev = dedup_adjacent(s.drop_last());
        if prev.len() > 0 && prev.last() == s.last() {
            prev
        } else {
            prev.push(s.last())
        }
    }
}

/// The parts kept: the relevant paragraphs, or when there are none the
/// distinct sentences around the occurrences in sorted order; `None` when
/// a sentence cannot be cut.
pub open spec fn kept_parts(content: Seq<char>, hs: Seq<MatchInfoView>) -> Option<Seq<Seq<char>>> {
    let paras = relevant_paragraphs(content, split_seq(content, '\n'), hs);
    if paras.len() > 0 {
        Some(paras)
    } else {
        match sentences_scan(content, hs) {
            Some(s) => Some(dedup_adjacent(sorted_texts(s))),
            None => None,
        }
    }
}

/// Extraction runs to completion: matching does, and when something is
/// found the kept parts can be cut.
pub open spec fn extraction_completes(c: KeywordConfig, content: Seq<char>) -> bool {
    &&& match_completes(c, content)
    &&& match reported_hits(c, content) {
        Some(hs) => hs.len() > 0 ==> kept_parts(content, hs) is Some,
        None => true,
    }
}

/// The matched texts: each occurrence's context when kept, else the
/// occurrence itself cut from the content; `None` when it cannot be cut.
pub open spec fn matched_texts(content: Seq<char>, hs: Seq<MatchInfoView>) -> Option<Seq<Seq<char>>>
    decreases hs.len(),
{
    if hs.len() == 0 {
        Some(Seq::empty())
    } else {
        match matched_texts(content, hs.drop_last()) {
            None => None,
            Some(prev) => {
                let h = hs.last();
                let b = bytes_of(content);
                match h.context {
                    Some(c) => Some(prev.push(c)),
                    None => if h.position + h.length <= b.len() && is_char_boundary(b, h.position) && is_char_boundary(
                        b,
                        h.position + h.length,
                    ) {
                        Some(prev.push(decode_utf8(b.subrange(h.position, h.position + h.length))))
                    } else {
                        None
                    },
                }
            },
        }
    }
}

pub open spec fn opt_index(r: Option<usize>) -> Option<int> {
    match r {
        Some(p) => Some(p as int),
        None => None,
    }
}

fn dot_before_at(b: &[u8], cur: usize) -> (r: Option<usize>)
    ensures
        opt_index(r) == dot_before(b@, cur as int),
        r matches Some(e) ==> e < cur,
{
    if cur > b.len() {
        return None;
    }
    let mut i = cur;
    while i > 0
        invariant
            i <= cur <= b@.len(),
            dot_before(b@, cur as int) == dot_before(b@, i as int),
        decreases i,
    {
        if b[i - 1] == 46u8 {
            return Some(i - 1);
        }
        i = i - 1;
    }
    None
}

fn dot_from_at(b: &[u8], cur: usize) -> (r: Option<usize>)
    ensures
        opt_index(r) == dot_from(b@, cur as int),
        r matches Some(a) ==> cur <= a < b@.len(),
{
    let mut i = cur;
    while i < b.len()
        invariant
            cur <= i,
            dot_from(b@, cur as int) == dot_from(b@, i as int),
        decreases b@.len() - i,
    {
        if b[i] == 46u8 {
            return Some(i);
        }
        i = i + 1;
    }
    None
}

/// Whether some record starts at an offset from `start` to before
/// `start + len`.
fn starts_within(matches: &Vec<MatchInfo>, start: usize, len: usize) -> (r: bool)
    ensures
        r == exists|k: int|
            0 <= k < matches@.len() && start <= (#[trigger] infos_view(matches@)[k]).position < start + len,
{
    let ghost hs = infos_view(matches@);
    let mut j: usize = 0;
    while j < matches.len()
        invariant
            hs == infos_view(matches@),
            j <= matches@.len(),
            forall|k: int| 0 <= k < j ==> !(start <= (#[trigger] hs[k]).position < start + len),
        decreases matches@.len() - j,
    {
        proof {
            assert(hs[j as int] == matches@[j as int]@);
        }
        let pos = matches[j].position;
        if pos >= start && pos - start < len {
            return true;
        }
        j = j + 1;
    }
    false
}

/// The non-blank paragraphs with an occurrence.
fn paragraphs_with_matches(content: &str, paras: &Vec<String>, matches: &Vec<MatchInfo>) -> (r: Vec<String>)
    ensures
        strings_view(r@) == relevant_paragraphs(content@, strings_view(paras@), infos_view(matches@)),
{
    let ghost pv = strings_view(paras@);
    let ghost hs = infos_view(matches@);
    let cb = content.as_bytes();
    let mut r: Vec<String> = Vec::new();
    let mut i: usize = 0;
    proof {
        assert(pv.take(0) =~= Seq::<Seq<char>>::empty());
        assert(strings_view(r@) =~= Seq::<Seq<char>>::empty());
    }
    while i < paras.len()
        invariant
            pv == strings_view(paras@),
            hs == infos_view(matches@),
            cb@ == bytes_of(content@),
            i <= paras@.len(),
            strings_view(r@) == relevant_paragraphs(content@, pv.take(i as int), hs),
        decreases paras@.len() - i,
    {
        proof {
            assert(pv.take(i + 1).drop_last() =~= pv.take(i as int));
            assert(pv.take(i + 1).last() == paras@[i as int]@);
        }
        let p = paras[i].as_str();
        let blank = crate::text_util::is_blank(p);
        if !blank {
            let pb = p.as_bytes();
            let start = match find_bytes_from(cb, pb, 0) {
                Some(s) => s,
                None => 0,
            };
            let relevant = starts_within(matches, start, pb.len());
            proof {
                assert(paragraph_span(content@, p@) == (start as int, start + pb@.len()));
            }
            if relevant {
                let ghost r0 = r@;
                r.push(paras[i].clone());
                proof {
                    assert(strings_view(r@) =~= strings_view(r0).push(p@));
                }
            }
        }
        i = i + 1;
    }
    proof {
        assert(pv.take(paras@.len() as int) =~= pv);
    }
    r
}

/// The list without adjacent repeats.
fn dedup_texts(v: Vec<String>) -> (r: Vec<String>)
    ensures
        strings_view(r@) == dedup_adjacent(strings_view(v@)),
{
    let ghost sv = strings_view(v@);
    let mut r: Vec<String> = Vec::new();
    let mut i: usize = 0;
    proof {
        assert(sv.take(0) =~= Seq::<Seq<char>>::empty());
        assert(strings_view(r@) =~= Seq::<Seq<char>>::empty());
    }
    while i < v.len()
        invariant
            sv == strings_view(v@),
            i <= v@.len(),
            strings_view(r@) == dedup_adjacent(sv.take(i as int)),
        decreases v@.len() - i,
    {
        proof {
            assert(sv.take(i + 1).drop_last() =~= sv.take(i as int));
            assert(sv.take(i + 1).last() == v@[i as int]@);
        }
        let repeat = r.len() > 0 && crate::text_util::str_eq(r[r.len() - 1].as_str(), v[i].as_str());
        proof {
            if r@.len() > 0 {
                assert(strings_view(r@).last() == r@[r@.len() - 1]@);
            }
        }
        if !repeat {
            let ghost r0 = r@;
            r.push(v[i].clone());
            proof {
                assert(strings_view(r@) =~= strings_view(r0).push(v@[i as int]@));
            }
        }
        i = i + 1;
    }
    proof {
        assert(sv.take(v@.len() as int) =~= sv);
    }
    r
}

proof fn lemma_boundary_within(b: Seq<u8>, i: int)
    requires
        vstd::utf8::valid_utf8(b),
        is_char_boundary(b, i),
    ensures
        0 <= i <= b.len(),
{
}

proof fn lemma_texts_stay_none(content: Seq<char>, hs: Seq<MatchInfoView>, i: int)
    requires
        0 <= i <= hs.len(),
        matched_texts(content, hs.take(i)) is None,
    ensures
        matched_texts(content, hs) is None,
    decreases hs.len(),
{
    if hs.len() == i {
        assert(hs.take(i) =~= hs);
    } else {
        assert(hs.drop_last().take(i) =~= hs.take(i));
        lemma_texts_stay_none(content, hs.drop_last(), i);
    }
}

proof fn lemma_sentences_stay_none(content: Seq<char>, hs: Seq<MatchInfoView>, i: int)
    requires
        0 <= i <= hs.len(),
        sentences_scan(content, hs.take(i)) is None,
    ensures
        sentences_scan(content, hs) is None,
    decreases hs.len(),
{
    if hs.len() == i {
        assert(hs.take(i) =~= hs);
    } else {
        assert(hs.drop_last().take(i) =~= hs.take(i));
        lemma_sentences_stay_none(content, hs.drop_last(), i);
    }
}

/// The statistics of kept parts.
pub open spec fn stats_of(content: Seq<char>, parts: Seq<Seq<char>>, st: ContentStats) -> bool {
    &&& st.original_length == bytes_of(content).len()
    &&& st.filtered_length == bytes_of(joined_with(parts, "\n\n"@)).len()
    &&& st.relevant_paragraphs == parts.len()
}

/// What `extract_content` gives: the content unchanged when filtering is
/// off; the matches and the kept parts joined by blank lines when some
/// keyword is found; `KeywordNotFound` otherwise.
pub open spec fn extraction_matches(c: KeywordConfig, content: Seq<char>, r: Result<KeywordMatchInfo, CrawlError>) -> bool {
    if !(c.enabled && c.keywords@.len() > 0) {
        r matches Ok(info) && {
            &&& info.original_content@ == content
            &&& opt_text(info.filtered_content) == Some(content)
            &&& is_empty_result(info.match_result)
            &&& info.stats.original_length == bytes_of(content).len()
            &&& info.stats.filtered_length == bytes_of(content).len()
            &&& info.stats.relevant_paragraphs == 0
        }
    } else {
        match reported_hits(c, content) {
            Some(hs) => if hs.len() > 0 {
                r matches Ok(info) && kept_parts(content, hs) matches Some(parts) && {
                    &&& info.original_content@ == content
                    &&& opt_text(info.filtered_content) == Some(joined_with(parts, "\n\n"@))
                    &&& result_matches(c, content, info.match_result)
                    &&& stats_of(content, parts, info.stats)
                }
            } else {
                r matches Err(CrawlError::KeywordNotFound)
            },
            None => r matches Err(CrawlError::KeywordNotFound),
        }
    }
}

/// Listing matched texts runs to completion on the content.
pub open spec fn listing_completes(c: KeywordConfig, content: Seq<char>) -> bool {
    &&& match_completes(c, content)
    &&& match reported_hits(c, content) {
        Some(hs) => hs.len() > 0 ==> matched_texts(content, hs) is Some,
        None => true,
    }
}

/// What `extract_matches_only` gives: the matched texts when some keyword
/// is found, `KeywordNotFound` otherwise.
pub open spec fn listing_matches(c: KeywordConfig, content: Seq<char>, r: Result<Vec<String>, CrawlError>) -> bool {
    match reported_hits(c, content) {
        Some(hs) => if hs.len() > 0 {
            r matches Ok(v) && matched_texts(content, hs) == Some(strings_view(v@))
        } else {
            r matches Err(CrawlError::KeywordNotFound)
        },
        None => r matches Err(CrawlError::KeywordNotFound),
    }
}

/// What `get_content_summary` gives: the statistics of the kept parts when
/// some keyword is found, else the content's length with nothing kept.
pub open spec fn summary_matches(c: KeywordConfig, content: Seq<char>, r: Result<ContentStats, CrawlError>) -> bool {
    match reported_hits(c, content) {
        Some(hs) => if hs.len() > 0 {
            r matches Ok(st) && kept_parts(content, hs) matches Some(parts) && stats_of(content, parts, st)
        } else {
            r matches Ok(st) && st.original_length == bytes_of(content).len() && st.filtered_length == 0
                && st.relevant_paragraphs == 0
        },
        None => r matches Ok(st) && st.original_length == bytes_of(content).len() && st.filtered_length == 0
            && st.relevant_paragraphs == 0,
    }
}

/// Keeps the parts of content that contain keywords.
pub struct KeywordExtractor {
    matcher: KeywordMatcher,
}

impl KeywordExtractor {
    pub closed spec fn config_spec(&self) -> KeywordConfig {
        self.matcher.config_spec()
    }

    pub closed spec fn wf(&self) -> bool {
        self.matcher.wf()
    }

    /// An extractor for settings the matcher accepts.
    pub fn new(config: KeywordConfig) -> (r: Result<Self, CrawlError>)
        ensures
            match matcher_error(config) {
                None => r matches Ok(x) && x.config_spec() == config && x.wf(),
                Some(e) => r matches Err(CrawlError::KeywordConfigError(s)) && s@ == e,
            },
    {
        match KeywordMatcher::new(config) {
            Ok(matcher) => Ok(KeywordExtractor { matcher }),
            Err(e) => Err(e),
        }
    }

    /// Where the text two sentences before `position` starts.
    fn find_sentence_start(&self, content: &str, position: usize) -> (r: Option<usize>)
        ensures
            opt_index(r) == sentence_start(bytes_of(content@), position as int, 0),
    {
        let b = content.as_bytes();
        let mut cur = position;
        let mut found: usize = 0;
        while cur > 0 && found < 2
            invariant
                b@ == bytes_of(content@),
                found <= 2,
                sentence_start(b@, position as int, 0) == sentence_start(b@, cur as int, found as nat),
            decreases cur,
        {
            if !content.is_char_boundary(cur) {
                return None;
            }
            match dot_before_at(b, cur) {
                Some(e) => {
                    found = found + 1;
                    if found >= 2 {
                        return Some(e + 1);
                    }
                    cur = e;
                },
                None => {
                    return Some(0);
                },
            }
        }
        Some(0)
    }

    /// Where the text two sentences after `position` ends.
    fn find_sentence_end(&self, content: &str, position: usize) -> (r: Option<usize>)
        ensures
            opt_index(r) == sentence_end(bytes_of(content@), position as int, 0),
    {
        let b = content.as_bytes();
        let n = b.len();
        let mut cur = position;
        let mut found: usize = 0;
        while cur < n && found < 2
            invariant
                b@ == bytes_of(content@),
                n == b@.len(),
                found <= 2,
                sentence_end(b@, position as int, 0) == sentence_end(b@, cur as int, found as nat),
            decreases n - cur,
        {
            if !content.is_char_boundary(cur) {
                return None;
            }
            match dot_from_at(b, cur) {
                Some(a) => {
                    found = found + 1;
                    if found >= 2 {
                        return Some(if a + 1 < n { a + 1 } else { n });
                    }
                    cur = a + 1;
                },
                None => {
                    return Some(n);
                },
            }
        }
        Some(n)
    }

    /// The distinct trimmed sentences around the occurrences, sorted.
    fn extract_sentences_around_matches(&self, content: &str, matches: &Vec<MatchInfo>) -> (r: Option<Vec<String>>)
        requires
            forall|j: int| 0 <= j < matches@.len() ==> (#[trigger] matches@[j]).position + matches@[j].length <= usize::MAX,
        ensures
            match sentences_scan(content@, infos_view(matches@)) {
                Some(s) => r matches Some(v) && strings_view(v@) == dedup_adjacent(sorted_texts(s)),
                None => r is None,
            },
    {
        let ghost hs = infos_view(matches@);
        let ghost b = bytes_of(content@);
        let mut sentences: Vec<String> = Vec::new();
        let mut i: usize = 0;
        proof {
            assert(hs.take(0) =~= Seq::<MatchInfoView>::empty());
            assert(strings_view(sentences@) =~= Seq::<Seq<char>>::empty());
        }
        while i < matches.len()
            invariant
                hs == infos_view(matches@),
                b == bytes_of(content@),
                forall|j: int| 0 <= j < matches@.len() ==> (#[trigger] matches@[j]).position + matches@[j].length
                    <= usize::MAX,
                i <= matches@.len(),
                sentences_scan(content@, hs.take(i as int)) == Some(strings_view(sentences@)),
            decreases matches@.len() - i,
        {
            proof {
                assert(hs.take(i + 1).drop_last() =~= hs.take(i as int));
                assert(hs.take(i + 1).last() == matches@[i as int]@);
            }
            let pos = matches[i].position;
            let end_pos = pos + matches[i].length;
            let s = self.find_sentence_start(content, pos);
            let e = self.find_sentence_end(content, end_pos);
            let cut = match (s, e) {
                (Some(s), Some(e)) => if s <= e && content.is_char_boundary(s) && content.is_char_boundary(e) {
                    proof {
                        vstd::utf8::encode_utf8_valid_utf8(content@);
                        lemma_boundary_within(bytes_of(content@), e as int);
                    }
                    Some(byte_slice(content, s, e))
                } else {
                    None
                },
                _ => None,
            };
            match cut {
                Some(piece) => {
                    let t = trim_str(piece.as_str());
                    if t.unicode_len() > 0 {
                        let ghost s0 = sentences@;
                        sentences.push(t);
                        proof {
                            assert(strings_view(sentences@) =~= strings_view(s0).push(t@));
                        }
                    }
                },
                None => {
                    proof {
                        lemma_sentences_stay_none(content@, hs, i + 1);
                    }
                    return None;
                },
            }
            i = i + 1;
        }
        proof {
            assert(hs.take(matches@.len() as int) =~= hs);
        }
        let sorted = sort_texts(&sentences);
        Some(dedup_texts(sorted))
    }

    /// The kept parts joined by blank lines, with their statistics.
    fn filter_content(&self, content: &str, matches: &Vec<MatchInfo>) -> (r: Option<(String, ContentStats)>)
        requires
            forall|j: int| 0 <= j < matches@.len() ==> (#[trigger] matches@[j]).position + matches@[j].length <= usize::MAX,
        ensures
            match kept_parts(content@, infos_view(matches@)) {
                Some(parts) => r matches Some((f, st)) && f@ == joined_with(parts, "\n\n"@) && stats_of(content@, parts, st),
                None => r is None,
            },
    {
        let original_length = content.as_bytes().len();
        let paragraphs = split_char(content, '\n');
        let mut relevant = paragraphs_with_matches(content, &paragraphs, matches);
        if relevant.len() == 0 {
            relevant = match self.extract_sentences_around_matches(content, matches) {
                Some(v) => v,
                None => {
                    return None;
                },
            };
        }
        let count = relevant.len();
        let filtered = join_with(&relevant, "\n\n");
        let filtered_length = filtered.as_str().as_bytes().len();
        Some((filtered, ContentStats { original_length, filtered_length, relevant_paragraphs: count }))
    }

    /// Extraction, or `None` on content it would not complete on.
    fn extract_checked(&self, content: &str) -> (r: Option<Result<KeywordMatchInfo, CrawlError>>)
        requires
            self.wf(),
        ensures
            r is Some <==> extraction_completes(self.config_spec(), content@),
            r matches Some(x) ==> extraction_matches(self.config_spec(), content@, x),
    {
        let c = self.matcher.config();
        if !c.should_filter() {
            let len = content.as_bytes().len();
            return Some(
                Ok(
                    KeywordMatchInfo {
                        original_content: content.to_string(),
                        filtered_content: Some(content.to_string()),
                        match_result: MatchResult::default(),
                        stats: ContentStats { original_length: len, filtered_length: len, relevant_paragraphs: 0 },
                    },
                ),
            );
        }
        let match_result = match self.matcher.try_match_keywords(content) {
            Some(Ok(m)) => m,
            Some(Err(e)) => {
                return Some(Err(e));
            },
            None => {
                return None;
            },
        };
        if !match_result.found {
            return Some(Err(CrawlError::KeywordNotFound));
        }
        match self.filter_content(content, &match_result.matches) {
            Some((filtered, stats)) => Some(
                Ok(
                    KeywordMatchInfo {
                        original_content: content.to_string(),
                        filtered_content: Some(filtered),
                        match_result,
                        stats,
                    },
                ),
            ),
            None => None,
        }
    }

    /// Keeps the parts of the content that contain keywords (see
    /// `extraction_matches`).
    pub fn extract_content(&self, content: &str) -> (r: Result<KeywordMatchInfo, CrawlError>)
        requires
            self.wf(),
            extraction_completes(self.config_spec(), content@),
        ensures
            extraction_matches(self.config_spec(), content@, r),
    {
        match self.extract_checked(content) {
            Some(x) => x,
            None => Err(CrawlError::KeywordNotFound),
        }
    }

    /// The matched texts, or `None` when one cannot be cut.
    fn matched_texts_of(&self, content: &str, matches: &Vec<MatchInfo>) -> (r: Option<Vec<String>>)
        ensures
            match matched_texts(content@, infos_view(matches@)) {
                Some(t) => r matches Some(v) && strings_view(v@) == t,
                None => r is None,
            },
    {
        let ghost hs = infos_view(matches@);
        let tl = content.as_bytes().len();
        let mut out: Vec<String> = Vec::new();
        let mut i: usize = 0;
        proof {
            assert(hs.take(0) =~= Seq::<MatchInfoView>::empty());
            assert(strings_view(out@) =~= Seq::<Seq<char>>::empty());
            vstd::utf8::encode_utf8_valid_utf8(content@);
        }
        while i < matches.len()
            invariant
                hs == infos_view(matches@),
                tl == bytes_of(content@).len(),
                vstd::utf8::valid_utf8(bytes_of(content@)),
                i <= matches@.len(),
                matched_texts(content@, hs.take(i as int)) == Some(strings_view(out@)),
            decreases matches@.len() - i,
        {
            proof {
                assert(hs.take(i + 1).drop_last() =~= hs.take(i as int));
                assert(hs.take(i + 1).last() == matches@[i as int]@);
            }
            let m = &matches[i];
            let piece = match &m.context {
                Some(c) => c.clone(),
                None => {
                    let p = m.position;
                    if m.length > tl || p > tl - m.length || !content.is_char_boundary(p)
                        || !content.is_char_boundary(p + m.length) {
                        proof {
                            lemma_texts_stay_none(content@, hs, i + 1);
                        }
                        return None;
                    }
                    byte_slice(content, p, p + m.length)
                },
            };
            let ghost o0 = out@;
            out.push(piece);
            proof {
                assert(strings_view(out@) =~= strings_view(o0).push(piece@));
            }
            i = i + 1;
        }
        proof {
            assert(hs.take(matches@.len() as int) =~= hs);
        }
        Some(out)
    }

    fn matches_only_checked(&self, content: &str) -> (r: Option<Result<Vec<String>, CrawlError>>)
        requires
            self.wf(),
        ensures
            r is Some <==> listing_completes(self.config_spec(), content@),
            r matches Some(x) ==> listing_matches(self.config_spec(), content@, x),
    {
        let match_result = match self.matcher.try_match_keywords(content) {
            Some(Ok(m)) => m,
            Some(Err(e)) => {
                return Some(Err(e));
            },
            None => {
                return None;
            },
        };
        if !match_result.found {
            return Some(Err(CrawlError::KeywordNotFound));
        }
        match self.matched_texts_of(content, &match_result.matches) {
            Some(v) => Some(Ok(v)),
            None => None,
        }
    }

    /// The text of each match: its context when kept, else the matched
    /// text itself (see `listing_matches`).
    pub fn extract_matches_only(&self, content: &str) -> (r: Result<Vec<String>, CrawlError>)
        requires
            self.wf(),
            listing_completes(self.config_spec(), content@),
        ensures
            listing_matches(self.config_spec(), content@, r),
    {
        match self.matches_only_checked(content) {
            Some(x) => x,
            None => Err(CrawlError::KeywordNotFound),
        }
    }

    /// The texts of the matches on content where they can be listed;
    /// `None` on other content.
    pub fn try_extract_matches_only(&self, content: &str) -> (r: Option<Result<Vec<String>, CrawlError>>)
        requires
            self.wf(),
        ensures
            r is Some <==> listing_completes(self.config_spec(), content@),
            r matches Some(x) ==> listing_matches(self.config_spec(), content@, x),
    {
        self.matches_only_checked(content)
    }

    fn summary_checked(&self, content: &str) -> (r: Option<Result<ContentStats, CrawlError>>)
        requires
            self.wf(),
        ensures
            r is Some <==> extraction_completes(self.config_spec(), content@),
            r matches Some(x) ==> summary_matches(self.config_spec(), content@, x),
    {
        let match_result = match self.matcher.try_match_keywords(content) {
            Some(Ok(m)) => m,
            Some(Err(e)) => {
                return Some(Err(e));
            },
            None => {
                return None;
            },
        };
        if match_result.found {
            match self.filter_content(content, &match_result.matches) {
                Some((_, stats)) => Some(Ok(stats)),
                None => None,
            }
        } else {
            let len = content.as_bytes().len();
            Some(Ok(ContentStats { original_length: len, filtered_length: 0, relevant_paragraphs: 0 }))
        }
    }

    /// Statistics of what extraction keeps (see `summary_matches`).
    pub fn get_content_summary(&self, content: &str) -> (r: Result<ContentStats, CrawlError>)
        requires
            self.wf(),
            extraction_completes(self.config_spec(), content@),
        ensures
            summary_matches(self.config_spec(), content@, r),
    {
        match self.summary_checked(content) {
            Some(x) => x,
            None => Err(CrawlError::KeywordNotFound),
        }
    }

    /// The statistics on content extraction completes on; `None` on other
    /// content.
    pub fn try_get_content_summary(&self, content: &str) -> (r: Option<Result<ContentStats, CrawlError>>)
        requires
            self.wf(),
        ensures
            r is Some <==> extraction_completes(self.config_spec(), content@),
            r matches Some(x) ==> summary_matches(self.config_spec(), content@, x),
    {
        self.summary_checked(content)
    }

    /// Extraction on content it completes on; `None` on other content.
    pub fn try_extract_content(&self, content: &str) -> (r: Option<Result<KeywordMatchInfo, CrawlError>>)
        requires
            self.wf(),
        ensures
            r is Some <==> extraction_completes(self.config_spec(), content@),
            r matches Some(x) ==> extraction_matches(self.config_spec(), content@, x),
    {
        self.extract_checked(content)
    }
}

} // verus!
