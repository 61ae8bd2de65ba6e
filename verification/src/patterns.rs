//! Regular expressions, through the `regex` crate.
use vstd::prelude::*;
use vstd::utf8::is_char_boundary;
use crate::byte_text::bytes_of;

verus! {

/// The error text `regex::Regex::new` gives for a pattern that does not
/// compile, or `None` for a valid pattern.
pub uninterp spec fn regex_compile_error(pattern: Seq<char>) -> Option<Seq<char>>;

/// Calls `regex::Regex::new` and keeps only whether it failed, with the
/// error's `Display` text. The outcome is named `regex_compile_error` of the
/// pattern.
#[verifier::external_body]
pub(crate) fn regex_error(pattern: &str) -> (r: Option<String>)
    ensures
        match r {
            Some(e) => regex_compile_error(pattern@) == Some(e@),
            None => regex_compile_error(pattern@) is None,
        },
{
    match regex::Regex::new(pattern) {
        Ok(_) => None,
        Err(e) => Some(e.to_string()),
    }
}

/// Whether `Regex::is_match` finds a match of a pattern in a text.
pub uninterp spec fn regex_matches(pattern: Seq<char>, text: Seq<char>) -> bool;

/// Calls `regex::Regex::new` on a pattern that compiles, then
/// `Regex::is_match` on the text; the result is named `regex_matches`.
#[verifier::external_body]
pub(crate) fn regex_is_match(pattern: &str, text: &str) -> (r: bool)
    requires
        regex_compile_error(pattern@) is None,
    ensures
        r == regex_matches(pattern@, text@),
{
    match regex::Regex::new(pattern) {
        Ok(re) => re.is_match(text),
        Err(_) => false,
    }
}

/// The capture groups of each match `Regex::captures_iter` finds for a
/// pattern in a text, in order; each group is the matched text or `None`
/// when it did not take part in the match.
pub uninterp spec fn regex_capture_groups(pattern: Seq<char>, text: Seq<char>) -> Seq<Seq<Option<Seq<char>>>>;

/// The text of each group of each match.
pub open spec fn captures_view(v: Seq<Vec<Option<String>>>) -> Seq<Seq<Option<Seq<char>>>> {
    v.map_values(|c: Vec<Option<String>>| c@.map_values(|g: Option<String>| crate::web_url::opt_text(g)))
}

/// Calls `regex::Regex::new` on a pattern that compiles, then
/// `Regex::captures_iter` on the text, keeping the text of every group of
/// every match; the result is named `regex_capture_groups` of the two
/// texts.
#[verifier::external_body]
pub(crate) fn captures_all(pattern: &str, text: &str) -> (r: Vec<Vec<Option<String>>>)
    requires
        regex_compile_error(pattern@) is None,
    ensures
        captures_view(r@) == regex_capture_groups(pattern@, text@),
{
    match regex::Regex::new(pattern) {
        Ok(re) => re.captures_iter(text).map(|c| c.iter().map(|g| g.map(|m| m.as_str().to_string())).collect()).collect(),
        Err(_) => Vec::new(),
    }
}

/// The byte offsets (start, end) of each match `Regex::find_iter` finds for
/// a pattern in a text, in order.
pub uninterp spec fn regex_match_spans(pattern: Seq<char>, text: Seq<char>) -> Seq<(int, int)>;

pub open spec fn spans_view(v: Seq<(usize, usize)>) -> Seq<(int, int)> {
    v.map_values(|s: (usize, usize)| (s.0 as int, s.1 as int))
}

/// Calls `regex::Regex::new` on a pattern that compiles, then
/// `Regex::find_iter` on the text, keeping each match's `start` and `end`;
/// the result is named `regex_match_spans`. As the crate documents, a match
/// lies within the text and starts and ends on character boundaries.
#[verifier::external_body]
pub(crate) fn match_spans(pattern: &str, text: &str) -> (r: Vec<(usize, usize)>)
    requires
        regex_compile_error(pattern@) is None,
    ensures
        spans_view(r@) == regex_match_spans(pattern@, text@),
        forall|i: int|
            0 <= i < r@.len() ==> {
                let sp = #[trigger] r@[i];
                &&& sp.0 <= sp.1 <= bytes_of(text@).len()
                &&& is_char_boundary(bytes_of(text@), sp.0 as int)
                &&& is_char_boundary(bytes_of(text@), sp.1 as int)
            },
{
    match regex::Regex::new(pattern) {
        Ok(re) => re.find_iter(text).map(|m| (m.start(), m.end())).collect(),
        Err(_) => Vec::new(),
    }
}

/// What `Regex::replace_all` gives for a pattern, a text and a replacement
/// (with `$` references in the replacement expanded).
pub uninterp spec fn regex_replaced(pattern: Seq<char>, text: Seq<char>, replacement: Seq<char>) -> Seq<char>;

/// Calls `regex::Regex::new` on a pattern that compiles, then
/// `Regex::replace_all` on the text; the result is named `regex_replaced`
/// of the three texts.
#[verifier::external_body]
pub(crate) fn replace_all(pattern: &str, text: &str, replacement: &str) -> (r: String)
    requires
        regex_compile_error(pattern@) is None,
    ensures
        r@ == regex_replaced(pattern@, text@, replacement@),
{
    match regex::Regex::new(pattern) {
        Ok(re) => re.replace_all(text, replacement).into_owned(),
        Err(_) => text.to_string(),
    }
}

/// The first pattern that does not compile, with its error.
pub open spec fn first_bad(ps: Seq<String>) -> Option<(Seq<char>, Seq<char>)>
    decreases ps.len(),
{
    if ps.len() == 0 {
        None
    } else {
        match regex_compile_error(ps[0]@) {
            Some(e) => Some((ps[0]@, e)),
            None => first_bad(ps.drop_first()),
        }
    }
}

/// Every pattern of a list without a bad one compiles.
pub proof fn lemma_no_bad_pattern(ps: Seq<String>)
    requires
        first_bad(ps) is None,
    ensures
        forall|j: int| 0 <= j < ps.len() ==> (#[trigger] regex_compile_error(ps[j]@)) is None,
    decreases ps.len(),
{
    if ps.len() > 0 {
        lemma_no_bad_pattern(ps.drop_first());
        assert forall|j: int| 0 <= j < ps.len() implies (#[trigger] regex_compile_error(ps[j]@)) is None by {
            if j > 0 {
                assert(ps[j] == ps.drop_first()[j - 1]);
            }
        }
    }
}

/// The first pattern of the list that does not compile, with its error
/// text.
pub fn first_invalid_pattern(v: &Vec<String>) -> (r: Option<(String, String)>)
    ensures
        match r {
            Some((p, e)) => first_bad(v@) == Some((p@, e@)),
            None => first_bad(v@) is None,
        },
{
    let mut i: usize = 0;
    assert(v@.skip(0) =~= v@);
    while i < v.len()
        invariant
            i <= v@.len(),
            first_bad(v@) == first_bad(v@.skip(i as int)),
        decreases v@.len() - i,
    {
        proof {
            assert(v@.skip(i as int).drop_first() =~= v@.skip(i as int + 1));
            assert(v@.skip(i as int)[0] == v@[i as int]);
        }
        match regex_error(v[i].as_str()) {
            Some(e) => {
                let p = v[i].clone();
                return Some((p, e));
            },
            None => {},
        }
        i = i + 1;
    }
    proof {
        assert(v@.skip(i as int).len() == 0);
    }
    None
}

} // verus!
