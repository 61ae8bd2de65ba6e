//! Character-level string operations with exact specifications.
use vstd::prelude::*;

verus! {

/// `needle` occurs in `hay` starting at position `i`.
pub open spec fn occurs_at(hay: Seq<char>, needle: Seq<char>, i: int) -> bool {
    0 <= i && i + needle.len() <= hay.len() && hay.subrange(i, i + needle.len()) == needle
}

/// `needle` occurs somewhere in `hay`.
pub open spec fn is_substring(needle: Seq<char>, hay: Seq<char>) -> bool {
    exists|i: int| occurs_at(hay, needle, i)
}

pub open spec fn has_prefix(s: Seq<char>, p: Seq<char>) -> bool {
    p.len() <= s.len() && s.subrange(0, p.len() as int) == p
}

pub open spec fn has_suffix(s: Seq<char>, p: Seq<char>) -> bool {
    p.len() <= s.len() && s.subrange(s.len() - p.len(), s.len() as int) == p
}

/// Unicode `White_Space` characters, as `char::is_whitespace` defines them.
pub open spec fn is_ws(c: char) -> bool {
    ||| c == '\t' || c == '\n' || c == '\x0B' || c == '\x0C' || c == '\r' || c == ' '
    ||| c == '\u{85}' || c == '\u{A0}' || c == '\u{1680}'
    ||| ('\u{2000}' <= c && c <= '\u{200A}')
    ||| c == '\u{2028}' || c == '\u{2029}' || c == '\u{202F}' || c == '\u{205F}'
    ||| c == '\u{3000}'
}

/// Number of maximal runs of non-whitespace characters (the words that
/// `split_whitespace` yields).
pub open spec fn word_count(s: Seq<char>) -> nat
    decreases s.len(),
{
    if s.len() == 0 {
        0
    } else {
        let prev = word_count(s.drop_last());
        if !is_ws(s.last()) && (s.len() == 1 || is_ws(s[s.len() - 2])) {
            prev + 1
        } else {
            prev
        }
    }
}

/// Decimal digits of a natural number, most significant first.
pub open spec fn decimal(n: nat) -> Seq<char>
    decreases n,
{
    if n < 10 {
        seq![digit_char(n)]
    } else {
        decimal(n / 10).push(digit_char(n % 10))
    }
}

pub open spec fn digit_char(d: nat) -> char {
    if d == 0 { '0' }
    else if d == 1 { '1' }
    else if d == 2 { '2' }
    else if d == 3 { '3' }
    else if d == 4 { '4' }
    else if d == 5 { '5' }
    else if d == 6 { '6' }
    else if d == 7 { '7' }
    else if d == 8 { '8' }
    else { '9' }
}

/// What `str::to_lowercase` returns for a string (full Unicode case mapping).
pub uninterp spec fn lowercase_of(s: Seq<char>) -> Seq<char>;

/// What `str::to_uppercase` returns for a string (full Unicode case mapping).
pub uninterp spec fn uppercase_of(s: Seq<char>) -> Seq<char>;

/// An ASCII upper-case letter made lower case; any other character kept.
pub open spec fn ascii_lower(c: char) -> char {
    if 'A' <= c && c <= 'Z' { ((c as u32) + 32) as char } else { c }
}

/// An ASCII lower-case letter made upper case; any other character kept.
pub open spec fn ascii_upper(c: char) -> char {
    if 'a' <= c && c <= 'z' { ((c as u32) - 32) as char } else { c }
}

/// Every character is ASCII.
pub open spec fn is_ascii_text(s: Seq<char>) -> bool {
    forall|i: int| 0 <= i < s.len() ==> (#[trigger] s[i] as u32) < 128
}

/// The text with its ASCII letters made lower case.
pub open spec fn ascii_lowercased(s: Seq<char>) -> Seq<char> {
    s.map_values(|c: char| ascii_lower(c))
}

/// The text with its ASCII letters made upper case.
pub open spec fn ascii_uppercased(s: Seq<char>) -> Seq<char> {
    s.map_values(|c: char| ascii_upper(c))
}

/// Calls `str::to_lowercase`; the result is named `lowercase_of` of the
/// input. The Unicode lower-case mapping the documentation refers to maps
/// the ASCII letters `A`-`Z` to `a`-`z` and keeps every other ASCII
/// character, one for one, which is stated for ASCII text.
#[verifier::external_body]
pub(crate) fn to_lowercase(s: &str) -> (r: String)
    ensures
        r@ == lowercase_of(s@),
        is_ascii_text(s@) ==> r@ == ascii_lowercased(s@),
{
    s.to_lowercase()
}

/// Calls `str::to_uppercase`; the result is named `uppercase_of` of the
/// input. For ASCII text, the letters `a`-`z` become `A`-`Z` and every
/// other character is kept, one for one.
#[verifier::external_body]
pub(crate) fn to_uppercase(s: &str) -> (r: String)
    ensures
        r@ == uppercase_of(s@),
        is_ascii_text(s@) ==> r@ == ascii_uppercased(s@),
{
    s.to_uppercase()
}

/// Calls `String::push`: the character is appended.
#[verifier::external_body]
pub(crate) fn push_char(s: &mut String, c: char)
    ensures
        final(s)@ == old(s)@.push(c),
{
    s.push(c);
}

/// Whether `char::is_alphanumeric` holds of a character (the Unicode
/// Alphabetic or Numeric property).
pub uninterp spec fn alphanumeric(c: char) -> bool;

/// Calls `char::is_alphanumeric`. The result is named `alphanumeric` of the
/// character; among ASCII characters exactly the letters and digits are
/// alphanumeric.
#[verifier::external_body]
pub(crate) fn is_alphanumeric_char(c: char) -> (r: bool)
    ensures
        r == alphanumeric(c),
        (c as u32) < 128 ==> (r <==> (('a' <= c && c <= 'z') || ('A' <= c && c <= 'Z') || ('0' <= c && c <= '9'))),
{
    c.is_alphanumeric()
}

/// The characters of a string, in order.
pub fn chars_of(s: &str) -> (v: Vec<char>)
    ensures
        v@ == s@,
{
    let mut v: Vec<char> = Vec::new();
    for c in it: s.chars()
        invariant
            it.seq() == s@,
            v@ == it.seq().take(it.index() as int),
    {
        v.push(c);
    }
    v
}

/// A string made of the given characters.
pub fn string_from_chars(v: &Vec<char>) -> (s: String)
    ensures
        s@ == v@,
{
    let mut s = String::new();
    let mut i: usize = 0;
    while i < v.len()
        invariant
            i <= v.len(),
            s@ == v@.take(i as int),
        decreases v.len() - i,
    {
        push_char(&mut s, v[i]);
        proof {
            assert(v@.take(i + 1) == v@.take(i as int).push(v@[i as int]));
        }
        i = i + 1;
    }
    proof {
        assert(v@.take(v@.len() as int) == v@);
    }
    s
}

/// Appends the characters of `t` to `s`.
pub fn push_str(s: &mut String, t: &str)
    ensures
        final(s)@ == old(s)@ + t@,
{
    s.append(t);
}

/// `a` and `b` hold the same characters.
pub fn str_eq(a: &str, b: &str) -> (r: bool)
    ensures
        r == (a@ == b@),
{
    let av = chars_of(a);
    let bv = chars_of(b);
    if av.len() != bv.len() {
        return false;
    }
    let mut i: usize = 0;
    while i < av.len()
        invariant
            av@ == a@,
            bv@ == b@,
            av.len() == bv.len(),
            i <= av.len(),
            forall|j: int| 0 <= j < i ==> av@[j] == bv@[j],
        decreases av.len() - i,
    {
        if av[i] != bv[i] {
            return false;
        }
        i = i + 1;
    }
    proof {
        assert(av@ =~= bv@);
    }
    true
}

/// Whether `needle` occurs in `hay` at position `i` (by characters).
fn occurs_at_exec(hay: &Vec<char>, needle: &Vec<char>, i: usize) -> (r: bool)
    requires
        i + needle.len() <= hay.len(),
    ensures
        r == occurs_at(hay@, needle@, i as int),
{
    let mut j: usize = 0;
    while j < needle.len()
        invariant
            i + needle.len() <= hay.len(),
            j <= needle.len(),
            forall|k: int| 0 <= k < j ==> hay@[i + k] == needle@[k],
        decreases needle.len() - j,
    {
        if hay[i + j] != needle[j] {
            proof {
                assert(hay@.subrange(i as int, i + needle.len())[j as int] != needle@[j as int]);
            }
            return false;
        }
        j = j + 1;
    }
    proof {
        assert(hay@.subrange(i as int, i + needle.len()) =~= needle@);
    }
    true
}

/// `s` starts with `p`.
pub fn starts_with(s: &str, p: &str) -> (r: bool)
    ensures
        r == has_prefix(s@, p@),
{
    let sv = chars_of(s);
    let pv = chars_of(p);
    if pv.len() > sv.len() {
        return false;
    }
    occurs_at_exec(&sv, &pv, 0)
}

/// `s` ends with `p`.
pub fn ends_with(s: &str, p: &str) -> (r: bool)
    ensures
        r == has_suffix(s@, p@),
{
    let sv = chars_of(s);
    let pv = chars_of(p);
    if pv.len() > sv.len() {
        return false;
    }
    occurs_at_exec(&sv, &pv, sv.len() - pv.len())
}

/// `needle` occurs in `hay`.
pub fn contains_str(hay: &str, needle: &str) -> (r: bool)
    ensures
        r == is_substring(needle@, hay@),
{
    let hv = chars_of(hay);
    let nv = chars_of(needle);
    if nv.len() > hv.len() {
        return false;
    }
    let mut i: usize = 0;
    let last = hv.len() - nv.len();
    while i < last
        invariant
            hv@ == hay@,
            nv@ == needle@,
            nv.len() <= hv.len(),
            last == hv.len() - nv.len(),
            i <= last,
            forall|k: int| 0 <= k < i ==> !occurs_at(hay@, needle@, k),
        decreases last - i,
    {
        if occurs_at_exec(&hv, &nv, i) {
            return true;
        }
        i = i + 1;
    }
    if occurs_at_exec(&hv, &nv, last) {
        return true;
    }
    proof {
        assert forall|k: int| !occurs_at(hay@, needle@, k) by {
            if 0 <= k && k + needle@.len() <= hay@.len() {
                assert(k < i || k == last);
            }
        }
    }
    false
}

/// Whether `c` is Unicode whitespace.
pub fn is_whitespace_char(c: char) -> (r: bool)
    ensures
        r == is_ws(c),
{
    c == '\t' || c == '\n' || c == '\x0B' || c == '\x0C' || c == '\r' || c == ' '
        || c == '\u{85}' || c == '\u{A0}' || c == '\u{1680}'
        || ('\u{2000}' <= c && c <= '\u{200A}')
        || c == '\u{2028}' || c == '\u{2029}' || c == '\u{202F}' || c == '\u{205F}'
        || c == '\u{3000}'
}

/// Number of whitespace-separated words in `s`.
pub fn count_words(s: &str) -> (n: u64)
    ensures
        n == word_count(s@),
{
    let v = chars_of(s);
    let mut n: u64 = 0;
    let mut i: usize = 0;
    while i < v.len()
        invariant
            v@ == s@,
            i <= v.len(),
            n == word_count(v@.take(i as int)),
            n <= i,
        decreases v.len() - i,
    {
        proof {
            assert(v@.take(i + 1).drop_last() == v@.take(i as int));
        }
        let cur_ws = is_whitespace_char(v[i]);
        if !cur_ws && (i == 0 || is_whitespace_char(v[i - 1])) {
            n = n + 1;
        }
        i = i + 1;
    }
    proof {
        assert(v@.take(v@.len() as int) == v@);
    }
    n
}

pub open spec fn digit_of(d: u64) -> char {
    digit_char(d as nat)
}

/// Decimal rendering of an unsigned integer.
pub fn u64_to_string(n: u64) -> (s: String)
    ensures
        s@ == decimal(n as nat),
    decreases n,
{
    let d = n % 10;
    let c = if d == 0 { '0' }
        else if d == 1 { '1' }
        else if d == 2 { '2' }
        else if d == 3 { '3' }
        else if d == 4 { '4' }
        else if d == 5 { '5' }
        else if d == 6 { '6' }
        else if d == 7 { '7' }
        else if d == 8 { '8' }
        else { '9' };
    if n < 10 {
        let mut s = String::new();
        push_char(&mut s, c);
        proof {
            assert(s@ =~= seq![digit_char(n as nat)]);
        }
        s
    } else {
        let mut s = u64_to_string(n / 10);
        push_char(&mut s, c);
        s
    }
}

/// The text of an optional string.
pub open spec fn opt_seq(o: Option<String>) -> Option<Seq<char>> {
    match o {
        Some(s) => Some(s@),
        None => None,
    }
}

/// The texts of a list of strings.
pub open spec fn strings_view(v: Seq<String>) -> Seq<Seq<char>> {
    v.map_values(|s: String| s@)
}

/// The texts of a list of string pairs.
pub open spec fn pairs_view(v: Seq<(String, String)>) -> Seq<(Seq<char>, Seq<char>)> {
    v.map_values(|p: (String, String)| (p.0@, p.1@))
}

/// A copy of an optional string.
pub fn clone_opt_string(o: &Option<String>) -> (r: Option<String>)
    ensures
        opt_seq(r) == opt_seq(*o),
{
    match o {
        Some(s) => Some(s.clone()),
        None => None,
    }
}

/// A copy of a list of strings.
pub fn clone_strings(v: &Vec<String>) -> (r: Vec<String>)
    ensures
        strings_view(r@) == strings_view(v@),
{
    let mut r: Vec<String> = Vec::new();
    let mut i: usize = 0;
    while i < v.len()
        invariant
            i <= v.len(),
            r.len() == i,
            forall|j: int| 0 <= j < i ==> r@[j]@ == v@[j]@,
        decreases v.len() - i,
    {
        r.push(v[i].clone());
        i = i + 1;
    }
    proof {
        assert(strings_view(r@) =~= strings_view(v@));
    }
    r
}

/// A copy of a list of string pairs.
pub fn clone_pairs(v: &Vec<(String, String)>) -> (r: Vec<(String, String)>)
    ensures
        pairs_view(r@) == pairs_view(v@),
{
    let mut r: Vec<(String, String)> = Vec::new();
    let mut i: usize = 0;
    while i < v.len()
        invariant
            i <= v.len(),
            r.len() == i,
            forall|j: int| 0 <= j < i ==> r@[j].0@ == v@[j].0@ && r@[j].1@ == v@[j].1@,
        decreases v.len() - i,
    {
        let a = v[i].0.clone();
        let b = v[i].1.clone();
        r.push((a, b));
        i = i + 1;
    }
    proof {
        assert(pairs_view(r@) =~= pairs_view(v@));
    }
    r
}

/// `a` followed by `b`.
pub fn concat_str(a: &str, b: &str) -> (r: String)
    ensures
        r@ == a@ + b@,
{
    let mut s = a.to_string();
    s.append(b);
    s
}

/// The text without its leading whitespace.
pub open spec fn trim_start_seq(s: Seq<char>) -> Seq<char>
    decreases s.len(),
{
    if s.len() > 0 && is_ws(s[0]) { trim_start_seq(s.drop_first()) } else { s }
}

/// The text without its trailing whitespace.
pub open spec fn trim_end_seq(s: Seq<char>) -> Seq<char>
    decreases s.len(),
{
    if s.len() > 0 && is_ws(s.last()) { trim_end_seq(s.drop_last()) } else { s }
}

/// The text without leading and trailing whitespace, as `str::trim` gives.
pub open spec fn trim_seq(s: Seq<char>) -> Seq<char> {
    trim_end_seq(trim_start_seq(s))
}

proof fn lemma_trim_start(s: Seq<char>, a: int)
    requires
        0 <= a <= s.len(),
        forall|i: int| 0 <= i < a ==> is_ws(#[trigger] s[i]),
        a < s.len() ==> !is_ws(s[a]),
    ensures
        trim_start_seq(s) == s.skip(a),
    decreases a,
{
    if a == 0 {
        assert(s.skip(0) =~= s);
    } else {
        let t = s.drop_first();
        assert forall|i: int| 0 <= i < a - 1 implies is_ws(#[trigger] t[i]) by {
            assert(t[i] == s[i + 1]);
        }
        lemma_trim_start(t, a - 1);
        assert(t.skip(a - 1) =~= s.skip(a));
    }
}

proof fn lemma_trim_end(s: Seq<char>, b: int)
    requires
        0 <= b <= s.len(),
        forall|i: int| b <= i < s.len() ==> is_ws(#[trigger] s[i]),
        b > 0 ==> !is_ws(s[b - 1]),
    ensures
        trim_end_seq(s) == s.take(b),
    decreases s.len() - b,
{
    if b == s.len() {
        assert(s.take(b) =~= s);
    } else {
        let t = s.drop_last();
        lemma_trim_end(t, b);
        assert(t.take(b) =~= s.take(b));
    }
}

/// The text without leading and trailing whitespace.
pub fn trim_str(s: &str) -> (r: String)
    ensures
        r@ == trim_seq(s@),
{
    let v = chars_of(s);
    let n = v.len();
    let mut a: usize = 0;
    while a < n && is_whitespace_char(v[a])
        invariant
            n == v@.len(),
            a <= n,
            forall|i: int| 0 <= i < a ==> is_ws(#[trigger] v@[i]),
        decreases n - a,
    {
        a = a + 1;
    }
    let mut b: usize = n;
    while b > a && is_whitespace_char(v[b - 1])
        invariant
            n == v@.len(),
            a <= b <= n,
            forall|i: int| b <= i < n ==> is_ws(#[trigger] v@[i]),
        decreases b,
    {
        b = b - 1;
    }
    let mut r = String::new();
    let mut k: usize = a;
    while k < b
        invariant
            n == v@.len(),
            a <= k <= b <= n,
            r@ == v@.subrange(a as int, k as int),
        decreases b - k,
    {
        push_char(&mut r, v[k]);
        proof {
            assert(v@.subrange(a as int, k as int + 1) =~= v@.subrange(a as int, k as int).push(v@[k as int]));
        }
        k = k + 1;
    }
    proof {
        lemma_trim_start(v@, a as int);
        let t = v@.skip(a as int);
        assert forall|i: int| b - a <= i < t.len() implies is_ws(#[trigger] t[i]) by {
            assert(t[i] == v@[i + a]);
        }
        if b > a {
            assert(t[b - a - 1] == v@[b - 1]);
        }
        lemma_trim_end(t, b - a);
        assert(t.take(b - a) =~= v@.subrange(a as int, b as int));
    }
    r
}

/// Whether the text is empty once trimmed (only whitespace).
pub fn is_blank(s: &str) -> (r: bool)
    ensures
        r == (trim_seq(s@).len() == 0),
{
    let t = trim_str(s);
    t.unicode_len() == 0
}

/// The pieces of `s` between occurrences of `sep`, as `str::split` with a
/// character separator yields them (the empty text gives one empty piece).
pub open spec fn split_seq(s: Seq<char>, sep: char) -> Seq<Seq<char>>
    decreases s.len(),
{
    if s.len() == 0 {
        seq![Seq::<char>::empty()]
    } else {
        let rest = split_seq(s.drop_last(), sep);
        if s.last() == sep {
            rest.push(Seq::<char>::empty())
        } else {
            rest.update(rest.len() - 1, rest.last().push(s.last()))
        }
    }
}

/// `split_seq` never yields an empty list.
pub proof fn lemma_split_nonempty(s: Seq<char>, sep: char)
    ensures
        split_seq(s, sep).len() >= 1,
    decreases s.len(),
{
    if s.len() > 0 {
        lemma_split_nonempty(s.drop_last(), sep);
    }
}

/// Splits `s` at each occurrence of `sep`.
pub fn split_char(s: &str, sep: char) -> (r: Vec<String>)
    ensures
        strings_view(r@) == split_seq(s@, sep),
{
    let v = chars_of(s);
    let mut parts: Vec<String> = Vec::new();
    let mut cur = String::new();
    let mut i: usize = 0;
    proof {
        assert(v@.take(0) =~= Seq::<char>::empty());
        assert(strings_view(parts@).push(cur@) =~= split_seq(v@.take(0), sep));
    }
    while i < v.len()
        invariant
            v@ == s@,
            i <= v.len(),
            strings_view(parts@).push(cur@) == split_seq(v@.take(i as int), sep),
        decreases v.len() - i,
    {
        proof {
            assert(v@.take(i + 1).drop_last() =~= v@.take(i as int));
            assert(v@.take(i + 1).last() == v@[i as int]);
            lemma_split_nonempty(v@.take(i as int), sep);
        }
        let c = v[i];
        if c == sep {
            let done = cur;
            parts.push(done);
            cur = String::new();
            proof {
                assert(strings_view(parts@).push(cur@) =~= split_seq(v@.take(i + 1), sep));
            }
        } else {
            let ghost before = parts@;
            push_char(&mut cur, c);
            proof {
                assert(strings_view(parts@).push(cur@) =~= split_seq(v@.take(i + 1), sep));
            }
        }
        i = i + 1;
    }
    proof {
        assert(v@.take(v@.len() as int) =~= v@);
    }
    parts.push(cur);
    proof {
        assert(strings_view(parts@) =~= split_seq(s@, sep));
    }
    parts
}

/// The words `split_whitespace` yields: the maximal runs of characters
/// that are not whitespace, in order.
pub open spec fn words_of(s: Seq<char>) -> Seq<Seq<char>>
    decreases s.len(),
{
    if s.len() == 0 {
        Seq::empty()
    } else {
        let w = words_of(s.drop_last());
        let c = s.last();
        if is_ws(c) {
            w
        } else if s.len() == 1 || is_ws(s[s.len() - 2]) {
            w.push(seq![c])
        } else {
            w.update(w.len() - 1, w.last().push(c))
        }
    }
}

/// A text that ends in a non-whitespace character has at least one word.
proof fn lemma_words_nonempty(s: Seq<char>)
    requires
        s.len() > 0,
        !is_ws(s.last()),
    ensures
        words_of(s).len() > 0,
    decreases s.len(),
{
    if s.len() > 1 && !is_ws(s[s.len() - 2]) {
        assert(s.drop_last().last() == s[s.len() - 2]);
        lemma_words_nonempty(s.drop_last());
    }
}

/// The whitespace-separated words of a text.
pub fn split_words(s: &str) -> (r: Vec<String>)
    ensures
        strings_view(r@) == words_of(s@),
{
    let v = chars_of(s);
    let mut words: Vec<String> = Vec::new();
    let mut cur = String::new();
    let mut in_word = false;
    let mut i: usize = 0;
    proof {
        assert(v@.take(0) =~= Seq::<char>::empty());
        assert(strings_view(words@) =~= Seq::<Seq<char>>::empty());
    }
    while i < v.len()
        invariant
            v@ == s@,
            i <= v.len(),
            in_word == (i > 0 && !is_ws(v@[i - 1])),
            in_word ==> strings_view(words@).push(cur@) == words_of(v@.take(i as int)),
            !in_word ==> strings_view(words@) == words_of(v@.take(i as int)),
        decreases v.len() - i,
    {
        proof {
            assert(v@.take(i + 1).drop_last() =~= v@.take(i as int));
            assert(v@.take(i + 1).last() == v@[i as int]);
            if i > 0 {
                assert(v@.take(i + 1)[i - 1] == v@[i - 1]);
            }
        }
        let c = v[i];
        if is_whitespace_char(c) {
            if in_word {
                let done = cur;
                words.push(done);
                cur = String::new();
                proof {
                    assert(strings_view(words@) =~= words_of(v@.take(i + 1)));
                }
            }
            in_word = false;
        } else {
            if in_word {
                let ghost w0 = strings_view(words@);
                push_char(&mut cur, c);
                proof {
                    lemma_words_nonempty(v@.take(i as int));
                    assert(strings_view(words@).push(cur@) =~= words_of(v@.take(i + 1)));
                }
            } else {
                cur = String::new();
                push_char(&mut cur, c);
                proof {
                    assert(cur@ =~= seq![c]);
                    assert(strings_view(words@).push(cur@) =~= words_of(v@.take(i + 1)));
                }
            }
            in_word = true;
        }
        i = i + 1;
    }
    proof {
        assert(v@.take(v@.len() as int) =~= v@);
    }
    if in_word {
        words.push(cur);
        proof {
            assert(strings_view(words@) =~= words_of(s@));
        }
    }
    words
}

/// The texts joined with a separator between each two.
pub open spec fn joined_with(v: Seq<Seq<char>>, sep: Seq<char>) -> Seq<char>
    decreases v.len(),
{
    if v.len() == 0 {
        Seq::empty()
    } else if v.len() == 1 {
        v[0]
    } else {
        joined_with(v.drop_last(), sep) + sep + v.last()
    }
}

/// Joins texts with a separator.
pub fn join_with(v: &Vec<String>, sep: &str) -> (r: String)
    ensures
        r@ == joined_with(strings_view(v@), sep@),
{
    let ghost sv = strings_view(v@);
    let mut r = String::new();
    let mut i: usize = 0;
    while i < v.len()
        invariant
            i <= v@.len(),
            sv == strings_view(v@),
            r@ == joined_with(sv.take(i as int), sep@),
        decreases v@.len() - i,
    {
        proof {
            assert(sv.take(i as int + 1).drop_last() =~= sv.take(i as int));
        }
        if i > 0 {
            r.append(sep);
        }
        r.append(v[i].as_str());
        proof {
            if i == 0 {
                assert(sv.take(1) =~= seq![sv[0]]);
            }
        }
        i = i + 1;
    }
    proof {
        assert(sv.take(v@.len() as int) =~= sv);
    }
    r
}

/// The text without the occurrences of `c` at its end.
pub open spec fn trim_end_char(s: Seq<char>, c: char) -> Seq<char>
    decreases s.len(),
{
    if s.len() > 0 && s.last() == c {
        trim_end_char(s.drop_last(), c)
    } else {
        s
    }
}

/// Removes the occurrences of `c` at the end of `s`.
pub fn trim_end_matching(s: &str, c: char) -> (r: String)
    ensures
        r@ == trim_end_char(s@, c),
{
    let mut v = chars_of(s);
    while v.len() > 0 && v[v.len() - 1] == c
        invariant
            trim_end_char(v@, c) == trim_end_char(s@, c),
        decreases v@.len(),
    {
        let ghost v0 = v@;
        v.pop();
        proof {
            assert(v@ =~= v0.drop_last());
        }
    }
    string_from_chars(&v)
}

/// The text with every run of whitespace replaced by one space.
pub open spec fn collapse_ws(s: Seq<char>) -> Seq<char>
    decreases s.len(),
{
    if s.len() == 0 {
        Seq::empty()
    } else {
        let prev = collapse_ws(s.drop_last());
        if !is_ws(s.last()) {
            prev.push(s.last())
        } else if s.len() >= 2 && is_ws(s[s.len() - 2]) {
            prev
        } else {
            prev.push(' ')
        }
    }
}

/// Replaces every run of whitespace with one space.
pub fn collapse_whitespace(s: &str) -> (r: String)
    ensures
        r@ == collapse_ws(s@),
{
    let v = chars_of(s);
    let mut r = String::new();
    let mut i: usize = 0;
    proof {
        assert(v@.take(0) =~= Seq::<char>::empty());
    }
    while i < v.len()
        invariant
            v@ == s@,
            i <= v.len(),
            r@ == collapse_ws(v@.take(i as int)),
        decreases v.len() - i,
    {
        proof {
            assert(v@.take(i + 1).drop_last() =~= v@.take(i as int));
            assert(v@.take(i + 1).last() == v@[i as int]);
            if i > 0 {
                assert(v@.take(i + 1)[i - 1] == v@[i - 1]);
            }
        }
        let c = v[i];
        if !is_whitespace_char(c) {
            push_char(&mut r, c);
        } else if i >= 1 && is_whitespace_char(v[i - 1]) {
        } else {
            push_char(&mut r, ' ');
        }
        i = i + 1;
    }
    proof {
        assert(v@.take(v@.len() as int) =~= v@);
    }
    r
}

/// No character of the text has a code point in `lo..=hi`.
pub open spec fn free_of(s: Seq<char>, lo: u32, hi: u32) -> bool {
    forall|i: int| 0 <= i < s.len() ==> !(lo <= (#[trigger] s[i]) as u32 && (s[i] as u32) <= hi)
}

/// No text of the list has a character with a code point in `lo..=hi`.
pub open spec fn all_free(v: Seq<Seq<char>>, lo: u32, hi: u32) -> bool {
    forall|i: int| 0 <= i < v.len() ==> free_of(#[trigger] v[i], lo, hi)
}

/// The words of a text hold only characters of the text.
pub proof fn lemma_words_free(s: Seq<char>, lo: u32, hi: u32)
    requires
        free_of(s, lo, hi),
    ensures
        all_free(words_of(s), lo, hi),
    decreases s.len(),
{
    if s.len() > 0 {
        let p = s.drop_last();
        assert(free_of(p, lo, hi)) by {
            assert forall|i: int| 0 <= i < p.len() implies !(lo <= (#[trigger] p[i]) as u32 && (p[i] as u32) <= hi) by {
                assert(p[i] == s[i]);
            }
        }
        lemma_words_free(p, lo, hi);
        let w = words_of(p);
        let c = s.last();
        assert(c == s[s.len() - 1]);
        if is_ws(c) {
        } else if s.len() == 1 || is_ws(s[s.len() - 2]) {
            let r = w.push(seq![c]);
            assert forall|i: int| 0 <= i < r.len() implies free_of(#[trigger] r[i], lo, hi) by {
                if i == w.len() {
                    assert(r[i] =~= seq![c]);
                } else {
                    assert(r[i] == w[i]);
                }
            }
        } else {
            lemma_words_nonempty(p);
            let r = w.update(w.len() - 1, w.last().push(c));
            assert forall|i: int| 0 <= i < r.len() implies free_of(#[trigger] r[i], lo, hi) by {
                if i == w.len() - 1 {
                    let q = w.last().push(c);
                    assert(free_of(w[w.len() - 1], lo, hi));
                    assert forall|k: int| 0 <= k < q.len() implies !(lo <= (#[trigger] q[k]) as u32 && (q[k] as u32) <= hi) by {
                        if k < q.len() - 1 {
                            assert(q[k] == w[w.len() - 1][k]);
                        }
                    }
                } else {
                    assert(r[i] == w[i]);
                }
            }
        }
    }
}

/// Pieces joined with a separator hold only characters of the pieces and
/// of the separator.
pub proof fn lemma_joined_free(v: Seq<Seq<char>>, sep: Seq<char>, lo: u32, hi: u32)
    requires
        all_free(v, lo, hi),
        free_of(sep, lo, hi),
    ensures
        free_of(joined_with(v, sep), lo, hi),
    decreases v.len(),
{
    if v.len() == 1 {
        assert(free_of(v[0], lo, hi));
    } else if v.len() > 1 {
        let p = v.drop_last();
        assert(all_free(p, lo, hi)) by {
            assert forall|i: int| 0 <= i < p.len() implies free_of(#[trigger] p[i], lo, hi) by {
                assert(p[i] == v[i]);
            }
        }
        lemma_joined_free(p, sep, lo, hi);
        let a = joined_with(p, sep);
        let b = v.last();
        assert(free_of(v[v.len() - 1], lo, hi));
        let r = a + sep + b;
        assert forall|k: int| 0 <= k < r.len() implies !(lo <= (#[trigger] r[k]) as u32 && (r[k] as u32) <= hi) by {
            if k < a.len() {
                assert(r[k] == a[k]);
            } else if k < a.len() + sep.len() {
                assert(r[k] == sep[k - a.len()]);
            } else {
                assert(r[k] == b[k - a.len() - sep.len()]);
            }
        }
    }
}

/// The pieces between separators hold only characters of the text.
pub proof fn lemma_split_free(s: Seq<char>, sep: char, lo: u32, hi: u32)
    requires
        free_of(s, lo, hi),
    ensures
        all_free(split_seq(s, sep), lo, hi),
    decreases s.len(),
{
    if s.len() == 0 {
        let r = split_seq(s, sep);
        assert forall|i: int| 0 <= i < r.len() implies free_of(#[trigger] r[i], lo, hi) by {
            assert(r[i] =~= Seq::<char>::empty());
        }
    } else {
        let p = s.drop_last();
        assert(free_of(p, lo, hi)) by {
            assert forall|i: int| 0 <= i < p.len() implies !(lo <= (#[trigger] p[i]) as u32 && (p[i] as u32) <= hi) by {
                assert(p[i] == s[i]);
            }
        }
        lemma_split_free(p, sep, lo, hi);
        lemma_split_nonempty(p, sep);
        let w = split_seq(p, sep);
        let c = s.last();
        assert(c == s[s.len() - 1]);
        if c == sep {
            let r = w.push(Seq::<char>::empty());
            assert forall|i: int| 0 <= i < r.len() implies free_of(#[trigger] r[i], lo, hi) by {
                if i < w.len() {
                    assert(r[i] == w[i]);
                }
            }
        } else {
            let r = w.update(w.len() - 1, w.last().push(c));
            assert forall|i: int| 0 <= i < r.len() implies free_of(#[trigger] r[i], lo, hi) by {
                if i == w.len() - 1 {
                    let q = w.last().push(c);
                    assert(free_of(w[w.len() - 1], lo, hi));
                    assert forall|k: int| 0 <= k < q.len() implies !(lo <= (#[trigger] q[k]) as u32 && (q[k] as u32) <= hi) by {
                        if k < q.len() - 1 {
                            assert(q[k] == w[w.len() - 1][k]);
                        }
                    }
                } else {
                    assert(r[i] == w[i]);
                }
            }
        }
    }
}

/// Collapsing whitespace adds no character but the space.
pub proof fn lemma_collapse_free(s: Seq<char>, lo: u32, hi: u32)
    requires
        free_of(s, lo, hi),
        hi < 0x20 || lo > 0x20,
    ensures
        free_of(collapse_ws(s), lo, hi),
    decreases s.len(),
{
    if s.len() > 0 {
        let p = s.drop_last();
        assert(free_of(p, lo, hi)) by {
            assert forall|i: int| 0 <= i < p.len() implies !(lo <= (#[trigger] p[i]) as u32 && (p[i] as u32) <= hi) by {
                assert(p[i] == s[i]);
            }
        }
        lemma_collapse_free(p, lo, hi);
        let a = collapse_ws(p);
        let c = s.last();
        assert(c == s[s.len() - 1]);
        let d = if !is_ws(c) { c } else { ' ' };
        assert(!(lo <= d as u32 && (d as u32) <= hi));
        let r = a.push(d);
        assert forall|k: int| 0 <= k < r.len() implies !(lo <= (#[trigger] r[k]) as u32 && (r[k] as u32) <= hi) by {
            if k < a.len() {
                assert(r[k] == a[k]);
            }
        }
    }
}

/// Trimming keeps a part of the text.
pub proof fn lemma_trim_ends_free(s: Seq<char>, lo: u32, hi: u32)
    requires
        free_of(s, lo, hi),
    ensures
        free_of(trim_start_seq(s), lo, hi),
        free_of(trim_end_seq(s), lo, hi),
    decreases s.len(),
{
    if s.len() > 0 {
        let p = s.drop_last();
        let q = s.drop_first();
        assert(free_of(p, lo, hi)) by {
            assert forall|i: int| 0 <= i < p.len() implies !(lo <= (#[trigger] p[i]) as u32 && (p[i] as u32) <= hi) by {
                assert(p[i] == s[i]);
            }
        }
        assert(free_of(q, lo, hi)) by {
            assert forall|i: int| 0 <= i < q.len() implies !(lo <= (#[trigger] q[i]) as u32 && (q[i] as u32) <= hi) by {
                assert(q[i] == s[i + 1]);
            }
        }
        lemma_trim_ends_free(p, lo, hi);
        lemma_trim_ends_free(q, lo, hi);
    }
}

/// Trimming both ends keeps a part of the text.
pub proof fn lemma_trim_free(s: Seq<char>, lo: u32, hi: u32)
    requires
        free_of(s, lo, hi),
    ensures
        free_of(trim_seq(s), lo, hi),
{
    lemma_trim_ends_free(s, lo, hi);
    lemma_trim_ends_free(trim_start_seq(s), lo, hi);
}

} // verus!