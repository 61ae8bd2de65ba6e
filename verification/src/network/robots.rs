//! Reading robots.txt: which paths the wildcard user agent may fetch, and
//! the pacing directives it is given.
use vstd::prelude::*;
use crate::text_util::{has_prefix, lowercase_of, split_char, split_seq, starts_with, strings_view, to_lowercase, trim_seq, trim_str, lemma_split_nonempty};

verus! {

/// A pacing directive of the wildcard section, as written: the value of a
/// `Crawl-delay` line (seconds), or the two sides of a `Request-rate` line
/// (`requests/seconds`). Turning the numbers into a delay is left to the
/// caller.
#[derive(Debug, Clone)]
pub enum DelayDirective {
    CrawlDelay(String),
    RequestRate(String, String),
}

/// Abstract form of a directive.
pub enum DelayDirectiveView {
    CrawlDelay(Seq<char>),
    RequestRate(Seq<char>, Seq<char>),
}

impl View for DelayDirective {
    type V = DelayDirectiveView;

    open spec fn view(&self) -> DelayDirectiveView {
        match self {
            DelayDirective::CrawlDelay(s) => DelayDirectiveView::CrawlDelay(s@),
            DelayDirective::RequestRate(a, b) => DelayDirectiveView::RequestRate(a@, b@),
        }
    }
}

/// What robots.txt says for one path.
#[derive(Debug)]
pub struct RobotsVerdict {
    /// Whether the path may be fetched.
    pub allowed: bool,
    /// The pacing directives of the wildcard section, in order.
    pub delays: Vec<DelayDirective>,
}

/// The state of a reading after some lines.
pub struct RobotsState {
    pub in_wildcard: bool,
    pub allowed: bool,
    pub delays: Seq<DelayDirectiveView>,
}

/// Before any line: outside a wildcard section, everything allowed.
pub open spec fn robots_start() -> RobotsState {
    RobotsState { in_wildcard: false, allowed: true, delays: Seq::empty() }
}

/// The text after a directive's first colon, up to the next colon (empty
/// when the line has no colon).
pub open spec fn directive_value(line: Seq<char>) -> Seq<char> {
    let parts = split_seq(line, ':');
    if parts.len() > 1 { parts[1] } else { Seq::empty() }
}

/// One line of robots.txt. Lines are trimmed; blank lines and comments are
/// skipped. `User-agent` opens a section, a wildcard one when its value is
/// `*`. Inside a wildcard section (directive names in any case), a
/// non-empty `Disallow` value that prefixes the path forbids it, a
/// non-empty `Allow` value that prefixes it permits it again, and
/// `Crawl-delay` and well-formed `Request-rate` lines are recorded.
pub open spec fn robots_step(st: RobotsState, raw: Seq<char>, path: Seq<char>) -> RobotsState {
    let line = trim_seq(raw);
    let low = lowercase_of(line);
    let value = trim_seq(directive_value(line));
    if line.len() == 0 || line[0] == '#' {
        st
    } else if has_prefix(low, "user-agent:"@) {
        RobotsState { in_wildcard: value == "*"@, ..st }
    } else if !st.in_wildcard {
        st
    } else if has_prefix(low, "disallow:"@) {
        if value.len() > 0 && has_prefix(path, value) {
            RobotsState { allowed: false, ..st }
        } else {
            st
        }
    } else if has_prefix(low, "allow:"@) {
        if value.len() > 0 && has_prefix(path, value) {
            RobotsState { allowed: true, ..st }
        } else {
            st
        }
    } else if has_prefix(low, "crawl-delay:"@) {
        RobotsState { delays: st.delays.push(DelayDirectiveView::CrawlDelay(value)), ..st }
    } else if has_prefix(low, "request-rate:"@) {
        let parts = split_seq(value, '/');
        if parts.len() == 2 {
            RobotsState { delays: st.delays.push(DelayDirectiveView::RequestRate(parts[0], parts[1])), ..st }
        } else {
            st
        }
    } else {
        st
    }
}

/// The state after reading the given lines in order.
pub open spec fn robots_fold(lines: Seq<Seq<char>>, path: Seq<char>) -> RobotsState
    decreases lines.len(),
{
    if lines.len() == 0 {
        robots_start()
    } else {
        robots_step(robots_fold(lines.drop_last(), path), lines.last(), path)
    }
}

/// The reading of a whole robots.txt for a path.
pub open spec fn robots_reading(content: Seq<char>, path: Seq<char>) -> RobotsState {
    robots_fold(split_seq(content, '\n'), path)
}

pub open spec fn delays_view(v: Seq<DelayDirective>) -> Seq<DelayDirectiveView> {
    v.map_values(|d: DelayDirective| d@)
}

/// The value of a directive line (see `directive_value`), trimmed.
fn value_of(line: &str) -> (r: String)
    ensures
        r@ == trim_seq(directive_value(line@)),
{
    let parts = split_char(line, ':');
    proof {
        lemma_split_nonempty(line@, ':');
    }
    if parts.len() > 1 {
        trim_str(parts[1].as_str())
    } else {
        proof {
            reveal_strlit("");
        }
        trim_str("")
    }
}

/// Reads robots.txt for `path` (see `robots_step`).
pub fn parse_robots_txt(robots_content: &str, path: &str) -> (r: RobotsVerdict)
    ensures
        r.allowed == robots_reading(robots_content@, path@).allowed,
        delays_view(r.delays@) == robots_reading(robots_content@, path@).delays,
{
    let lines = split_char(robots_content, '\n');
    let ghost ls = split_seq(robots_content@, '\n');
    let mut in_wildcard = false;
    let mut allowed = true;
    let mut delays: Vec<DelayDirective> = Vec::new();
    let mut i: usize = 0;
    proof {
        assert(ls.take(0) =~= Seq::<Seq<char>>::empty());
        assert(delays_view(delays@) =~= Seq::<DelayDirectiveView>::empty());
    }
    while i < lines.len()
        invariant
            strings_view(lines@) == ls,
            i <= lines@.len(),
            ({
                let st = robots_fold(ls.take(i as int), path@);
                &&& st.in_wildcard == in_wildcard
                &&& st.allowed == allowed
                &&& st.delays == delays_view(delays@)
            }),
        decreases lines@.len() - i,
    {
        proof {
            assert(ls.take(i + 1).drop_last() =~= ls.take(i as int));
            assert(ls.take(i + 1).last() == lines@[i as int]@);
        }
        let line = trim_str(lines[i].as_str());
        let l = line.as_str();
        let low = to_lowercase(l);
        let lw = low.as_str();
        let blank = l.unicode_len() == 0;
        if blank || l.get_char(0) == '#' {
        } else if starts_with(lw, "user-agent:") {
            let value = value_of(l);
            proof {
                reveal_strlit("*");
            }
            in_wildcard = crate::text_util::str_eq(value.as_str(), "*");
        } else if !in_wildcard {
        } else if starts_with(lw, "disallow:") {
            let value = value_of(l);
            if value.unicode_len() > 0 && starts_with(path, value.as_str()) {
                allowed = false;
            }
        } else if starts_with(lw, "allow:") {
            let value = value_of(l);
            if value.unicode_len() > 0 && starts_with(path, value.as_str()) {
                allowed = true;
            }
        } else if starts_with(lw, "crawl-delay:") {
            let value = value_of(l);
            let ghost before = delays@;
            delays.push(DelayDirective::CrawlDelay(value));
            proof {
                assert(delays_view(delays@) =~= delays_view(before).push(delays@.last()@));
            }
        } else if starts_with(lw, "request-rate:") {
            let value = value_of(l);
            let parts = split_char(value.as_str(), '/');
            if parts.len() == 2 {
                let a = parts[0].clone();
                let b = parts[1].clone();
                let ghost before = delays@;
                delays.push(DelayDirective::RequestRate(a, b));
                proof {
                    assert(delays_view(delays@) =~= delays_view(before).push(delays@.last()@));
                }
            }
        }
        i = i + 1;
    }
    proof {
        assert(ls.take(lines@.len() as int) =~= ls);
    }
    RobotsVerdict { allowed, delays }
}

/// Whether a line is a `Disallow` rule whose value covers the path.
pub open spec fn disallows(raw: Seq<char>, path: Seq<char>) -> bool {
    let line = trim_seq(raw);
    let value = trim_seq(directive_value(line));
    &&& has_prefix(lowercase_of(line), "disallow:"@)
    &&& value.len() > 0
    &&& has_prefix(path, value)
}

/// A path that no `Disallow` line covers is allowed, whatever the other
/// lines say.
pub proof fn lemma_uncovered_path_allowed(lines: Seq<Seq<char>>, path: Seq<char>)
    requires
        forall|i: int| 0 <= i < lines.len() ==> !disallows(#[trigger] lines[i], path),
    ensures
        robots_fold(lines, path).allowed,
    decreases lines.len(),
{
    if lines.len() > 0 {
        assert forall|i: int| 0 <= i < lines.drop_last().len() implies !disallows(
            #[trigger] lines.drop_last()[i],
            path,
        ) by {
            assert(lines.drop_last()[i] == lines[i]);
        }
        lemma_uncovered_path_allowed(lines.drop_last(), path);
        assert(!disallows(lines[lines.len() - 1], path));
    }
}

/// The same for a whole robots.txt: a path that no line of it disallows is
/// allowed.
pub proof fn lemma_robots_allows_uncovered(content: Seq<char>, path: Seq<char>)
    requires
        forall|i: int| 0 <= i < split_seq(content, '\n').len() ==> !disallows(
            #[trigger] split_seq(content, '\n')[i],
            path,
        ),
    ensures
        robots_reading(content, path).allowed,
{
    lemma_uncovered_path_allowed(split_seq(content, '\n'), path);
}

/// A `User-agent` line (neither blank nor a comment).
pub open spec fn user_agent_line(raw: Seq<char>) -> bool {
    let line = trim_seq(raw);
    &&& !(line.len() == 0 || line[0] == '#')
    &&& has_prefix(lowercase_of(line), "user-agent:"@)
}

/// A `User-agent: *` line.
pub open spec fn wildcard_agent_line(raw: Seq<char>) -> bool {
    &&& user_agent_line(raw)
    &&& trim_seq(directive_value(trim_seq(raw))) == "*"@
}

/// After the first `n` lines the reader is inside a wildcard section: the
/// last `User-agent` line among them names `*`.
pub open spec fn inside_wildcard(lines: Seq<Seq<char>>, n: int) -> bool {
    exists|j: int|
        0 <= j < n && #[trigger] wildcard_agent_line(lines[j]) && forall|k: int|
            j < k < n ==> !user_agent_line(#[trigger] lines[k])
}

/// The reader is inside a wildcard section exactly when the last
/// `User-agent` line read names `*`: any other `User-agent` line ends the
/// section.
pub proof fn lemma_wildcard_section_tracking(lines: Seq<Seq<char>>, path: Seq<char>, n: int)
    requires
        0 <= n <= lines.len(),
    ensures
        robots_fold(lines.take(n), path).in_wildcard == inside_wildcard(lines, n),
    decreases n,
{
    if n == 0 {
        assert(lines.take(0) =~= Seq::<Seq<char>>::empty());
    } else {
        lemma_wildcard_section_tracking(lines, path, n - 1);
        assert(lines.take(n).drop_last() =~= lines.take(n - 1));
        assert(lines.take(n).last() == lines[n - 1]);
        let raw = lines[n - 1];
        if user_agent_line(raw) {
            if wildcard_agent_line(raw) {
                assert(inside_wildcard(lines, n)) by {
                    assert(forall|k: int| n - 1 < k < n ==> !user_agent_line(#[trigger] lines[k]));
                }
            } else {
                assert(!inside_wildcard(lines, n)) by {
                    if inside_wildcard(lines, n) {
                        let j = choose|j: int|
                            0 <= j < n && #[trigger] wildcard_agent_line(lines[j]) && forall|k: int|
                                j < k < n ==> !user_agent_line(#[trigger] lines[k]);
                        if j < n - 1 {
                            assert(!user_agent_line(lines[n - 1]));
                        }
                    }
                }
            }
        } else {
            assert(inside_wildcard(lines, n) == inside_wildcard(lines, n - 1)) by {
                if inside_wildcard(lines, n) {
                    let j = choose|j: int|
                        0 <= j < n && #[trigger] wildcard_agent_line(lines[j]) && forall|k: int|
                            j < k < n ==> !user_agent_line(#[trigger] lines[k]);
                    assert(j != n - 1);
                    assert(forall|k: int| j < k < n - 1 ==> !user_agent_line(#[trigger] lines[k]));
                }
                if inside_wildcard(lines, n - 1) {
                    let j = choose|j: int|
                        0 <= j < n - 1 && #[trigger] wildcard_agent_line(lines[j]) && forall|k: int|
                            j < k < n - 1 ==> !user_agent_line(#[trigger] lines[k]);
                    assert(forall|k: int| j < k < n ==> !user_agent_line(#[trigger] lines[k])) by {
                        assert forall|k: int| j < k < n implies !user_agent_line(#[trigger] lines[k]) by {
                            if k == n - 1 {
                            } else {
                            }
                        }
                    }
                }
            }
        }
    }
}

/// Only the rules of wildcard sections decide: a path that no `Disallow`
/// line inside a wildcard section covers is allowed after the first `n`
/// lines, whatever the sections of other user agents disallow.
pub proof fn lemma_only_wildcard_rules_forbid(lines: Seq<Seq<char>>, path: Seq<char>, n: int)
    requires
        0 <= n <= lines.len(),
        forall|i: int| 0 <= i < lines.len() && inside_wildcard(lines, i) ==> !disallows(#[trigger] lines[i], path),
    ensures
        robots_fold(lines.take(n), path).allowed,
    decreases n,
{
    if n == 0 {
        assert(lines.take(0) =~= Seq::<Seq<char>>::empty());
    } else {
        lemma_only_wildcard_rules_forbid(lines, path, n - 1);
        lemma_wildcard_section_tracking(lines, path, n - 1);
        assert(lines.take(n).drop_last() =~= lines.take(n - 1));
        assert(lines.take(n).last() == lines[n - 1]);
        if inside_wildcard(lines, n - 1) {
            assert(!disallows(lines[n - 1], path));
        }
    }
}

/// For a whole robots.txt: a path that no `Disallow` line of a wildcard
/// section covers is allowed; in particular the rules given to other user
/// agents never forbid it.
pub proof fn lemma_robots_wildcard_rules_only(content: Seq<char>, path: Seq<char>)
    requires
        forall|i: int|
            0 <= i < split_seq(content, '\n').len() && inside_wildcard(split_seq(content, '\n'), i)
                ==> !disallows(#[trigger] split_seq(content, '\n')[i], path),
    ensures
        robots_reading(content, path).allowed,
{
    let lines = split_seq(content, '\n');
    lemma_only_wildcard_rules_forbid(lines, path, lines.len() as int);
    assert(lines.take(lines.len() as int) =~= lines);
}

} // verus!