//! Deciding which discovered links extensive crawling follows, how they are
//! categorized, and in what order (by priority) they are queued.
use vstd::prelude::*;
use crate::crawl_core::error::CrawlError;
use crate::patterns::{first_bad, lemma_no_bad_pattern, first_invalid_pattern, regex_compile_error, regex_is_match, regex_matches};
use crate::processing::discovery::{ExtractedLink, ExtractedLinkView, links_view};
use crate::processing::extensive::config::{domain_allowed, extensive_config_error, find_bad, first_bad_opt, is_listed, listed, normalized_of, opt_str_view, ExtensiveConfig, CrawlDepth, DomainScope};
use crate::text_util::{chars_of, concat_str, decimal, is_blank, lemma_split_nonempty, lowercase_of, split_char, split_seq, str_eq, string_from_chars, strings_view, to_lowercase, trim_seq, u64_to_string};
use crate::web_url::{opt_text, parse_url, ParsedUrl, url_parse_result, url_without_fragment, url_without_fragment_result, url_without_query, url_without_query_result, ParsedUrlView};
use vstd::utf8::encode_utf8;

verus! {

/// What kind of resource a link points to.
#[derive(Debug, Clone, Copy, PartialEq, Eq, Structural)]
pub enum LinkCategory {
    Internal,
    External,
    Resource,
    Document,
    Media,
    Other,
}

/// A discovered link with the decision about it.
#[derive(Debug)]
pub struct ProcessedLink {
    pub extracted_link: ExtractedLink,
    pub normalized_url: String,
    pub category: LinkCategory,
    pub depth: usize,
    pub priority: u8,
    pub should_crawl: bool,
    pub reason: String,
}

/// Abstract form of a processed link.
pub struct ProcessedLinkView {
    pub link: ExtractedLinkView,
    pub normalized_url: Seq<char>,
    pub category: LinkCategory,
    pub depth: usize,
    pub priority: u8,
    pub should_crawl: bool,
    pub reason: Seq<char>,
}

impl View for ProcessedLink {
    type V = ProcessedLinkView;

    open spec fn view(&self) -> ProcessedLinkView {
        ProcessedLinkView {
            link: self.extracted_link@,
            normalized_url: self.normalized_url@,
            category: self.category,
            depth: self.depth,
            priority: self.priority,
            should_crawl: self.should_crawl,
            reason: self.reason@,
        }
    }
}

pub open spec fn processed_view(v: Seq<ProcessedLink>) -> Seq<ProcessedLinkView> {
    v.map_values(|l: ProcessedLink| l@)
}

/// The path segments of a path (as `Url::path_segments` gives them): the
/// path after its leading slash split at slashes, or none when it has no
/// leading slash.
pub open spec fn segments_of_path(path: Seq<char>) -> Option<Seq<Seq<char>>> {
    if path.len() > 0 && path[0] == '/' { Some(split_seq(path.skip(1), '/')) } else { None }
}

pub open spec fn segments_of(p: ParsedUrlView) -> Option<Seq<Seq<char>>> {
    segments_of_path(p.path)
}

/// The lowercased text after the last dot of the last path segment.
pub open spec fn extension_of(p: ParsedUrlView) -> Option<Seq<char>> {
    match segments_of(p) {
        Some(segs) => Some(lowercase_of(split_seq(segs.last(), '.').last())),
        None => None,
    }
}

pub open spec fn is_document_ext(e: Seq<char>) -> bool {
    e == "pdf"@ || e == "doc"@ || e == "docx"@ || e == "xls"@ || e == "xlsx"@ || e == "ppt"@ || e == "pptx"@
        || e == "txt"@ || e == "rtf"@
}

pub open spec fn is_media_ext(e: Seq<char>) -> bool {
    e == "mp3"@ || e == "mp4"@ || e == "avi"@ || e == "mov"@ || e == "wmv"@ || e == "flv"@ || e == "wav"@
        || e == "ogg"@
}

pub open spec fn is_resource_ext(e: Seq<char>) -> bool {
    e == "jpg"@ || e == "jpeg"@ || e == "png"@ || e == "gif"@ || e == "bmp"@ || e == "svg"@ || e == "webp"@
        || e == "css"@ || e == "js"@ || e == "ico"@
}

/// The category of a URL: by extension for documents, media and resources;
/// otherwise internal when it has a host (the host is compared with
/// itself), other when it has none.
pub open spec fn category_of(p: ParsedUrlView) -> LinkCategory {
    match extension_of(p) {
        Some(e) if is_document_ext(e) => LinkCategory::Document,
        Some(e) if is_media_ext(e) => LinkCategory::Media,
        Some(e) if is_resource_ext(e) => LinkCategory::Resource,
        _ => if p.host is Some { LinkCategory::Internal } else { LinkCategory::Other },
    }
}

pub open spec fn depth_allowed(d: CrawlDepth, depth: usize) -> bool {
    match d {
        CrawlDepth::Unlimited => true,
        CrawlDepth::Limited(max) => depth < max,
        CrawlDepth::Exact(exact) => depth == exact,
    }
}

pub open spec fn byte_size(s: Seq<char>) -> usize {
    encode_utf8(s).len() as usize
}

/// Some pattern matches the text.
pub open spec fn any_matches(ps: Seq<String>, t: Seq<char>) -> bool {
    exists|j: int| 0 <= j < ps.len() && #[trigger] regex_matches(ps[j]@, t)
}

/// Whether some pattern of a list that compiles matches the text.
fn matches_any(ps: &Vec<String>, t: &str) -> (r: bool)
    requires
        first_bad(ps@) is None,
    ensures
        r == any_matches(ps@, t@),
{
    proof {
        lemma_no_bad_pattern(ps@);
    }
    let mut i: usize = 0;
    while i < ps.len()
        invariant
            i <= ps@.len(),
            forall|j: int| 0 <= j < ps@.len() ==> (#[trigger] regex_compile_error(ps@[j]@)) is None,
            forall|j: int| 0 <= j < i ==> !(#[trigger] regex_matches(ps@[j]@, t@)),
        decreases ps@.len() - i,
    {
        assert(regex_compile_error(ps@[i as int]@) is None);
        if regex_is_match(ps[i].as_str(), t) {
            return true;
        }
        i = i + 1;
    }
    false
}

/// The path segments of a path.
fn path_segments(path: &str) -> (r: Option<Vec<String>>)
    ensures
        match r {
            Some(v) => segments_of_path(path@) == Some(strings_view(v@)),
            None => segments_of_path(path@) is None,
        },
{
    let mut cs = chars_of(path);
    if cs.len() > 0 && cs[0] == '/' {
        cs.remove(0);
        let rest = string_from_chars(&cs);
        proof {
            assert(rest@ =~= path@.skip(1));
        }
        Some(split_char(rest.as_str(), '/'))
    } else {
        None
    }
}

/// The last piece of `s` split at `sep`.
fn last_piece(s: &str, sep: char) -> (r: String)
    ensures
        r@ == split_seq(s@, sep).last(),
{
    let mut pieces = split_char(s, sep);
    proof {
        lemma_split_nonempty(s@, sep);
    }
    let r = pieces.pop().unwrap();
    r
}

/// The lowercased extension of the last path segment.
fn extension(path: &str) -> (r: Option<String>)
    ensures
        opt_text(r) == match segments_of_path(path@) {
            Some(segs) => Some(lowercase_of(split_seq(segs.last(), '.').last())),
            None => None,
        },
{
    match path_segments(path) {
        Some(mut segs) => {
            proof {
                lemma_split_nonempty(path@.skip(1), '/');
            }
            let ghost sv = strings_view(segs@);
            let last = segs.pop().unwrap();
            proof {
                assert(last@ == sv.last());
            }
            let piece = last_piece(last.as_str(), '.');
            Some(to_lowercase(piece.as_str()))
        },
        None => None,
    }
}

fn is_document_extension(e: &str) -> (r: bool)
    ensures
        r == is_document_ext(e@),
{
    str_eq(e, "pdf") || str_eq(e, "doc") || str_eq(e, "docx") || str_eq(e, "xls") || str_eq(e, "xlsx")
        || str_eq(e, "ppt") || str_eq(e, "pptx") || str_eq(e, "txt") || str_eq(e, "rtf")
}

fn is_media_extension(e: &str) -> (r: bool)
    ensures
        r == is_media_ext(e@),
{
    str_eq(e, "mp3") || str_eq(e, "mp4") || str_eq(e, "avi") || str_eq(e, "mov") || str_eq(e, "wmv")
        || str_eq(e, "flv") || str_eq(e, "wav") || str_eq(e, "ogg")
}

fn is_resource_extension(e: &str) -> (r: bool)
    ensures
        r == is_resource_ext(e@),
{
    str_eq(e, "jpg") || str_eq(e, "jpeg") || str_eq(e, "png") || str_eq(e, "gif") || str_eq(e, "bmp")
        || str_eq(e, "svg") || str_eq(e, "webp") || str_eq(e, "css") || str_eq(e, "js") || str_eq(e, "ico")
}

/// Whether a link (parsed as `p`, found on a page parsed as `base`) at
/// `depth` is followed, and why: the depth, the domain scope, the category
/// (no resources or media), the URL's size, the extension lists, and the
/// include and exclude patterns are checked in this order.
pub open spec fn crawl_decision(c: ExtensiveConfig, p: ParsedUrlView, base: ParsedUrlView, depth: usize, cat: LinkCategory) -> (bool, Seq<char>) {
    let n = byte_size(p.serialization);
    if !depth_allowed(c.max_depth, depth) {
        (false, "Depth limit exceeded: "@ + decimal(depth as nat))
    } else if !domain_allowed(c.domain_scope, p.domain, base.domain) {
        (false, "Domain not allowed"@)
    } else if cat == LinkCategory::Resource || cat == LinkCategory::Media {
        (false, "Resource/media link excluded"@)
    } else if c.link_filter.min_url_length matches Some(m) && n < m {
        (false, "URL too short: "@ + decimal(n as nat) + " < "@ + decimal(c.link_filter.min_url_length->0 as nat))
    } else if c.link_filter.max_url_length matches Some(m) && n > m {
        (false, "URL too long: "@ + decimal(n as nat) + " > "@ + decimal(c.link_filter.max_url_length->0 as nat))
    } else if extension_of(p) is Some && c.link_filter.include_extensions is Some
        && !listed(c.link_filter.include_extensions->0@, extension_of(p)->0) {
        (false, "Extension '"@ + extension_of(p)->0 + "' not in include list"@)
    } else if extension_of(p) is Some && c.link_filter.exclude_extensions is Some
        && listed(c.link_filter.exclude_extensions->0@, extension_of(p)->0) {
        (false, "Extension '"@ + extension_of(p)->0 + "' in exclude list"@)
    } else if c.link_filter.include_patterns is Some && !any_matches(c.link_filter.include_patterns->0@, p.serialization) {
        (false, "URL doesn't match include patterns"@)
    } else if c.link_filter.exclude_patterns is Some && any_matches(c.link_filter.exclude_patterns->0@, p.serialization) {
        (false, "URL matches exclude patterns"@)
    } else {
        (true, "Passed all filters"@)
    }
}

pub open spec fn sat_add(a: u8, b: u8) -> u8 {
    if a + b > 255 { 255 } else { (a + b) as u8 }
}

pub open spec fn sat_sub(a: u8, b: u8) -> u8 {
    if a >= b { (a - b) as u8 } else { 0 }
}

/// The priority of a link: the base, adjusted (with saturation at 0 and
/// 255) by category, by a non-blank anchor text, by the number of path
/// segments (one: root boost; up to three: shallow boost; over five: deep
/// penalty), once when a priority pattern matches, and down for a query and
/// for a fragment.
pub open spec fn priority_of(c: ExtensiveConfig, p: ParsedUrlView, cat: LinkCategory, anchor: Seq<char>) -> u8 {
    let pc = c.priority_config;
    let adj = pc.category_adjustments;
    let p1 = match cat {
        LinkCategory::Internal => sat_add(pc.base_priority, adj.internal_boost),
        LinkCategory::External => sat_add(pc.base_priority, adj.external_boost),
        LinkCategory::Document => sat_add(pc.base_priority, adj.document_boost),
        LinkCategory::Resource => sat_sub(pc.base_priority, adj.resource_penalty),
        LinkCategory::Media => sat_sub(pc.base_priority, adj.media_penalty),
        LinkCategory::Other => sat_add(pc.base_priority, adj.other_boost),
    };
    let p2 = if trim_seq(anchor).len() > 0 { sat_add(p1, pc.anchor_text_boost) } else { p1 };
    let segs: nat = match segments_of(p) { Some(s) => s.len(), None => 0 };
    let p3 = if segs == 1 {
        sat_add(p2, pc.depth_adjustments.root_boost)
    } else if segs <= 3 {
        sat_add(p2, pc.depth_adjustments.shallow_boost)
    } else if segs > 5 {
        sat_sub(p2, pc.depth_adjustments.deep_penalty)
    } else {
        p2
    };
    let p4 = if c.priority_patterns is Some && any_matches(c.priority_patterns->0@, p.serialization) {
        sat_add(p3, pc.pattern_boost)
    } else {
        p3
    };
    let p5 = if p.query is Some { sat_sub(p4, pc.query_penalty) } else { p4 };
    if p.fragment is Some { sat_sub(p5, pc.fragment_penalty) } else { p5 }
}

/// What a discovered link becomes when found on the page `base` at
/// `current_depth`: its normalized URL, category, the next depth, priority
/// and the decision; `None` when its URL does not parse or normalize.
pub open spec fn processed_link(c: ExtensiveConfig, base: ParsedUrlView, current_depth: usize, l: ExtractedLinkView) -> Option<
    ProcessedLinkView,
> {
    match url_parse_result(l.url) {
        Ok(p) => match normalized_of(c, l.url) {
            Some(n) => {
                let cat = category_of(p);
                let depth = (current_depth + 1) as usize;
                let d = crawl_decision(c, p, base, depth, cat);
                Some(
                    ProcessedLinkView {
                        link: l,
                        normalized_url: n,
                        category: cat,
                        depth,
                        priority: priority_of(c, p, cat, l.anchor_text),
                        should_crawl: d.0,
                        reason: d.1,
                    },
                )
            },
            None => None,
        },
        Err(_) => None,
    }
}

/// How many of the links are to be followed.
pub open spec fn crawl_count(s: Seq<ProcessedLinkView>) -> nat
    decreases s.len(),
{
    if s.len() == 0 {
        0
    } else {
        crawl_count(s.drop_last()) + if s.last().should_crawl { 1nat } else { 0nat }
    }
}

/// Fewer than `max_links_per_page` links are followed so far.
pub open spec fn under_link_limit(c: ExtensiveConfig, n: nat) -> bool {
    match c.max_links_per_page {
        Some(m) => n < m,
        None => true,
    }
}

/// The links of a page processed in order, each one while fewer than
/// `max_links_per_page` of those before it are followed; links that do not
/// parse are left out.
pub open spec fn gathered(c: ExtensiveConfig, base: ParsedUrlView, current_depth: usize, links: Seq<ExtractedLinkView>) -> Seq<
    ProcessedLinkView,
>
    decreases links.len(),
{
    if links.len() == 0 {
        Seq::empty()
    } else {
        let prev = gathered(c, base, current_depth, links.drop_last());
        if under_link_limit(c, crawl_count(prev)) {
            match processed_link(c, base, current_depth, links.last()) {
                Some(pl) => prev.push(pl),
                None => prev,
            }
        } else {
            prev
        }
    }
}

/// The links of one priority, in their order.
pub open spec fn with_link_priority(s: Seq<ProcessedLinkView>, p: int) -> Seq<ProcessedLinkView> {
    s.filter(|l: ProcessedLinkView| l.priority == p)
}

/// The links by priority, highest first, keeping their order among links of
/// one priority (a stable sort): priority 255, then 254, down to `low`.
pub open spec fn links_by_priority_from(s: Seq<ProcessedLinkView>, low: int) -> Seq<ProcessedLinkView>
    decreases 256 - low,
{
    if low >= 256 || low < 0 {
        Seq::empty()
    } else {
        links_by_priority_from(s, low + 1) + with_link_priority(s, low)
    }
}

/// Some link of the list has the normalized URL `u`.
pub open spec fn url_seen(s: Seq<ProcessedLinkView>, u: Seq<char>) -> bool {
    exists|k: int| 0 <= k < s.len() && (#[trigger] s[k]).normalized_url == u
}

/// The queue limit is reached: the list is non-empty and has at least
/// `max_queue_size` links.
pub open spec fn queue_full(c: ExtensiveConfig, n: nat) -> bool {
    match c.max_queue_size {
        Some(m) => n > 0 && n >= m,
        None => false,
    }
}

/// The links kept for queueing, in order: those to be followed, the first
/// of each normalized URL, until the queue limit is reached.
pub open spec fn kept_links(c: ExtensiveConfig, s: Seq<ProcessedLinkView>) -> Seq<ProcessedLinkView>
    decreases s.len(),
{
    if s.len() == 0 {
        Seq::empty()
    } else {
        let prev = kept_links(c, s.drop_last());
        if queue_full(c, prev.len()) || !s.last().should_crawl || url_seen(prev, s.last().normalized_url) {
            prev
        } else {
            prev.push(s.last())
        }
    }
}

/// Once the link limit is reached, later links change nothing.
proof fn lemma_gathered_stops(c: ExtensiveConfig, base: ParsedUrlView, d: usize, links: Seq<ExtractedLinkView>, k: int)
    requires
        0 <= k <= links.len(),
        !under_link_limit(c, crawl_count(gathered(c, base, d, links.take(k)))),
    ensures
        gathered(c, base, d, links) == gathered(c, base, d, links.take(k)),
    decreases links.len(),
{
    if links.len() == k {
        assert(links.take(k) =~= links);
    } else {
        assert(links.drop_last().take(k) =~= links.take(k));
        lemma_gathered_stops(c, base, d, links.drop_last(), k);
    }
}

proof fn lemma_by_priority_sorted(s: Seq<ProcessedLinkView>, low: int)
    requires
        0 <= low <= 256,
    ensures
        forall|i: int|
            0 <= i < links_by_priority_from(s, low).len() ==> #[trigger] links_by_priority_from(s, low)[i].priority
                >= low,
        forall|i: int, j: int|
            0 <= i < j < links_by_priority_from(s, low).len() ==> links_by_priority_from(s, low)[i].priority
                >= links_by_priority_from(s, low)[j].priority,
        forall|i: int|
            0 <= i < links_by_priority_from(s, low).len() ==> s.contains(#[trigger] links_by_priority_from(s, low)[i]),
        forall|k: int| 0 <= k < s.len() && s[k].priority >= low ==> links_by_priority_from(s, low).contains(#[trigger] s[k]),
    decreases 256 - low,
{
    if low < 256 {
        lemma_by_priority_sorted(s, low + 1);
        let a = links_by_priority_from(s, low + 1);
        let b = with_link_priority(s, low);
        let f = |l: ProcessedLinkView| l.priority == low;
        let r = links_by_priority_from(s, low);
        assert(r == a + b);
        assert(b == s.filter(f));
        assert forall|k: int| 0 <= k < b.len() implies (#[trigger] b[k]).priority == low && s.contains(b[k]) by {
            s.lemma_filter_pred(f, k);
            assert(b.contains(b[k]));
            s.lemma_filter_contains_rev(f, b[k]);
        }
        assert forall|i: int| 0 <= i < r.len() implies #[trigger] r[i].priority >= low && s.contains(r[i]) by {
            if i >= a.len() {
                assert(r[i] == b[i - a.len()]);
            } else {
                assert(r[i] == a[i]);
            }
        }
        assert forall|i: int, j: int| 0 <= i < j < r.len() implies r[i].priority >= r[j].priority by {
            if j < a.len() {
                assert(r[i] == a[i] && r[j] == a[j]);
            } else if i >= a.len() {
                assert(r[i] == b[i - a.len()] && r[j] == b[j - a.len()]);
            } else {
                assert(r[i] == a[i] && r[j] == b[j - a.len()]);
            }
        }
        assert forall|k: int| 0 <= k < s.len() && s[k].priority >= low implies r.contains(#[trigger] s[k]) by {
            if s[k].priority == low {
                s.lemma_filter_contains(f, k);
                let q = choose|q: int| 0 <= q < b.len() && b[q] == s[k];
                assert(r[a.len() + q] == s[k]);
            } else {
                let q = choose|q: int| 0 <= q < a.len() && a[q] == s[k];
                assert(r[q] == s[k]);
            }
        }
    } else {
        assert(links_by_priority_from(s, low) =~= Seq::<ProcessedLinkView>::empty());
    }
}

/// `process_links` sorts the links it gathered: highest priority first,
/// keeping every gathered link and adding none.
pub proof fn lemma_processed_links_sorted(c: ExtensiveConfig, base: ParsedUrlView, current_depth: usize, links: Seq<ExtractedLinkView>)
    ensures
        ({
            let g = gathered(c, base, current_depth, links);
            let r = links_by_priority_from(g, 0);
            &&& forall|i: int, j: int| 0 <= i < j < r.len() ==> r[i].priority >= r[j].priority
            &&& forall|i: int| 0 <= i < r.len() ==> g.contains(#[trigger] r[i])
            &&& forall|k: int| 0 <= k < g.len() ==> r.contains(#[trigger] g[k])
        }),
{
    let g = gathered(c, base, current_depth, links);
    lemma_by_priority_sorted(g, 0);
}

/// `process_links` follows at most `max_links_per_page` links of a page.
pub proof fn lemma_gathered_within_link_limit(c: ExtensiveConfig, base: ParsedUrlView, current_depth: usize, links: Seq<ExtractedLinkView>)
    requires
        c.max_links_per_page is Some,
    ensures
        crawl_count(gathered(c, base, current_depth, links)) <= c.max_links_per_page->0,
    decreases links.len(),
{
    if links.len() > 0 {
        lemma_gathered_within_link_limit(c, base, current_depth, links.drop_last());
        let prev = gathered(c, base, current_depth, links.drop_last());
        match processed_link(c, base, current_depth, links.last()) {
            Some(pl) => {
                assert(prev.push(pl).drop_last() =~= prev);
            },
            None => {},
        }
    }
}

/// The links kept for queueing are all to be followed, have distinct
/// normalized URLs, and number at most the queue size (at least one link
/// is kept before the limit is checked).
pub proof fn lemma_kept_links_properties(c: ExtensiveConfig, s: Seq<ProcessedLinkView>)
    ensures
        ({
            let k = kept_links(c, s);
            &&& forall|i: int| 0 <= i < k.len() ==> (#[trigger] k[i]).should_crawl
            &&& forall|i: int, j: int| 0 <= i < j < k.len() ==> k[i].normalized_url != k[j].normalized_url
            &&& k.len() <= s.len()
            &&& (c.max_queue_size matches Some(m) ==> k.len() <= m || k.len() <= 1)
        }),
    decreases s.len(),
{
    if s.len() > 0 {
        lemma_kept_links_properties(c, s.drop_last());
        let prev = kept_links(c, s.drop_last());
        let k = kept_links(c, s);
        if !(queue_full(c, prev.len()) || !s.last().should_crawl || url_seen(prev, s.last().normalized_url)) {
            assert(k == prev.push(s.last()));
            assert forall|i: int, j: int| 0 <= i < j < k.len() implies k[i].normalized_url != k[j].normalized_url by {
                if j == prev.len() {
                    assert(k[i] == prev[i]);
                    if k[i].normalized_url == k[j].normalized_url {
                        assert(url_seen(prev, s.last().normalized_url));
                    }
                } else {
                    assert(k[i] == prev[i] && k[j] == prev[j]);
                }
            }
            assert forall|i: int| 0 <= i < k.len() implies (#[trigger] k[i]).should_crawl by {
                if i < prev.len() {
                    assert(k[i] == prev[i]);
                }
            }
        }
    }
}

/// Once the queue is full, later links change nothing.
proof fn lemma_kept_stops(c: ExtensiveConfig, s: Seq<ProcessedLinkView>, k: int)
    requires
        0 <= k <= s.len(),
        queue_full(c, kept_links(c, s.take(k)).len()),
    ensures
        kept_links(c, s) == kept_links(c, s.take(k)),
    decreases s.len(),
{
    if s.len() == k {
        assert(s.take(k) =~= s);
    } else {
        assert(s.drop_last().take(k) =~= s.take(k));
        lemma_kept_stops(c, s.drop_last(), k);
    }
}

/// The links by priority, highest first, stable.
fn order_links_by_priority(links: Vec<ProcessedLink>) -> (r: Vec<ProcessedLink>)
    ensures
        processed_view(r@) == links_by_priority_from(processed_view(links@), 0),
{
    let ghost src = processed_view(links@);
    let mut buckets: Vec<Vec<ProcessedLink>> = Vec::new();
    let mut k: usize = 0;
    while k < 256
        invariant
            k <= 256,
            buckets@.len() == k,
            forall|q: int| 0 <= q < k ==> (#[trigger] buckets@[q])@.len() == 0,
        decreases 256 - k,
    {
        buckets.push(Vec::new());
        k = k + 1;
    }
    let mut rest = links;
    let mut n: usize = 0;
    let total: usize = rest.len();
    proof {
        assert(src.len() == total);
        assert(src.skip(0) =~= src);
        assert forall|q: int| 0 <= q < 256 implies processed_view((#[trigger] buckets@[q])@) == with_link_priority(
            src.take(0),
            q,
        ) by {
            assert(processed_view(buckets@[q]@) =~= Seq::<ProcessedLinkView>::empty());
            assert(with_link_priority(src.take(0), q) =~= Seq::<ProcessedLinkView>::empty());
        }
    }
    while rest.len() > 0
        invariant
            processed_view(rest@) == src.skip(n as int),
            n <= src.len(),
            src.len() <= usize::MAX,
            buckets@.len() == 256,
            forall|q: int| 0 <= q < 256 ==> processed_view((#[trigger] buckets@[q])@) == with_link_priority(
                src.take(n as int),
                q,
            ),
        decreases rest@.len(),
    {
        let ghost r0 = rest@;
        proof {
            assert(processed_view(r0).len() == r0.len());
            assert(n < src.len());
            assert(src.skip(n as int)[0] == src[n as int]);
            let t = src.take(n as int + 1);
            assert(t.drop_last() =~= src.take(n as int));
            reveal(Seq::filter);
        }
        let link = rest.remove(0);
        proof {
            assert(link@ == processed_view(r0)[0]);
            assert(rest@ =~= r0.subrange(1, r0.len() as int));
            assert forall|i: int| 0 <= i < rest@.len() implies #[trigger] processed_view(rest@)[i] == src.skip(
                n as int + 1,
            )[i] by {
                assert(processed_view(rest@)[i] == rest@[i]@);
                assert(rest@[i] == r0[i + 1]);
                assert(processed_view(r0)[i + 1] == r0[i + 1]@);
            }
            assert(processed_view(rest@) =~= src.skip(n as int + 1));
        }
        let p = link.priority as usize;
        let ghost b0 = buckets@;
        let mut b = buckets.remove(p);
        let ghost bv = b@;
        b.push(link);
        proof {
            assert(processed_view(b@) =~= processed_view(bv).push(src[n as int]));
        }
        buckets.insert(p, b);
        proof {
            assert(buckets@ =~= b0.update(p as int, b));
            assert forall|q: int| 0 <= q < 256 implies processed_view((#[trigger] buckets@[q])@) == with_link_priority(
                src.take(n as int + 1),
                q,
            ) by {
                let t = src.take(n as int + 1);
                assert(t.last() == src[n as int]);
                if q != p as int {
                    assert(buckets@[q] == b0[q]);
                }
            }
        }
        n = n + 1;
    }
    proof {
        assert(src.take(src.len() as int) =~= src);
    }
    let mut ordered: Vec<ProcessedLink> = Vec::new();
    proof {
        assert(processed_view(ordered@) =~= links_by_priority_from(src, 256));
    }
    while buckets.len() > 0
        invariant
            buckets@.len() <= 256,
            forall|q: int| 0 <= q < buckets@.len() ==> processed_view((#[trigger] buckets@[q])@) == with_link_priority(src, q),
            processed_view(ordered@) == links_by_priority_from(src, buckets@.len() as int),
        decreases buckets@.len(),
    {
        let ghost len0 = buckets@.len();
        let ghost o0 = ordered@;
        let mut b = buckets.pop().unwrap();
        let ghost bv = b@;
        proof {
            assert(processed_view(bv) == with_link_priority(src, len0 - 1));
        }
        ordered.append(&mut b);
        proof {
            assert(processed_view(ordered@) =~= processed_view(o0) + processed_view(bv));
        }
    }
    ordered
}

/// Whether a link of the list has the normalized URL `u`.
fn has_url(kept: &Vec<ProcessedLink>, u: &str) -> (r: bool)
    ensures
        r == url_seen(processed_view(kept@), u@),
{
    let mut i: usize = 0;
    while i < kept.len()
        invariant
            i <= kept@.len(),
            forall|j: int| 0 <= j < i ==> (#[trigger] kept@[j]).normalized_url@ != u@,
        decreases kept@.len() - i,
    {
        if str_eq(kept[i].normalized_url.as_str(), u) {
            proof {
                assert(processed_view(kept@)[i as int].normalized_url == u@);
            }
            return true;
        }
        i = i + 1;
    }
    proof {
        assert forall|k: int| 0 <= k < processed_view(kept@).len() implies (#[trigger] processed_view(kept@)[k]).normalized_url
            != u@ by {
            assert(processed_view(kept@)[k] == kept@[k]@);
        }
    }
    false
}

/// The compile error of the first bad pattern of a list.
pub open spec fn compile_error_of(ps: Option<Vec<String>>) -> Seq<char> {
    let (_, e) = first_bad_opt(ps)->0;
    e
}

/// Why a link processor refuses a configuration: the first problem
/// `ExtensiveConfig::validate` finds, else the error of the first pattern
/// that does not compile among the include, exclude and priority patterns
/// (in that order).
pub open spec fn link_processor_error(c: ExtensiveConfig) -> Option<Seq<char>> {
    match extensive_config_error(c) {
        Some(m) => Some(m),
        None => if first_bad_opt(c.link_filter.include_patterns) is Some {
            Some("Failed to compile include pattern: "@ + compile_error_of(c.link_filter.include_patterns))
        } else if first_bad_opt(c.link_filter.exclude_patterns) is Some {
            Some("Failed to compile exclude pattern: "@ + compile_error_of(c.link_filter.exclude_patterns))
        } else if first_bad_opt(c.priority_patterns) is Some {
            Some("Failed to compile priority pattern: "@ + compile_error_of(c.priority_patterns))
        } else {
            None
        },
    }
}

fn domain_text(d: &Option<String>) -> (r: Option<&str>)
    ensures
        opt_str_view(r) == opt_text(*d),
{
    match d {
        Some(s) => Some(s.as_str()),
        None => None,
    }
}

/// Follows extensive-crawling decisions for discovered links.
#[derive(Debug)]
pub struct LinkProcessor {
    config: ExtensiveConfig,
}

impl LinkProcessor {
    pub closed spec fn config_spec(&self) -> ExtensiveConfig {
        self.config
    }

    /// All configured patterns compile.
    pub closed spec fn wf(&self) -> bool {
        &&& (self.config.link_filter.include_patterns matches Some(ps) ==> first_bad(ps@) is None)
        &&& (self.config.link_filter.exclude_patterns matches Some(ps) ==> first_bad(ps@) is None)
        &&& (self.config.priority_patterns matches Some(ps) ==> first_bad(ps@) is None)
    }

    /// A processor for valid settings whose patterns all compile.
    pub fn new(config: ExtensiveConfig) -> (r: Result<Self, CrawlError>)
        ensures
            match link_processor_error(config) {
                None => r matches Ok(p) && p.config_spec() == config && p.wf(),
                Some(m) => r matches Err(CrawlError::ExtensiveConfigError(s)) && s@ == m,
            },
    {
        match config.validate() {
            Err(e) => {
                return Err(e);
            },
            Ok(()) => {},
        }
        match find_bad(&config.link_filter.include_patterns) {
            Some((_, e)) => {
                return Err(
                    CrawlError::ExtensiveConfigError(concat_str("Failed to compile include pattern: ", e.as_str())),
                );
            },
            None => {},
        }
        match find_bad(&config.link_filter.exclude_patterns) {
            Some((_, e)) => {
                return Err(
                    CrawlError::ExtensiveConfigError(concat_str("Failed to compile exclude pattern: ", e.as_str())),
                );
            },
            None => {},
        }
        match find_bad(&config.priority_patterns) {
            Some((_, e)) => {
                return Err(
                    CrawlError::ExtensiveConfigError(concat_str("Failed to compile priority pattern: ", e.as_str())),
                );
            },
            None => {},
        }
        Ok(LinkProcessor { config })
    }

    /// The category of a link by its URL.
    fn categorize_link(&self, url: &ParsedUrl) -> (r: LinkCategory)
        ensures
            r == category_of(url@),
    {
        match extension(url.path.as_str()) {
            Some(ext) => {
                if is_document_extension(ext.as_str()) {
                    return LinkCategory::Document;
                }
                if is_media_extension(ext.as_str()) {
                    return LinkCategory::Media;
                }
                if is_resource_extension(ext.as_str()) {
                    return LinkCategory::Resource;
                }
            },
            None => {},
        }
        if url.host.is_some() {
            LinkCategory::Internal
        } else {
            LinkCategory::Other
        }
    }

    /// Whether a link at `depth` is followed, and why.
    fn should_crawl_link(&self, url: &ParsedUrl, base_url: &ParsedUrl, depth: usize, category: LinkCategory) -> (r: (
        bool,
        String,
    ))
        requires
            self.wf(),
        ensures
            (r.0, r.1@) == crawl_decision(self.config, url@, base_url@, depth, category),
    {
        let c = &self.config;
        if !c.is_depth_allowed(depth) {
            let d = u64_to_string(depth as u64);
            return (false, concat_str("Depth limit exceeded: ", d.as_str()));
        }
        if !c.is_domain_allowed(domain_text(&url.domain), domain_text(&base_url.domain)) {
            return (false, "Domain not allowed".to_string());
        }
        match category {
            LinkCategory::Resource | LinkCategory::Media => {
                return (false, "Resource/media link excluded".to_string());
            },
            _ => {},
        }
        let n = url.serialization.as_str().len();
        match c.link_filter.min_url_length {
            Some(min_len) => {
                if n < min_len {
                    let mut m = concat_str("URL too short: ", u64_to_string(n as u64).as_str());
                    m.append(" < ");
                    m.append(u64_to_string(min_len as u64).as_str());
                    return (false, m);
                }
            },
            None => {},
        }
        match c.link_filter.max_url_length {
            Some(max_len) => {
                if n > max_len {
                    let mut m = concat_str("URL too long: ", u64_to_string(n as u64).as_str());
                    m.append(" > ");
                    m.append(u64_to_string(max_len as u64).as_str());
                    return (false, m);
                }
            },
            None => {},
        }
        match extension(url.path.as_str()) {
            Some(ext) => {
                match &c.link_filter.include_extensions {
                    Some(v) => {
                        if !is_listed(v, ext.as_str()) {
                            let mut m = concat_str("Extension '", ext.as_str());
                            m.append("' not in include list");
                            return (false, m);
                        }
                    },
                    None => {},
                }
                match &c.link_filter.exclude_extensions {
                    Some(v) => {
                        if is_listed(v, ext.as_str()) {
                            let mut m = concat_str("Extension '", ext.as_str());
                            m.append("' in exclude list");
                            return (false, m);
                        }
                    },
                    None => {},
                }
            },
            None => {},
        }
        match &c.link_filter.include_patterns {
            Some(ps) => {
                if !matches_any(ps, url.serialization.as_str()) {
                    return (false, "URL doesn't match include patterns".to_string());
                }
            },
            None => {},
        }
        match &c.link_filter.exclude_patterns {
            Some(ps) => {
                if matches_any(ps, url.serialization.as_str()) {
                    return (false, "URL matches exclude patterns".to_string());
                }
            },
            None => {},
        }
        (true, "Passed all filters".to_string())
    }

    /// The priority score of a link.
    fn calculate_priority(&self, url: &ParsedUrl, category: LinkCategory, extracted_link: &ExtractedLink) -> (r: u8)
        requires
            self.wf(),
        ensures
            r == priority_of(self.config, url@, category, extracted_link.anchor_text@),
    {
        let pc = self.config.priority_config;
        let adj = pc.category_adjustments;
        let mut priority = pc.base_priority;
        priority = match category {
            LinkCategory::Internal => priority.saturating_add(adj.internal_boost),
            LinkCategory::External => priority.saturating_add(adj.external_boost),
            LinkCategory::Document => priority.saturating_add(adj.document_boost),
            LinkCategory::Resource => priority.saturating_sub(adj.resource_penalty),
            LinkCategory::Media => priority.saturating_sub(adj.media_penalty),
            LinkCategory::Other => priority.saturating_add(adj.other_boost),
        };
        if !is_blank(extracted_link.anchor_text.as_str()) {
            priority = priority.saturating_add(pc.anchor_text_boost);
        }
        let segments: usize = match path_segments(url.path.as_str()) {
            Some(v) => v.len(),
            None => 0,
        };
        let depth_adj = pc.depth_adjustments;
        if segments == 1 {
            priority = priority.saturating_add(depth_adj.root_boost);
        } else if segments <= 3 {
            priority = priority.saturating_add(depth_adj.shallow_boost);
        } else if segments > 5 {
            priority = priority.saturating_sub(depth_adj.deep_penalty);
        }
        match &self.config.priority_patterns {
            Some(ps) => {
                if matches_any(ps, url.serialization.as_str()) {
                    priority = priority.saturating_add(pc.pattern_boost);
                }
            },
            None => {},
        }
        if url.query.is_some() {
            priority = priority.saturating_sub(pc.query_penalty);
        }
        if url.fragment.is_some() {
            priority = priority.saturating_sub(pc.fragment_penalty);
        }
        priority
    }

    /// Whether fewer than `max_links_per_page` links are followed so far.
    fn room_for_links(&self, count: usize) -> (r: bool)
        ensures
            r == under_link_limit(self.config, count as nat),
    {
        match self.config.max_links_per_page {
            Some(m) => count < m,
            None => true,
        }
    }

    /// Processes one discovered link found at `current_depth`.
    fn process_single_link(&self, extracted_link: ExtractedLink, base_url: &ParsedUrl, current_depth: usize) -> (r: Result<
        ProcessedLink,
        CrawlError,
    >)
        requires
            self.wf(),
            current_depth < usize::MAX,
        ensures
            match processed_link(self.config, base_url@, current_depth, extracted_link@) {
                Some(v) => r matches Ok(p) && p@ == v,
                None => r is Err,
            },
    {
        let url = match parse_url(extracted_link.url.as_str()) {
            Ok(u) => u,
            Err(e) => {
                return Err(CrawlError::InvalidUrl(e));
            },
        };
        let normalized_url = match self.config.normalize_url(extracted_link.url.as_str()) {
            Some(n) => n,
            None => {
                return Err(CrawlError::InvalidUrl(extracted_link.url.clone()));
            },
        };
        let category = self.categorize_link(&url);
        let next_depth = current_depth + 1;
        let (should_crawl, reason) = self.should_crawl_link(&url, base_url, next_depth, category);
        let priority = self.calculate_priority(&url, category, &extracted_link);
        Ok(ProcessedLink { extracted_link, normalized_url, category, depth: next_depth, priority, should_crawl, reason })
    }

    /// Processes the links found on the page `base_url` at `current_depth`:
    /// nothing when extensive crawling is off; otherwise the links in page
    /// order while fewer than `max_links_per_page` are followed, then sorted
    /// by priority, highest first (stable). A base that is not a URL is an
    /// error.
    pub fn process_links(&self, extracted_links: Vec<ExtractedLink>, base_url: &str, current_depth: usize) -> (r: Result<
        Vec<ProcessedLink>,
        CrawlError,
    >)
        requires
            self.wf(),
            self.config_spec().enabled && extracted_links@.len() > 0 ==> current_depth < usize::MAX,
        ensures
            !self.config_spec().enabled ==> (r matches Ok(v) && v@.len() == 0),
            self.config_spec().enabled ==> (match url_parse_result(base_url@) {
                Ok(b) => r matches Ok(v) && processed_view(v@) == links_by_priority_from(
                    gathered(self.config_spec(), b, current_depth, links_view(extracted_links@)),
                    0,
                ),
                Err(e) => r matches Err(CrawlError::InvalidUrl(m)) && m@ == e,
            }),
    {
        if !self.config.should_crawl_extensively() {
            return Ok(Vec::new());
        }
        let base = match parse_url(base_url) {
            Ok(b) => b,
            Err(e) => {
                return Err(CrawlError::InvalidUrl(e));
            },
        };
        let ghost src = links_view(extracted_links@);
        let ghost c = self.config;
        let mut rest = extracted_links;
        let mut processed: Vec<ProcessedLink> = Vec::new();
        let mut link_count: usize = 0;
        let mut n: usize = 0;
        let total: usize = rest.len();
        proof {
            assert(src.skip(0) =~= src);
            assert(links_view(rest@) == src);
            assert(src.take(0) =~= Seq::<ExtractedLinkView>::empty());
            assert(processed_view(processed@) =~= Seq::<ProcessedLinkView>::empty());
        }
        while rest.len() > 0 && self.room_for_links(link_count)
            invariant
                self.wf(),
                self.config == c,
                c.enabled,
                src.len() == total,
                src.len() > 0 ==> current_depth < usize::MAX,
                links_view(rest@) == src.skip(n as int),
                n <= src.len(),
                processed_view(processed@) == gathered(c, base@, current_depth, src.take(n as int)),
                link_count == crawl_count(processed_view(processed@)),
                link_count <= n,
            decreases rest@.len(),
        {
            let ghost r0 = rest@;
            let ghost p0 = processed@;
            proof {
                assert(links_view(r0).len() == r0.len());
                assert(src.skip(n as int)[0] == src[n as int]);
                assert(src.take(n as int + 1).drop_last() =~= src.take(n as int));
                assert(src.take(n as int + 1).last() == src[n as int]);
            }
            let link = rest.remove(0);
            proof {
                assert(link@ == links_view(r0)[0]);
                assert(rest@ =~= r0.subrange(1, r0.len() as int));
                assert forall|i: int| 0 <= i < rest@.len() implies #[trigger] links_view(rest@)[i] == src.skip(
                    n as int + 1,
                )[i] by {
                    assert(links_view(rest@)[i] == rest@[i]@);
                    assert(rest@[i] == r0[i + 1]);
                    assert(links_view(r0)[i + 1] == r0[i + 1]@);
                }
                assert(links_view(rest@) =~= src.skip(n as int + 1));
            }
            match self.process_single_link(link, &base, current_depth) {
                Ok(pl) => {
                    let crawl = pl.should_crawl;
                    processed.push(pl);
                    proof {
                        assert(processed_view(processed@) =~= processed_view(p0).push(pl@));
                        assert(processed_view(processed@).drop_last() =~= processed_view(p0));
                    }
                    if crawl {
                        link_count = link_count + 1;
                    }
                },
                Err(_) => {},
            }
            n = n + 1;
        }
        proof {
            if rest@.len() == 0 {
                assert(links_view(rest@).len() == 0);
                assert(src.take(n as int) =~= src);
            } else {
                lemma_gathered_stops(c, base@, current_depth, src, n as int);
            }
        }
        Ok(order_links_by_priority(processed))
    }

    /// The queue limit is reached for `n` kept links.
    fn is_queue_full(&self, n: usize) -> (r: bool)
        ensures
            r == queue_full(self.config, n as nat),
    {
        match self.config.max_queue_size {
            Some(m) => n > 0 && n >= m,
            None => false,
        }
    }

    /// Keeps the links to be followed, the first of each normalized URL,
    /// until the queue limit is reached.
    pub fn filter_processed_links(&self, links: Vec<ProcessedLink>) -> (r: Vec<ProcessedLink>)
        ensures
            processed_view(r@) == kept_links(self.config_spec(), processed_view(links@)),
    {
        let ghost src = processed_view(links@);
        let ghost c = self.config;
        let mut rest = links;
        let mut filtered: Vec<ProcessedLink> = Vec::new();
        let mut n: usize = 0;
        let total: usize = rest.len();
        proof {
            assert(src.skip(0) =~= src);
            assert(src.take(0) =~= Seq::<ProcessedLinkView>::empty());
            assert(processed_view(filtered@) =~= Seq::<ProcessedLinkView>::empty());
        }
        while rest.len() > 0 && !self.is_queue_full(filtered.len())
            invariant
                self.config == c,
                src.len() == total,
                processed_view(rest@) == src.skip(n as int),
                n <= src.len(),
                processed_view(filtered@) == kept_links(c, src.take(n as int)),
                filtered@.len() <= n,
            decreases rest@.len(),
        {
            let ghost r0 = rest@;
            let ghost f0 = filtered@;
            proof {
                assert(processed_view(r0).len() == r0.len());
                assert(src.skip(n as int)[0] == src[n as int]);
                assert(src.take(n as int + 1).drop_last() =~= src.take(n as int));
                assert(src.take(n as int + 1).last() == src[n as int]);
            }
            let link = rest.remove(0);
            proof {
                assert(link@ == processed_view(r0)[0]);
                assert(rest@ =~= r0.subrange(1, r0.len() as int));
                assert forall|i: int| 0 <= i < rest@.len() implies #[trigger] processed_view(rest@)[i] == src.skip(
                    n as int + 1,
                )[i] by {
                    assert(processed_view(rest@)[i] == rest@[i]@);
                    assert(rest@[i] == r0[i + 1]);
                    assert(processed_view(r0)[i + 1] == r0[i + 1]@);
                }
                assert(processed_view(rest@) =~= src.skip(n as int + 1));
            }
            if link.should_crawl && !has_url(&filtered, link.normalized_url.as_str()) {
                filtered.push(link);
                proof {
                    assert(processed_view(filtered@) =~= processed_view(f0).push(link@));
                }
            }
            n = n + 1;
        }
        proof {
            if rest@.len() == 0 {
                assert(processed_view(rest@).len() == 0);
                assert(src.take(n as int) =~= src);
            } else {
                lemma_kept_stops(c, src, n as int);
            }
        }
        filtered
    }
}

} // verus!
