//! Link discovery: finding the links of a page, classifying them against
//! the site being crawled, and keeping those worth following.
use vstd::prelude::*;
use crate::crawl_core::utils::{valid_crawl_url, ErrorUtils};
use crate::patterns::{captures_all, captures_view, regex_capture_groups, regex_compile_error, regex_error};
use crate::text_util::{concat_str, ends_with, has_suffix, lowercase_of, str_eq, to_lowercase};
use crate::web_url::{join_url, opt_text, parse_url, url_join_result, url_parse_result};

verus! {

/// How a link relates to the site being crawled.
#[derive(Debug, Clone, Copy, PartialEq, Eq, Structural)]
pub enum LinkType {
    /// Same host as the start page, or an allowed domain.
    Internal,
    /// Another host.
    External,
    /// A subdomain of the start page's host.
    Subdomain,
    /// A style sheet, script, image or font.
    Asset,
    /// A PDF, office document or archive.
    Document,
}

/// A link found on a page.
#[derive(Debug)]
pub struct ExtractedLink {
    pub url: String,
    pub anchor_text: String,
    pub link_type: LinkType,
    pub depth: usize,
}

/// Abstract form of a found link.
pub struct ExtractedLinkView {
    pub url: Seq<char>,
    pub anchor_text: Seq<char>,
    pub link_type: LinkType,
    pub depth: usize,
}

impl View for ExtractedLink {
    type V = ExtractedLinkView;

    open spec fn view(&self) -> ExtractedLinkView {
        ExtractedLinkView {
            url: self.url@,
            anchor_text: self.anchor_text@,
            link_type: self.link_type,
            depth: self.depth,
        }
    }
}

pub open spec fn links_view(v: Seq<ExtractedLink>) -> Seq<ExtractedLinkView> {
    v.map_values(|l: ExtractedLink| l@)
}

/// Counts of found links by type.
#[derive(Debug, Clone, Copy, PartialEq, Eq, Structural)]
pub struct LinkStats {
    pub total: usize,
    pub internal: usize,
    pub external: usize,
    pub subdomain: usize,
    pub assets: usize,
    pub documents: usize,
}

/// Paths of style sheets, scripts, images and fonts.
pub open spec fn is_asset_path(p: Seq<char>) -> bool {
    ||| has_suffix(p, ".css"@) || has_suffix(p, ".js"@) || has_suffix(p, ".jpg"@)
    ||| has_suffix(p, ".jpeg"@) || has_suffix(p, ".png"@) || has_suffix(p, ".gif"@)
    ||| has_suffix(p, ".svg"@) || has_suffix(p, ".ico"@) || has_suffix(p, ".woff"@)
    ||| has_suffix(p, ".woff2"@) || has_suffix(p, ".ttf"@) || has_suffix(p, ".eot"@)
}

/// Paths of documents and archives.
pub open spec fn is_document_path(p: Seq<char>) -> bool {
    ||| has_suffix(p, ".pdf"@) || has_suffix(p, ".doc"@) || has_suffix(p, ".docx"@)
    ||| has_suffix(p, ".xls"@) || has_suffix(p, ".xlsx"@) || has_suffix(p, ".ppt"@)
    ||| has_suffix(p, ".pptx"@) || has_suffix(p, ".zip"@) || has_suffix(p, ".rar"@)
    ||| has_suffix(p, ".tar"@) || has_suffix(p, ".gz"@)
}

fn asset_path(p: &str) -> (r: bool)
    ensures
        r == is_asset_path(p@),
{
    ends_with(p, ".css") || ends_with(p, ".js") || ends_with(p, ".jpg") || ends_with(p, ".jpeg")
        || ends_with(p, ".png") || ends_with(p, ".gif") || ends_with(p, ".svg") || ends_with(p, ".ico")
        || ends_with(p, ".woff") || ends_with(p, ".woff2") || ends_with(p, ".ttf") || ends_with(p, ".eot")
}

fn document_path(p: &str) -> (r: bool)
    ensures
        r == is_document_path(p@),
{
    ends_with(p, ".pdf") || ends_with(p, ".doc") || ends_with(p, ".docx") || ends_with(p, ".xls")
        || ends_with(p, ".xlsx") || ends_with(p, ".ppt") || ends_with(p, ".pptx") || ends_with(p, ".zip")
        || ends_with(p, ".rar") || ends_with(p, ".tar") || ends_with(p, ".gz")
}

/// The type of a link with the given host and lowercased path: assets and
/// documents by their extension; otherwise by host, compared with the
/// start page's host (`base`) and the allowed domains.
pub open spec fn classify(base: Option<Seq<char>>, allowed: Seq<Seq<char>>, host: Seq<char>, path: Seq<char>) -> LinkType {
    if is_asset_path(path) {
        LinkType::Asset
    } else if is_document_path(path) {
        LinkType::Document
    } else {
        match base {
            Some(b) => if host == b {
                LinkType::Internal
            } else if has_suffix(host, "."@ + b) {
                LinkType::Subdomain
            } else if allowed.contains(host) {
                LinkType::Internal
            } else {
                LinkType::External
            },
            None => LinkType::External,
        }
    }
}

/// Style sheets, scripts, images and fonts are assets, never pages to
/// follow: a path ending in `.css`, `.js`, `.jpg`, `.jpeg`, `.png`, `.gif`,
/// `.svg`, `.ico`, `.woff`, `.woff2`, `.ttf` or `.eot` is classified as an
/// asset, whatever its host, and no other path is.
pub proof fn lemma_asset_extensions(base: Option<Seq<char>>, allowed: Seq<Seq<char>>, host: Seq<char>, path: Seq<char>)
    ensures
        (has_suffix(path, ".css"@) || has_suffix(path, ".js"@) || has_suffix(path, ".jpg"@) || has_suffix(path, ".jpeg"@) || has_suffix(path, ".png"@) || has_suffix(path, ".gif"@) || has_suffix(path, ".svg"@) || has_suffix(path, ".ico"@) || has_suffix(path, ".woff"@) || has_suffix(path, ".woff2"@) || has_suffix(path, ".ttf"@) || has_suffix(path, ".eot"@)) <==> classify(base, allowed, host, path) == LinkType::Asset,
{
}

/// The regular expressions that find links: anchors (address and text),
/// images and `link` elements.
pub open spec fn anchor_pattern() -> Seq<char> {
    "<a[^>]+href\\s*=\\s*[\"']([^\"']+)[\"'][^>]*>([^<]*)</a>"@
}

pub open spec fn image_pattern() -> Seq<char> {
    "<img[^>]+src\\s*=\\s*[\"']([^\"']+)[\"'][^>]*>"@
}

pub open spec fn link_tag_pattern() -> Seq<char> {
    "<link[^>]+href\\s*=\\s*[\"']([^\"']+)[\"'][^>]*>"@
}

/// Finds, classifies and filters the links of pages.
#[derive(Debug)]
pub struct LinkExtractor {
    base_host: Option<String>,
    allowed_domains: Vec<String>,
    max_depth: usize,
}

/// Abstract settings of an extractor.
pub struct LinkExtractorView {
    pub base_host: Option<Seq<char>>,
    pub allowed_domains: Seq<Seq<char>>,
    pub max_depth: usize,
}

impl View for LinkExtractor {
    type V = LinkExtractorView;

    closed spec fn view(&self) -> LinkExtractorView {
        LinkExtractorView {
            base_host: opt_text(self.base_host),
            allowed_domains: crate::text_util::strings_view(self.allowed_domains@),
            max_depth: self.max_depth,
        }
    }
}

/// The host of a URL text, or the empty text.
pub open spec fn host_or_empty(url: Seq<char>) -> Seq<char> {
    match url_parse_result(url) {
        Ok(p) => match p.host {
            Some(h) => h,
            None => Seq::empty(),
        },
        Err(_) => Seq::empty(),
    }
}

/// The type a followed link gets, or `None` when it is dropped: invalid
/// URLs (see `valid_crawl_url`), external links and assets are dropped.
pub open spec fn kept_type(e: LinkExtractorView, url: Seq<char>) -> Option<LinkType> {
    if !valid_crawl_url(url) {
        None
    } else {
        let p = url_parse_result(url)->Ok_0;
        let t = classify(e.base_host, e.allowed_domains, host_or_empty(url), lowercase_of(p.path));
        if t == LinkType::External || t == LinkType::Asset {
            None
        } else {
            Some(t)
        }
    }
}

/// The link one match makes: its address (group 1) resolved against the
/// page's URL and kept (see `kept_type`), with the anchor text (group 2, or
/// `fixed` when `use_group` is false).
pub open spec fn link_of(
    e: LinkExtractorView,
    cap: Seq<Option<Seq<char>>>,
    page: Seq<char>,
    depth: usize,
    use_group: bool,
    fixed: Seq<char>,
) -> Option<ExtractedLinkView> {
    if cap.len() > 1 && cap[1] is Some {
        match url_join_result(page, cap[1]->0) {
            Some(u) => match kept_type(e, u) {
                Some(t) => Some(ExtractedLinkView {
                    url: u,
                    anchor_text: if use_group {
                        if cap.len() > 2 && cap[2] is Some { cap[2]->0 } else { Seq::empty() }
                    } else {
                        fixed
                    },
                    link_type: t,
                    depth,
                }),
                None => None,
            },
            None => None,
        }
    } else {
        None
    }
}

/// The links the matches make, in order.
pub open spec fn links_of(
    e: LinkExtractorView,
    caps: Seq<Seq<Option<Seq<char>>>>,
    page: Seq<char>,
    depth: usize,
    use_group: bool,
    fixed: Seq<char>,
) -> Seq<ExtractedLinkView>
    decreases caps.len(),
{
    if caps.len() == 0 {
        Seq::empty()
    } else {
        let prev = links_of(e, caps.drop_last(), page, depth, use_group, fixed);
        match link_of(e, caps.last(), page, depth, use_group, fixed) {
            Some(l) => prev.push(l),
            None => prev,
        }
    }
}

/// All links of a page at `depth` (the page's own depth): none at or past
/// the maximum depth; otherwise the anchors, then the images (text
/// "image"), then the `link` elements (text "stylesheet"), each at the
/// next depth.
pub open spec fn page_links(e: LinkExtractorView, html: Seq<char>, page: Seq<char>, depth: usize) -> Seq<ExtractedLinkView> {
    if depth >= e.max_depth {
        Seq::empty()
    } else {
        let d = (depth + 1) as usize;
        links_of(e, regex_capture_groups(anchor_pattern(), html), page, d, true, Seq::empty())
            + links_of(e, regex_capture_groups(image_pattern(), html), page, d, false, "image"@)
            + links_of(e, regex_capture_groups(link_tag_pattern(), html), page, d, false, "stylesheet"@)
    }
}

/// Counts links by type.
pub open spec fn stats_of(links: Seq<ExtractedLinkView>) -> LinkStats
    decreases links.len(),
{
    if links.len() == 0 {
        LinkStats { total: 0, internal: 0, external: 0, subdomain: 0, assets: 0, documents: 0 }
    } else {
        let s = stats_of(links.drop_last());
        let t = links.last().link_type;
        LinkStats {
            total: (s.total + 1) as usize,
            internal: if t == LinkType::Internal { (s.internal + 1) as usize } else { s.internal },
            external: if t == LinkType::External { (s.external + 1) as usize } else { s.external },
            subdomain: if t == LinkType::Subdomain { (s.subdomain + 1) as usize } else { s.subdomain },
            assets: if t == LinkType::Asset { (s.assets + 1) as usize } else { s.assets },
            documents: if t == LinkType::Document { (s.documents + 1) as usize } else { s.documents },
        }
    }
}

proof fn lemma_stats_bounded(links: Seq<ExtractedLinkView>)
    requires
        links.len() <= usize::MAX,
    ensures
        stats_of(links).total == links.len(),
        stats_of(links).internal <= links.len(),
        stats_of(links).external <= links.len(),
        stats_of(links).subdomain <= links.len(),
        stats_of(links).assets <= links.len(),
        stats_of(links).documents <= links.len(),
    decreases links.len(),
{
    if links.len() > 0 {
        lemma_stats_bounded(links.drop_last());
    }
}

impl LinkExtractor {
    /// An extractor for a crawl started at `base_url` (its host counts as
    /// internal, as do the allowed domains), following links up to
    /// `max_depth`.
    pub fn new(base_url: &str, allowed_domains: Vec<String>, max_depth: usize) -> (r: Self)
        ensures
            r@.base_host == (match url_parse_result(base_url@) {
                Ok(p) => p.host,
                Err(_) => None,
            }),
            r@.allowed_domains == crate::text_util::strings_view(allowed_domains@),
            r@.max_depth == max_depth,
    {
        let base_host = match parse_url(base_url) {
            Ok(p) => p.host,
            Err(_) => None,
        };
        LinkExtractor { base_host, allowed_domains, max_depth }
    }

    /// See `classify`.
    pub fn classify_link(&self, host: &str, path: &str) -> (r: LinkType)
        ensures
            r == classify(self@.base_host, self@.allowed_domains, host@, path@),
    {
        if asset_path(path) {
            return LinkType::Asset;
        }
        if document_path(path) {
            return LinkType::Document;
        }
        match &self.base_host {
            Some(b) => {
                proof {
                    assert(self@.base_host == Some(b@));
                }
                if str_eq(host, b.as_str()) {
                    proof {
                        assert(!is_asset_path(path@));
                        assert(!is_document_path(path@));
                        assert(host@ == b@);
                    }
                    return LinkType::Internal;
                }
                let dotted = concat_str(".", b.as_str());
                proof {
                    reveal_strlit(".");
                }
                if ends_with(host, dotted.as_str()) {
                    return LinkType::Subdomain;
                }
                let mut i: usize = 0;
                proof {
                    assert(dotted@ == "."@ + b@);
                }
                while i < self.allowed_domains.len()
                    invariant
                        classify(self@.base_host, self@.allowed_domains, host@, path@) == (if self@.allowed_domains.contains(host@) {
                            LinkType::Internal
                        } else {
                            LinkType::External
                        }),
                        i <= self.allowed_domains@.len(),
                        forall|j: int| 0 <= j < i ==> #[trigger] self.allowed_domains@[j]@ != host@,
                    decreases self.allowed_domains@.len() - i,
                {
                    if str_eq(self.allowed_domains[i].as_str(), host) {
                        proof {
                            assert(self@.allowed_domains[i as int] == host@);
                            assert(self@.allowed_domains.contains(host@));
                        }
                        return LinkType::Internal;
                    }
                    i = i + 1;
                }
                proof {
                    assert forall|j: int| 0 <= j < self@.allowed_domains.len() implies #[trigger] self@.allowed_domains[j] != host@ by {
                        assert(self@.allowed_domains[j] == self.allowed_domains@[j]@);
                    }
                }
                LinkType::External
            },
            None => LinkType::External,
        }
    }

    /// Keeps a link when it is worth following (see `kept_type`).
    pub fn process_link(&self, url: String, anchor_text: String, depth: usize) -> (r: Option<ExtractedLink>)
        ensures
            match kept_type(self@, url@) {
                Some(t) => r matches Some(l) && l@ == (ExtractedLinkView { url: url@, anchor_text: anchor_text@, link_type: t, depth }),
                None => r is None,
            },
    {
        if !ErrorUtils::is_valid_crawl_url(url.as_str()) {
            return None;
        }
        match parse_url(url.as_str()) {
            Ok(p) => {
                let host = match &p.host {
                    Some(h) => h.clone(),
                    None => String::new(),
                };
                let low = to_lowercase(p.path.as_str());
                let t = self.classify_link(host.as_str(), low.as_str());
                if t == LinkType::External || t == LinkType::Asset {
                    None
                } else {
                    Some(ExtractedLink { url, anchor_text, link_type: t, depth })
                }
            },
            Err(_) => None,
        }
    }

    fn links_from(
        &self,
        caps: &Vec<Vec<Option<String>>>,
        page: &str,
        depth: usize,
        use_group: bool,
        fixed: &str,
        out: &mut Vec<ExtractedLink>,
    )
        ensures
            links_view(final(out)@) == links_view(old(out)@) + links_of(self@, captures_view(caps@), page@, depth, use_group, fixed@),
    {
        let ghost cs = captures_view(caps@);
        let ghost start = links_view(out@);
        let mut i: usize = 0;
        proof {
            assert(cs.take(0) =~= Seq::<Seq<Option<Seq<char>>>>::empty());
            assert(links_view(out@) =~= start + links_of(self@, cs.take(0), page@, depth, use_group, fixed@));
        }
        while i < caps.len()
            invariant
                cs == captures_view(caps@),
                i <= caps@.len(),
                links_view(out@) == start + links_of(self@, cs.take(i as int), page@, depth, use_group, fixed@),
            decreases caps@.len() - i,
        {
            proof {
                assert(cs.take(i + 1).drop_last() =~= cs.take(i as int));
                assert(cs.take(i + 1).last() == cs[i as int]);
                assert(cs[i as int] == caps@[i as int]@.map_values(|g: Option<String>| opt_text(g)));
            }
            let cap = &caps[i];
            if cap.len() > 1 {
                match &cap[1] {
                    Some(href) => {
                        match join_url(page, href.as_str()) {
                            Some(u) => {
                                let anchor = if use_group {
                                    if cap.len() > 2 {
                                        match &cap[2] {
                                            Some(t) => t.clone(),
                                            None => String::new(),
                                        }
                                    } else {
                                        String::new()
                                    }
                                } else {
                                    fixed.to_string()
                                };
                                let ghost o0 = out@;
                                match self.process_link(u, anchor, depth) {
                                    Some(l) => {
                                        out.push(l);
                                        proof {
                                            assert(links_view(out@) =~= links_view(o0).push(out@.last()@));
                                        }
                                    },
                                    None => {},
                                }
                            },
                            None => {},
                        }
                    },
                    None => {},
                }
            }
            i = i + 1;
        }
        proof {
            assert(cs.take(caps@.len() as int) =~= cs);
        }
    }

    /// The links of a page found at `current_depth` (see `page_links`), or
    /// the error text of a link pattern that does not compile.
    pub fn extract_links(&self, html: &str, current_url: &str, current_depth: usize) -> (r: Result<Vec<ExtractedLink>, String>)
        ensures
            match r {
                Ok(v) => links_view(v@) == page_links(self@, html@, current_url@, current_depth),
                Err(e) => (regex_compile_error(anchor_pattern()) matches Some(m) && m == e@)
                    || (regex_compile_error(image_pattern()) matches Some(m) && m == e@)
                    || (regex_compile_error(link_tag_pattern()) matches Some(m) && m == e@),
            },
    {
        let mut out: Vec<ExtractedLink> = Vec::new();
        if current_depth >= self.max_depth {
            proof {
                assert(links_view(out@) =~= Seq::<ExtractedLinkView>::empty());
            }
            return Ok(out);
        }
        let d = current_depth + 1;
        let anchor = "<a[^>]+href\\s*=\\s*[\"']([^\"']+)[\"'][^>]*>([^<]*)</a>";
        let image = "<img[^>]+src\\s*=\\s*[\"']([^\"']+)[\"'][^>]*>";
        let link_tag = "<link[^>]+href\\s*=\\s*[\"']([^\"']+)[\"'][^>]*>";
        match regex_error(anchor) {
            Some(e) => return Err(e),
            None => {},
        }
        let caps = captures_all(anchor, html);
        proof {
            assert(links_view(out@) =~= Seq::<ExtractedLinkView>::empty());
        }
        self.links_from(&caps, current_url, d, true, "", &mut out);
        match regex_error(image) {
            Some(e) => return Err(e),
            None => {},
        }
        let caps = captures_all(image, html);
        self.links_from(&caps, current_url, d, false, "image", &mut out);
        match regex_error(link_tag) {
            Some(e) => return Err(e),
            None => {},
        }
        let caps = captures_all(link_tag, html);
        self.links_from(&caps, current_url, d, false, "stylesheet", &mut out);
        proof {
            reveal_strlit("");
            assert(anchor@ == anchor_pattern());
            assert(image@ == image_pattern());
            assert(link_tag@ == link_tag_pattern());
            assert(""@ =~= Seq::<char>::empty());
            assert(links_view(out@) =~= page_links(self@, html@, current_url@, current_depth));
        }
        Ok(out)
    }

    /// Counts links by type.
    pub fn get_stats(&self, links: &[ExtractedLink]) -> (r: LinkStats)
        ensures
            r == stats_of(links_view(links@)),
    {
        let ghost ls = links_view(links@);
        let mut s = LinkStats { total: 0, internal: 0, external: 0, subdomain: 0, assets: 0, documents: 0 };
        let mut i: usize = 0;
        proof {
            assert(ls.take(0) =~= Seq::<ExtractedLinkView>::empty());
        }
        while i < links.len()
            invariant
                ls == links_view(links@),
                i <= links@.len(),
                s == stats_of(ls.take(i as int)),
            decreases links@.len() - i,
        {
            proof {
                assert(ls.take(i + 1).drop_last() =~= ls.take(i as int));
                lemma_stats_bounded(ls.take(i as int));
            }
            s.total = s.total + 1;
            match links[i].link_type {
                LinkType::Internal => { s.internal = s.internal + 1; },
                LinkType::External => { s.external = s.external + 1; },
                LinkType::Subdomain => { s.subdomain = s.subdomain + 1; },
                LinkType::Asset => { s.assets = s.assets + 1; },
                LinkType::Document => { s.documents = s.documents + 1; },
            }
            i = i + 1;
        }
        proof {
            assert(ls.take(links@.len() as int) =~= ls);
        }
        s
    }
}

} // verus!
