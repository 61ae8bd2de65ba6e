//! Extensive crawling configuration: how deep and how wide discovered links
//! are followed, which links are kept, how they are prioritized, and the
//! validation of these settings.
use vstd::prelude::*;
use crate::crawl_core::error::CrawlError;
use crate::patterns::{first_bad, first_invalid_pattern};
use crate::text_util::{concat_str, has_suffix, str_eq, strings_view};
use crate::web_url::{opt_text, url_without_fragment, url_without_fragment_result, url_without_query, url_without_query_result};

verus! {

/// How deep links are followed.
#[derive(Clone, Copy, Debug, PartialEq, Eq, Structural)]
pub enum CrawlDepth {
    Unlimited,
    Limited(usize),
    Exact(usize),
}

impl Default for CrawlDepth {
    fn default() -> (r: Self)
        ensures
            r == CrawlDepth::Limited(3),
    {
        CrawlDepth::Limited(3)
    }
}

/// Which domains links may lead to.
#[derive(Debug)]
pub enum DomainScope {
    SameDomain,
    Subdomains,
    AllowList(Vec<String>),
    BlockList(Vec<String>),
    Unrestricted,
}

impl Default for DomainScope {
    fn default() -> (r: Self)
        ensures
            r is SameDomain,
    {
        DomainScope::SameDomain
    }
}

/// Which links are kept.
#[derive(Debug)]
pub struct LinkFilter {
    pub include_extensions: Option<Vec<String>>,
    pub exclude_extensions: Option<Vec<String>>,
    pub include_patterns: Option<Vec<String>>,
    pub exclude_patterns: Option<Vec<String>>,
    pub min_url_length: Option<usize>,
    pub max_url_length: Option<usize>,
    pub exclude_query_params: bool,
    pub exclude_fragments: bool,
}

/// The file extensions excluded by default: documents, archives, images,
/// audio, video and installers.
pub open spec fn default_excluded_extensions() -> Seq<Seq<char>> {
    seq![
        "pdf"@, "doc"@, "docx"@, "xls"@, "xlsx"@, "ppt"@, "pptx"@, "zip"@, "rar"@, "tar"@, "gz"@,
        "7z"@, "jpg"@, "jpeg"@, "png"@, "gif"@, "bmp"@, "svg"@, "webp"@, "mp3"@, "mp4"@, "avi"@,
        "mov"@, "wmv"@, "flv"@, "exe"@, "msi"@, "dmg"@, "pkg"@,
    ]
}

impl Default for LinkFilter {
    /// Binary and media files excluded, URLs of 10 to 2048 characters,
    /// fragments dropped, queries kept.
    fn default() -> (r: Self)
        ensures
            r.include_extensions is None,
            r.exclude_extensions matches Some(v) && strings_view(v@) == default_excluded_extensions(),
            r.include_patterns is None,
            r.exclude_patterns is None,
            r.min_url_length == Some(10usize),
            r.max_url_length == Some(2048usize),
            !r.exclude_query_params,
            r.exclude_fragments,
    {
        let names: [&str; 29] = [
            "pdf", "doc", "docx", "xls", "xlsx", "ppt", "pptx", "zip", "rar", "tar", "gz", "7z", "jpg",
            "jpeg", "png", "gif", "bmp", "svg", "webp", "mp3", "mp4", "avi", "mov", "wmv", "flv", "exe",
            "msi", "dmg", "pkg",
        ];
        let mut v: Vec<String> = Vec::new();
        let mut i: usize = 0;
        while i < 29
            invariant
                i <= 29,
                v@.len() == i,
                forall|j: int| 0 <= j < i ==> #[trigger] v@[j]@ == names@[j]@,
            decreases 29 - i,
        {
            v.push(names[i].to_string());
            i = i + 1;
        }
        proof {
            reveal_strlit("pdf");
            reveal_strlit("doc");
            reveal_strlit("docx");
            reveal_strlit("xls");
            reveal_strlit("xlsx");
            reveal_strlit("ppt");
            reveal_strlit("pptx");
            reveal_strlit("zip");
            reveal_strlit("rar");
            reveal_strlit("tar");
            reveal_strlit("gz");
            reveal_strlit("7z");
            reveal_strlit("jpg");
            reveal_strlit("jpeg");
            reveal_strlit("png");
            reveal_strlit("gif");
            reveal_strlit("bmp");
            reveal_strlit("svg");
            reveal_strlit("webp");
            reveal_strlit("mp3");
            reveal_strlit("mp4");
            reveal_strlit("avi");
            reveal_strlit("mov");
            reveal_strlit("wmv");
            reveal_strlit("flv");
            reveal_strlit("exe");
            reveal_strlit("msi");
            reveal_strlit("dmg");
            reveal_strlit("pkg");
            assert(strings_view(v@) =~= default_excluded_extensions());
        }
        LinkFilter {
            include_extensions: None,
            exclude_extensions: Some(v),
            include_patterns: None,
            exclude_patterns: None,
            min_url_length: Some(10),
            max_url_length: Some(2048),
            exclude_query_params: false,
            exclude_fragments: true,
        }
    }
}

/// Priority changes by link category.
#[derive(Clone, Copy, Debug, PartialEq, Eq, Structural)]
pub struct CategoryPriorityAdjustments {
    pub internal_boost: u8,
    pub external_boost: u8,
    pub document_boost: u8,
    pub resource_penalty: u8,
    pub media_penalty: u8,
    pub other_boost: u8,
}

/// Priority changes by link depth.
#[derive(Clone, Copy, Debug, PartialEq, Eq, Structural)]
pub struct DepthPriorityAdjustments {
    pub root_boost: u8,
    pub shallow_boost: u8,
    pub deep_penalty: u8,
}

/// How discovered links are scored.
#[derive(Clone, Copy, Debug, PartialEq, Eq, Structural)]
pub struct PriorityConfig {
    pub base_priority: u8,
    pub category_adjustments: CategoryPriorityAdjustments,
    pub anchor_text_boost: u8,
    pub depth_adjustments: DepthPriorityAdjustments,
    pub pattern_boost: u8,
    pub query_penalty: u8,
    pub fragment_penalty: u8,
}

/// The default scoring: base 50; internal +20, external +10, documents +15,
/// resources -30, media -20, others +5; anchor text +10; root +15, shallow
/// +10, deep -10; priority patterns +30; query -5, fragment -3.
pub open spec fn default_priority_config() -> PriorityConfig {
    PriorityConfig {
        base_priority: 50,
        category_adjustments: CategoryPriorityAdjustments {
            internal_boost: 20,
            external_boost: 10,
            document_boost: 15,
            resource_penalty: 30,
            media_penalty: 20,
            other_boost: 5,
        },
        anchor_text_boost: 10,
        depth_adjustments: DepthPriorityAdjustments { root_boost: 15, shallow_boost: 10, deep_penalty: 10 },
        pattern_boost: 30,
        query_penalty: 5,
        fragment_penalty: 3,
    }
}

impl Default for PriorityConfig {
    fn default() -> (r: Self)
        ensures
            r == default_priority_config(),
    {
        PriorityConfig {
            base_priority: 50,
            category_adjustments: CategoryPriorityAdjustments {
                internal_boost: 20,
                external_boost: 10,
                document_boost: 15,
                resource_penalty: 30,
                media_penalty: 20,
                other_boost: 5,
            },
            anchor_text_boost: 10,
            depth_adjustments: DepthPriorityAdjustments { root_boost: 15, shallow_boost: 10, deep_penalty: 10 },
            pattern_boost: 30,
            query_penalty: 5,
            fragment_penalty: 3,
        }
    }
}

/// Where scores split into low, normal and high priority.
#[derive(Clone, Copy, Debug, PartialEq, Eq, Structural)]
pub struct PriorityThresholds {
    pub low_threshold: u8,
    pub normal_threshold: u8,
    pub high_threshold: u8,
}

impl Default for PriorityThresholds {
    fn default() -> (r: Self)
        ensures
            r == (PriorityThresholds { low_threshold: 50, normal_threshold: 100, high_threshold: 150 }),
    {
        PriorityThresholds { low_threshold: 50, normal_threshold: 100, high_threshold: 150 }
    }
}

/// How links found on crawled pages are followed.
#[derive(Debug)]
pub struct ExtensiveConfig {
    pub enabled: bool,
    pub max_depth: CrawlDepth,
    pub domain_scope: DomainScope,
    pub link_filter: LinkFilter,
    pub priority_config: PriorityConfig,
    pub priority_thresholds: PriorityThresholds,
    pub max_queue_size: Option<usize>,
    pub max_links_per_page: Option<usize>,
    pub queue_delay_ms: Option<u64>,
    pub priority_patterns: Option<Vec<String>>,
    pub respect_robots: bool,
}

/// The default settings apart from the switch, depth and scope.
pub open spec fn has_default_limits(c: ExtensiveConfig) -> bool {
    &&& c.priority_config == default_priority_config()
    &&& c.priority_thresholds == (PriorityThresholds { low_threshold: 50, normal_threshold: 100, high_threshold: 150 })
    &&& c.max_queue_size == Some(10000usize)
    &&& c.max_links_per_page == Some(100usize)
    &&& c.queue_delay_ms == Some(100u64)
    &&& c.priority_patterns is None
    &&& c.respect_robots
    &&& c.link_filter.min_url_length == Some(10usize)
    &&& c.link_filter.max_url_length == Some(2048usize)
    &&& c.link_filter.exclude_fragments
    &&& !c.link_filter.exclude_query_params
}

/// The first bad pattern of an optional list.
pub open spec fn first_bad_opt(ps: Option<Vec<String>>) -> Option<(Seq<char>, Seq<char>)> {
    match ps {
        Some(v) => first_bad(v@),
        None => None,
    }
}

/// The message `validate` rejects settings with, checked in order: an
/// empty queue, no links per page, inverted URL lengths, include, exclude
/// and priority patterns that do not compile. `None` when acceptable (a
/// disabled configuration always is).
pub open spec fn extensive_config_error(c: ExtensiveConfig) -> Option<Seq<char>> {
    if !c.enabled {
        None
    } else if c.max_queue_size == Some(0usize) {
        Some("Maximum queue size must be greater than 0"@)
    } else if c.max_links_per_page == Some(0usize) {
        Some("Maximum links per page must be greater than 0"@)
    } else if c.link_filter.min_url_length is Some && c.link_filter.max_url_length is Some
        && c.link_filter.min_url_length->0 > c.link_filter.max_url_length->0 {
        Some("Minimum URL length cannot be greater than maximum URL length"@)
    } else if first_bad_opt(c.link_filter.include_patterns) is Some {
        let (p, e) = first_bad_opt(c.link_filter.include_patterns)->0;
        Some("Invalid include pattern '"@ + p + "': "@ + e)
    } else if first_bad_opt(c.link_filter.exclude_patterns) is Some {
        let (p, e) = first_bad_opt(c.link_filter.exclude_patterns)->0;
        Some("Invalid exclude pattern '"@ + p + "': "@ + e)
    } else if first_bad_opt(c.priority_patterns) is Some {
        let (p, e) = first_bad_opt(c.priority_patterns)->0;
        Some("Invalid priority pattern '"@ + p + "': "@ + e)
    } else {
        None
    }
}

pub(crate) fn find_bad(ps: &Option<Vec<String>>) -> (r: Option<(String, String)>)
    ensures
        match r {
            Some((p, e)) => first_bad_opt(*ps) == Some((p@, e@)),
            None => first_bad_opt(*ps) is None,
        },
{
    match ps {
        None => None,
        Some(v) => first_invalid_pattern(v),
    }
}

/// Whether `d` is among the listed domains.
pub open spec fn listed(v: Seq<String>, d: Seq<char>) -> bool {
    exists|i: int| 0 <= i < v.len() && #[trigger] v[i]@ == d
}

pub(crate) fn is_listed(v: &Vec<String>, d: &str) -> (r: bool)
    ensures
        r == listed(v@, d@),
{
    let mut i: usize = 0;
    while i < v.len()
        invariant
            i <= v@.len(),
            forall|j: int| 0 <= j < i ==> #[trigger] v@[j]@ != d@,
        decreases v@.len() - i,
    {
        if str_eq(v[i].as_str(), d) {
            return true;
        }
        i = i + 1;
    }
    false
}

/// Whether a link to a URL with domain `url_domain` may be followed from a
/// page with domain `base_domain` (a domain is `None` for an IP host).
pub open spec fn domain_allowed(scope: DomainScope, url_domain: Option<Seq<char>>, base_domain: Option<Seq<char>>) -> bool {
    match scope {
        DomainScope::SameDomain => url_domain == base_domain,
        DomainScope::Subdomains => url_domain is Some && base_domain is Some && (url_domain->0 == base_domain->0
            || has_suffix(url_domain->0, "."@ + base_domain->0)),
        DomainScope::AllowList(v) => url_domain is Some && listed(v@, url_domain->0),
        DomainScope::BlockList(v) => !(url_domain is Some && listed(v@, url_domain->0)),
        DomainScope::Unrestricted => true,
    }
}

/// The URL as queued: without its fragment, and without its query, when
/// the filter drops them; `None` when the text is not a URL.
pub open spec fn normalized_of(c: ExtensiveConfig, url: Seq<char>) -> Option<Seq<char>> {
    let a = if c.link_filter.exclude_fragments { url_without_fragment_result(url) } else { Some(url) };
    match a {
        Some(u) => if c.link_filter.exclude_query_params { url_without_query_result(u) } else { Some(u) },
        None => None,
    }
}

pub open spec fn opt_str_view(o: Option<&str>) -> Option<Seq<char>> {
    match o {
        Some(s) => Some(s@),
        None => None,
    }
}

impl ExtensiveConfig {
    /// Extensive crawling on with the given depth and scope, the rest at
    /// defaults.
    pub fn new(max_depth: CrawlDepth, domain_scope: DomainScope) -> (r: Self)
        ensures
            r.enabled,
            r.max_depth == max_depth,
            r.domain_scope == domain_scope,
            has_default_limits(r),
    {
        let mut c = Self::default();
        c.enabled = true;
        c.max_depth = max_depth;
        c.domain_scope = domain_scope;
        c
    }

    pub fn same_domain(max_depth: usize) -> (r: Self)
        ensures
            r.enabled,
            r.max_depth == CrawlDepth::Limited(max_depth),
            r.domain_scope is SameDomain,
            has_default_limits(r),
    {
        Self::new(CrawlDepth::Limited(max_depth), DomainScope::SameDomain)
    }

    pub fn with_subdomains(max_depth: usize) -> (r: Self)
        ensures
            r.enabled,
            r.max_depth == CrawlDepth::Limited(max_depth),
            r.domain_scope is Subdomains,
            has_default_limits(r),
    {
        Self::new(CrawlDepth::Limited(max_depth), DomainScope::Subdomains)
    }

    pub fn unrestricted(max_depth: usize) -> (r: Self)
        ensures
            r.enabled,
            r.max_depth == CrawlDepth::Limited(max_depth),
            r.domain_scope is Unrestricted,
            has_default_limits(r),
    {
        Self::new(CrawlDepth::Limited(max_depth), DomainScope::Unrestricted)
    }

    /// Accepts consistent settings and rejects others with the first
    /// problem found.
    pub fn validate(&self) -> (r: Result<(), CrawlError>)
        ensures
            match extensive_config_error(*self) {
                None => r is Ok,
                Some(m) => r matches Err(CrawlError::ExtensiveConfigError(s)) && s@ == m,
            },
    {
        if !self.enabled {
            return Ok(());
        }
        proof {
            reveal_strlit("Maximum queue size must be greater than 0");
            reveal_strlit("Maximum links per page must be greater than 0");
            reveal_strlit("Minimum URL length cannot be greater than maximum URL length");
            reveal_strlit("Invalid include pattern '");
            reveal_strlit("Invalid exclude pattern '");
            reveal_strlit("Invalid priority pattern '");
            reveal_strlit("': ");
        }
        if self.max_queue_size == Some(0usize) {
            return Err(CrawlError::ExtensiveConfigError("Maximum queue size must be greater than 0".to_string()));
        }
        if self.max_links_per_page == Some(0usize) {
            return Err(CrawlError::ExtensiveConfigError(
                "Maximum links per page must be greater than 0".to_string(),
            ));
        }
        match (self.link_filter.min_url_length, self.link_filter.max_url_length) {
            (Some(a), Some(b)) => {
                if a > b {
                    return Err(CrawlError::ExtensiveConfigError(
                        "Minimum URL length cannot be greater than maximum URL length".to_string(),
                    ));
                }
            },
            _ => {},
        }
        match find_bad(&self.link_filter.include_patterns) {
            Some((p, e)) => {
                let mut m = concat_str("Invalid include pattern '", p.as_str());
                m.append("': ");
                m.append(e.as_str());
                return Err(CrawlError::ExtensiveConfigError(m));
            },
            None => {},
        }
        match find_bad(&self.link_filter.exclude_patterns) {
            Some((p, e)) => {
                let mut m = concat_str("Invalid exclude pattern '", p.as_str());
                m.append("': ");
                m.append(e.as_str());
                return Err(CrawlError::ExtensiveConfigError(m));
            },
            None => {},
        }
        match find_bad(&self.priority_patterns) {
            Some((p, e)) => {
                let mut m = concat_str("Invalid priority pattern '", p.as_str());
                m.append("': ");
                m.append(e.as_str());
                return Err(CrawlError::ExtensiveConfigError(m));
            },
            None => {},
        }
        Ok(())
    }

    pub fn should_crawl_extensively(&self) -> (r: bool)
        ensures
            r == self.enabled,
    {
        self.enabled
    }

    /// Whether a link may be followed, given the domains of the link's URL
    /// and of the page it was found on.
    pub fn is_domain_allowed(&self, url_domain: Option<&str>, base_domain: Option<&str>) -> (r: bool)
        ensures
            r == domain_allowed(self.domain_scope, opt_str_view(url_domain), opt_str_view(base_domain)),
    {
        match &self.domain_scope {
            DomainScope::SameDomain => match (url_domain, base_domain) {
                (Some(a), Some(b)) => str_eq(a, b),
                (None, None) => true,
                _ => false,
            },
            DomainScope::Subdomains => match (url_domain, base_domain) {
                (Some(a), Some(b)) => {
                    let dotted = concat_str(".", b);
                    proof {
                        reveal_strlit(".");
                    }
                    str_eq(a, b) || crate::text_util::ends_with(a, dotted.as_str())
                },
                _ => false,
            },
            DomainScope::AllowList(v) => match url_domain {
                Some(d) => is_listed(v, d),
                None => false,
            },
            DomainScope::BlockList(v) => match url_domain {
                Some(d) => !is_listed(v, d),
                None => true,
            },
            DomainScope::Unrestricted => true,
        }
    }

    /// Applies the fragment and query filters to a URL.
    pub fn normalize_url(&self, url: &str) -> (r: Option<String>)
        ensures
            opt_text(r) == normalized_of(*self, url@),
    {
        let a = if self.link_filter.exclude_fragments {
            url_without_fragment(url)
        } else {
            Some(url.to_string())
        };
        match a {
            Some(u) => if self.link_filter.exclude_query_params {
                url_without_query(u.as_str())
            } else {
                Some(u)
            },
            None => None,
        }
    }

    /// Whether links found at `current_depth` may be followed.
    pub fn is_depth_allowed(&self, current_depth: usize) -> (r: bool)
        ensures
            r == match self.max_depth {
                CrawlDepth::Unlimited => true,
                CrawlDepth::Limited(max) => current_depth < max,
                CrawlDepth::Exact(exact) => current_depth == exact,
            },
    {
        match self.max_depth {
            CrawlDepth::Unlimited => true,
            CrawlDepth::Limited(max) => current_depth < max,
            CrawlDepth::Exact(exact) => current_depth == exact,
        }
    }
}

impl Default for ExtensiveConfig {
    fn default() -> (r: Self)
        ensures
            !r.enabled,
            r.max_depth == CrawlDepth::Limited(3),
            r.domain_scope is SameDomain,
            has_default_limits(r),
    {
        ExtensiveConfig {
            enabled: false,
            max_depth: CrawlDepth::default(),
            domain_scope: DomainScope::default(),
            link_filter: LinkFilter::default(),
            priority_config: PriorityConfig::default(),
            priority_thresholds: PriorityThresholds::default(),
            max_queue_size: Some(10000),
            max_links_per_page: Some(100),
            queue_delay_ms: Some(100),
            priority_patterns: None,
            respect_robots: true,
        }
    }
}

/// A limited depth admits exactly the depths below it: depth limits are
/// monotone, so a depth allowed is allowed for every larger limit.
pub proof fn lemma_depth_limit_monotone(d: usize, m1: usize, m2: usize)
    requires
        m1 <= m2,
        d < m1,
    ensures
        d < m2,
{
}

} // verus!
