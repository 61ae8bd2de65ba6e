//! Choosing a proxy near the site being crawled: a URL's host is matched
//! to a region (by a known domain, its parent domain, its top-level domain,
//! or a country subdomain) and a proxy is drawn from that region's pool,
//! falling back to the global pool.
use vstd::prelude::*;
use crate::assoc::{assoc_find, assoc_insert, assoc_view, keys_unique, lemma_key_index};
use crate::crawl_core::types_refactored::{Region, region_from_name};
use crate::random::random_index;
use crate::text_util::{ends_with, has_suffix, lowercase_of, str_eq, strings_view};
use crate::web_url::{parse_url, url_parse_result};

verus! {

/// The positions of the dots in a text, in order.
pub open spec fn dots_in(s: Seq<char>) -> Seq<int>
    decreases s.len(),
{
    if s.len() == 0 {
        Seq::empty()
    } else if s.last() == '.' {
        dots_in(s.drop_last()).push(s.len() - 1)
    } else {
        dots_in(s.drop_last())
    }
}

/// The last two labels of a name with three labels or more
/// (`news.yahoo.com` gives `yahoo.com`).
pub open spec fn parent_domain_of(s: Seq<char>) -> Option<Seq<char>> {
    let d = dots_in(s);
    if d.len() >= 2 { Some(s.skip(d[d.len() - 2] + 1)) } else { None }
}

/// The text before the first dot (all of it when there is none).
pub open spec fn first_label(s: Seq<char>) -> Seq<char> {
    let d = dots_in(s);
    if d.len() > 0 { s.take(d[0]) } else { s }
}

/// The region a top-level domain suggests.
pub open spec fn region_from_tld(d: Seq<char>) -> Option<Region> {
    if has_suffix(d, ".com"@) || has_suffix(d, ".org"@) || has_suffix(d, ".net"@) {
        Some(Region::NorthAmerica)
    } else if has_suffix(d, ".eu"@) || has_suffix(d, ".de"@) || has_suffix(d, ".fr"@) || has_suffix(d, ".uk"@)
        || has_suffix(d, ".co.uk"@) {
        Some(Region::Europe)
    } else if has_suffix(d, ".jp"@) || has_suffix(d, ".kr"@) || has_suffix(d, ".sg"@) || has_suffix(d, ".au"@)
        || has_suffix(d, ".com.au"@) {
        Some(Region::AsiaPacific)
    } else if has_suffix(d, ".cn"@) || has_suffix(d, ".com.cn"@) {
        Some(Region::China)
    } else {
        None
    }
}

/// The region a country subdomain suggests.
pub open spec fn region_from_label(l: Seq<char>) -> Option<Region> {
    if l == "us"@ || l == "www"@ {
        Some(Region::NorthAmerica)
    } else if l == "uk"@ || l == "de"@ || l == "fr"@ || l == "eu"@ || l == "es"@ || l == "it"@ {
        Some(Region::Europe)
    } else if l == "sg"@ || l == "jp"@ || l == "kr"@ || l == "au"@ || l == "hk"@ || l == "tw"@ {
        Some(Region::AsiaPacific)
    } else if l == "cn"@ {
        Some(Region::China)
    } else {
        None
    }
}

/// The position of a region's pool.
pub open spec fn region_index(r: Region) -> int {
    match r {
        Region::NorthAmerica => 0,
        Region::Europe => 1,
        Region::AsiaPacific => 2,
        Region::China => 3,
        Region::Global => 4,
    }
}

fn region_slot(r: Region) -> (i: usize)
    ensures
        i == region_index(r),
{
    match r {
        Region::NorthAmerica => 0,
        Region::Europe => 1,
        Region::AsiaPacific => 2,
        Region::China => 3,
        Region::Global => 4,
    }
}

/// Abstract content of a selector: the known domains' regions and each
/// region's proxy pool.
pub struct GeoProxySelectorView {
    pub domain_to_region: Map<Seq<char>, Region>,
    pub proxy_pools: Seq<Seq<Seq<char>>>,
    pub config_path: Option<Seq<char>>,
}

/// The region a host belongs to: a known domain, then its parent domain,
/// then its top-level domain, then a country subdomain, else global.
pub open spec fn region_for_host(v: GeoProxySelectorView, host: Seq<char>) -> Region {
    if v.domain_to_region.contains_key(host) {
        v.domain_to_region[host]
    } else if parent_domain_of(host) is Some && v.domain_to_region.contains_key(parent_domain_of(host)->0) {
        v.domain_to_region[parent_domain_of(host)->0]
    } else if region_from_tld(host) is Some {
        region_from_tld(host)->0
    } else if region_from_label(first_label(host)) is Some {
        region_from_label(first_label(host))->0
    } else {
        Region::Global
    }
}

/// The pool a proxy is drawn from for a region: its own when not empty,
/// else the global pool.
pub open spec fn pool_for(v: GeoProxySelectorView, r: Region) -> Seq<Seq<char>> {
    if v.proxy_pools[region_index(r)].len() > 0 {
        v.proxy_pools[region_index(r)]
    } else {
        v.proxy_pools[region_index(Region::Global)]
    }
}

/// Picks proxies by the region of the target site.
#[derive(Debug)]
pub struct GeoProxySelector {
    proxy_pools: Vec<Vec<String>>,
    domain_to_region: Vec<(String, Region)>,
    config_path: Option<String>,
}

impl View for GeoProxySelector {
    type V = GeoProxySelectorView;

    closed spec fn view(&self) -> GeoProxySelectorView {
        GeoProxySelectorView {
            domain_to_region: assoc_view(self.domain_to_region@),
            proxy_pools: self.proxy_pools@.map_values(|p: Vec<String>| strings_view(p@)),
            config_path: crate::text_util::opt_seq(self.config_path),
        }
    }
}

fn dot_count_prefix(s: &Vec<char>, n: usize) -> (r: usize)
    requires
        n <= s@.len(),
    ensures
        r == dots_in(s@.take(n as int)).len(),
    decreases n,
{
    if n == 0 {
        proof {
            assert(s@.take(0).len() == 0);
        }
        0
    } else {
        let k = dot_count_prefix(s, n - 1);
        proof {
            assert(s@.take(n as int).drop_last() =~= s@.take(n as int - 1));
            lemma_dots_shape(s@.take(n as int - 1));
        }
        if s[n - 1] == '.' { k + 1 } else { k }
    }
}

/// Dots found in a prefix stay where they are in the whole text.
proof fn lemma_dots_prefix(s: Seq<char>, n: int)
    requires
        0 <= n <= s.len(),
    ensures
        dots_in(s.take(n)).len() <= dots_in(s).len(),
        forall|i: int| 0 <= i < dots_in(s.take(n)).len() ==> #[trigger] dots_in(s.take(n))[i] == dots_in(s)[i],
        forall|i: int| 0 <= i < dots_in(s).len() ==> 0 <= #[trigger] dots_in(s)[i] < s.len() && s[dots_in(s)[i]] == '.',
        forall|i: int, j: int| 0 <= i < j < dots_in(s).len() ==> #[trigger] dots_in(s)[i] < #[trigger] dots_in(s)[j],
        forall|i: int| 0 <= i < dots_in(s).len() ==> (#[trigger] dots_in(s)[i] < n <==> i < dots_in(s.take(n)).len()),
    decreases s.len() - n,
{
    if n == s.len() {
        assert(s.take(n) =~= s);
        lemma_dots_shape(s);
    } else {
        lemma_dots_prefix(s, n + 1);
        let t = s.take(n + 1);
        assert(t.drop_last() =~= s.take(n));
        assert(t.last() == s[n]);
        lemma_dots_shape(t);
        lemma_dots_shape(s);
        let k = dots_in(s.take(n)).len() as int;
        assert(dots_in(t) == if s[n] == '.' {
            dots_in(s.take(n)).push(n)
        } else {
            dots_in(s.take(n))
        });
        assert forall|i: int| 0 <= i < k implies #[trigger] dots_in(s.take(n))[i] == dots_in(s)[i] by {
            assert(dots_in(t)[i] == dots_in(s.take(n))[i]);
        }
        assert forall|i: int| 0 <= i < dots_in(s).len() implies (#[trigger] dots_in(s)[i] < n <==> i < k) by {
            if s[n] == '.' {
                assert(dots_in(t)[k] == n);
                assert(dots_in(s)[k] == n);
                if i < k {
                    assert(dots_in(s)[i] < dots_in(s)[k]);
                }
                if i > k {
                    assert(dots_in(s)[k] < dots_in(s)[i]);
                }
            } else {
                assert(s[dots_in(s)[i]] == '.');
            }
        }
    }
}

/// Dot positions are increasing positions of dots.
proof fn lemma_dots_shape(s: Seq<char>)
    ensures
        dots_in(s).len() <= s.len(),
        forall|i: int| 0 <= i < dots_in(s).len() ==> 0 <= #[trigger] dots_in(s)[i] < s.len() && s[dots_in(s)[i]] == '.',
        forall|i: int, j: int| 0 <= i < j < dots_in(s).len() ==> #[trigger] dots_in(s)[i] < #[trigger] dots_in(s)[j],
        forall|p: int| 0 <= p < s.len() && s[p] == '.' ==> exists|i: int| 0 <= i < dots_in(s).len() && #[trigger] dots_in(s)[i] == p,
    decreases s.len(),
{
    if s.len() > 0 {
        let t = s.drop_last();
        lemma_dots_shape(t);
        assert forall|p: int| 0 <= p < s.len() && s[p] == '.' implies exists|i: int| 0 <= i < dots_in(s).len() && #[trigger] dots_in(s)[i] == p by {
            if p < s.len() - 1 {
                assert(t[p] == '.');
                let i = choose|i: int| 0 <= i < dots_in(t).len() && #[trigger] dots_in(t)[i] == p;
                assert(dots_in(s)[i] == p);
            } else {
                assert(dots_in(s)[dots_in(s).len() - 1] == p);
            }
        }
    }
}

/// The parent domain of a name: its last two labels, when it has three or
/// more.
pub fn extract_parent_domain(domain: &str) -> (r: Option<String>)
    ensures
        match r {
            Some(p) => parent_domain_of(domain@) == Some(p@),
            None => parent_domain_of(domain@) is None,
        },
{
    let chars = crate::text_util::chars_of(domain);
    let n = chars.len();
    let total = dot_count_prefix(&chars, n);
    proof {
        assert(chars@.take(n as int) =~= chars@);
        lemma_dots_shape(chars@);
    }
    if total < 2 {
        return None;
    }
    let mut i: usize = n;
    let mut seen: usize = 0;
    while seen < 2
        invariant
            i <= n,
            n == chars@.len(),
            total == dots_in(chars@).len(),
            total >= 2,
            seen <= 2,
            seen == total - dots_in(chars@.take(i as int)).len(),
            seen < 2 ==> i > 0,
            seen == 2 ==> i < n && chars@[i as int] == '.' && i == dots_in(chars@)[total - 2],
        decreases i,
    {
        i = i - 1;
        proof {
            lemma_dots_prefix(chars@, i as int);
            lemma_dots_prefix(chars@, i as int + 1);
            assert(chars@.take(i as int + 1).drop_last() =~= chars@.take(i as int));
        }
        if chars[i] == '.' {
            seen = seen + 1;
            proof {
                if seen == 2 {
                    let k: int = dots_in(chars@.take(i as int)).len() as int;
                    assert(k == total - 2);
                    assert(dots_in(chars@.take(i as int + 1)) == dots_in(chars@.take(i as int)).push(i as int));
                    assert(dots_in(chars@.take(i as int + 1))[k] == i);
                }
            }
        } else {
            proof {
                if seen < 2 && i == 0 {
                    assert(chars@.take(0).len() == 0);
                    assert(dots_in(chars@.take(0)).len() == 0);
                }
            }
        }
    }
    let mut out = String::new();
    let mut j: usize = i + 1;
    while j < n
        invariant
            i < n,
            n == chars@.len(),
            i + 1 <= j <= n,
            out@ == chars@.subrange(i as int + 1, j as int),
        decreases n - j,
    {
        crate::text_util::push_char(&mut out, chars[j]);
        proof {
            assert(chars@.subrange(i as int + 1, j as int + 1) =~= chars@.subrange(i as int + 1, j as int).push(chars@[j as int]));
        }
        j = j + 1;
    }
    proof {
        assert(chars@.skip(i as int + 1) =~= chars@.subrange(i as int + 1, n as int));
    }
    Some(out)
}

/// The text before the first dot.
pub fn first_label_of(domain: &str) -> (r: String)
    ensures
        r@ == first_label(domain@),
{
    let chars = crate::text_util::chars_of(domain);
    let n = chars.len();
    proof {
        lemma_dots_shape(chars@);
    }
    let mut out = String::new();
    let mut j: usize = 0;
    while j < n && chars[j] != '.'
        invariant
            n == chars@.len(),
            j <= n,
            out@ == chars@.take(j as int),
            forall|k: int| 0 <= k < j ==> chars@[k] != '.',
        decreases n - j,
    {
        crate::text_util::push_char(&mut out, chars[j]);
        proof {
            assert(chars@.take(j as int + 1) =~= chars@.take(j as int).push(chars@[j as int]));
        }
        j = j + 1;
    }
    proof {
        let d = dots_in(chars@);
        if j < n {
            let w = choose|w: int| 0 <= w < d.len() && #[trigger] d[w] == j as int;
            if w > 0 {
                assert(d[0] < d[w]);
                assert(chars@[d[0]] == '.');
            }
            assert(d[0] == j);
        } else {
            assert(chars@.take(n as int) =~= chars@);
            if d.len() > 0 {
                assert(chars@[d[0]] == '.');
            }
        }
    }
    out
}

/// The region a top-level domain suggests.
pub fn detect_region_from_tld(domain: &str) -> (r: Option<Region>)
    ensures
        r == region_from_tld(domain@),
{
    proof {
        reveal_strlit(".com");
        reveal_strlit(".org");
        reveal_strlit(".net");
        reveal_strlit(".eu");
        reveal_strlit(".de");
        reveal_strlit(".fr");
        reveal_strlit(".uk");
        reveal_strlit(".co.uk");
        reveal_strlit(".jp");
        reveal_strlit(".kr");
        reveal_strlit(".sg");
        reveal_strlit(".au");
        reveal_strlit(".com.au");
        reveal_strlit(".cn");
        reveal_strlit(".com.cn");
    }
    if ends_with(domain, ".com") || ends_with(domain, ".org") || ends_with(domain, ".net") {
        Some(Region::NorthAmerica)
    } else if ends_with(domain, ".eu") || ends_with(domain, ".de") || ends_with(domain, ".fr")
        || ends_with(domain, ".uk") || ends_with(domain, ".co.uk") {
        Some(Region::Europe)
    } else if ends_with(domain, ".jp") || ends_with(domain, ".kr") || ends_with(domain, ".sg")
        || ends_with(domain, ".au") || ends_with(domain, ".com.au") {
        Some(Region::AsiaPacific)
    } else if ends_with(domain, ".cn") || ends_with(domain, ".com.cn") {
        Some(Region::China)
    } else {
        None
    }
}

/// The region a country subdomain (the first label) suggests.
pub fn detect_region_from_subdomain(domain: &str) -> (r: Option<Region>)
    ensures
        r == region_from_label(first_label(domain@)),
{
    let label = first_label_of(domain);
    let l = label.as_str();
    proof {
        reveal_strlit("us");
        reveal_strlit("www");
        reveal_strlit("uk");
        reveal_strlit("de");
        reveal_strlit("fr");
        reveal_strlit("eu");
        reveal_strlit("es");
        reveal_strlit("it");
        reveal_strlit("sg");
        reveal_strlit("jp");
        reveal_strlit("kr");
        reveal_strlit("au");
        reveal_strlit("hk");
        reveal_strlit("tw");
        reveal_strlit("cn");
    }
    if str_eq(l, "us") || str_eq(l, "www") {
        Some(Region::NorthAmerica)
    } else if str_eq(l, "uk") || str_eq(l, "de") || str_eq(l, "fr") || str_eq(l, "eu") || str_eq(l, "es")
        || str_eq(l, "it") {
        Some(Region::Europe)
    } else if str_eq(l, "sg") || str_eq(l, "jp") || str_eq(l, "kr") || str_eq(l, "au") || str_eq(l, "hk")
        || str_eq(l, "tw") {
        Some(Region::AsiaPacific)
    } else if str_eq(l, "cn") {
        Some(Region::China)
    } else {
        None
    }
}

impl GeoProxySelector {
    /// Well-formedness: one pool per region, one region per domain.
    pub closed spec fn wf(&self) -> bool {
        self.proxy_pools@.len() == 5 && keys_unique(self.domain_to_region@)
    }

    /// A selector with no known domain and empty pools.
    pub fn new() -> (r: Self)
        ensures
            r.wf(),
            r@.domain_to_region == Map::<Seq<char>, Region>::empty(),
            r@.proxy_pools.len() == 5,
            forall|i: int| 0 <= i < 5 ==> #[trigger] r@.proxy_pools[i].len() == 0,
            r@.config_path is None,
    {
        let mut pools: Vec<Vec<String>> = Vec::new();
        pools.push(Vec::new());
        pools.push(Vec::new());
        pools.push(Vec::new());
        pools.push(Vec::new());
        pools.push(Vec::new());
        let r = GeoProxySelector { proxy_pools: pools, domain_to_region: Vec::new(), config_path: None };
        proof {
            assert(assoc_view(r.domain_to_region@) =~= Map::empty());
        }
        r
    }

    /// A selector reading its domain mappings from the file at
    /// `config_path`; the caller reads and parses the file and hands the
    /// parsed (region name, domains) entries to `apply_regions_config`.
    pub fn with_config(config_path: String) -> (r: Self)
        ensures
            r.wf(),
            r@.config_path == Some(config_path@),
            r@.domain_to_region == Map::<Seq<char>, Region>::empty(),
    {
        let mut s = Self::new();
        s.config_path = Some(config_path);
        s
    }

    /// The configuration file, if one was given.
    pub fn config_path(&self) -> (r: Option<&str>)
        ensures
            match r {
                Some(p) => self@.config_path == Some(p@),
                None => self@.config_path is None,
            },
    {
        match &self.config_path {
            Some(p) => Some(p.as_str()),
            None => None,
        }
    }

    /// Replaces the domain mappings with the parsed configuration: every
    /// domain listed under a recognised region name maps to that region
    /// (entries under unknown names are skipped; a domain listed twice keeps
    /// the later region).
    pub fn apply_regions_config(&mut self, proxy_regions: Vec<(String, Vec<String>)>)
        requires
            old(self).wf(),
        ensures
            final(self).wf(),
            final(self)@.proxy_pools == old(self)@.proxy_pools,
            final(self)@.config_path == old(self)@.config_path,
            forall|k: Seq<char>| #[trigger] final(self)@.domain_to_region.contains_key(k) ==> exists|i: int, j: int|
                0 <= i < proxy_regions@.len() && 0 <= j < proxy_regions@[i].1@.len()
                && proxy_regions@[i].1@[j]@ == k
                && region_from_name(lowercase_of(proxy_regions@[i].0@)) == Some(final(self)@.domain_to_region[k]),
    {
        self.domain_to_region = Vec::new();
        proof {
            assert(assoc_view(self.domain_to_region@) =~= Map::empty());
        }
        let mut i: usize = 0;
        while i < proxy_regions.len()
            invariant
                self.wf(),
                self@.proxy_pools == old(self)@.proxy_pools,
                self@.config_path == old(self)@.config_path,
                i <= proxy_regions@.len(),
                forall|k: Seq<char>| #[trigger] self@.domain_to_region.contains_key(k) ==> exists|a: int, b: int|
                    0 <= a < i && 0 <= b < proxy_regions@[a].1@.len()
                    && proxy_regions@[a].1@[b]@ == k
                    && region_from_name(lowercase_of(proxy_regions@[a].0@)) == Some(self@.domain_to_region[k]),
            decreases proxy_regions@.len() - i,
        {
            match Region::from_str(proxy_regions[i].0.as_str()) {
                Some(region) => {
                    let mut j: usize = 0;
                    while j < proxy_regions[i].1.len()
                        invariant
                            self.wf(),
                            self@.proxy_pools == old(self)@.proxy_pools,
                            self@.config_path == old(self)@.config_path,
                            i < proxy_regions@.len(),
                            j <= proxy_regions@[i as int].1@.len(),
                            region_from_name(lowercase_of(proxy_regions@[i as int].0@)) == Some(region),
                            forall|k: Seq<char>| #[trigger] self@.domain_to_region.contains_key(k) ==> exists|a: int, b: int|
                                0 <= a <= i && 0 <= b < proxy_regions@[a].1@.len()
                                && (a < i || b < j)
                                && proxy_regions@[a].1@[b]@ == k
                                && region_from_name(lowercase_of(proxy_regions@[a].0@)) == Some(self@.domain_to_region[k]),
                        decreases proxy_regions@[i as int].1@.len() - j,
                    {
                        let domain = proxy_regions[i].1[j].clone();
                        let ghost before = self@.domain_to_region;
                        assoc_insert(&mut self.domain_to_region, domain, region);
                        proof {
                            assert forall|k: Seq<char>| #[trigger] self@.domain_to_region.contains_key(k) implies exists|a: int, b: int|
                                0 <= a <= i && 0 <= b < proxy_regions@[a].1@.len()
                                && (a < i || b < j + 1)
                                && proxy_regions@[a].1@[b]@ == k
                                && region_from_name(lowercase_of(proxy_regions@[a].0@)) == Some(self@.domain_to_region[k]) by {
                                if k == domain@ {
                                    assert(proxy_regions@[i as int].1@[j as int]@ == k);
                                } else {
                                    assert(before.contains_key(k));
                                }
                            }
                        }
                        j = j + 1;
                    }
                },
                None => {},
            }
            i = i + 1;
        }
    }

    /// A few well-known domains and their regions, for when no
    /// configuration file is used.
    pub fn init_default_domain_mappings(&mut self)
        requires
            old(self).wf(),
        ensures
            final(self).wf(),
            final(self)@.proxy_pools == old(self)@.proxy_pools,
            final(self)@.config_path == old(self)@.config_path,
            final(self)@.domain_to_region == old(self)@.domain_to_region.insert("yahoo.com"@, Region::NorthAmerica).insert(
                "google.com"@,
                Region::NorthAmerica,
            ).insert("bbc.co.uk"@, Region::Europe).insert("sg.yahoo.com"@, Region::AsiaPacific).insert(
                "baidu.com"@,
                Region::China,
            ),
    {
        assoc_insert(&mut self.domain_to_region, "yahoo.com".to_string(), Region::NorthAmerica);
        assoc_insert(&mut self.domain_to_region, "google.com".to_string(), Region::NorthAmerica);
        assoc_insert(&mut self.domain_to_region, "bbc.co.uk".to_string(), Region::Europe);
        assoc_insert(&mut self.domain_to_region, "sg.yahoo.com".to_string(), Region::AsiaPacific);
        assoc_insert(&mut self.domain_to_region, "baidu.com".to_string(), Region::China);
    }

    /// Adds a proxy to a region's pool.
    pub fn add_proxy_to_region(&mut self, region: Region, proxy: String)
        requires
            old(self).wf(),
        ensures
            final(self).wf(),
            final(self)@.domain_to_region == old(self)@.domain_to_region,
            final(self)@.config_path == old(self)@.config_path,
            final(self)@.proxy_pools == old(self)@.proxy_pools.update(
                region_index(region),
                old(self)@.proxy_pools[region_index(region)].push(proxy@),
            ),
    {
        let slot = region_slot(region);
        let ghost pools0 = self.proxy_pools@;
        let mut pool = self.proxy_pools.remove(slot);
        let ghost p0 = pool@;
        pool.push(proxy);
        self.proxy_pools.insert(slot, pool);
        proof {
            assert(self.proxy_pools@ =~= pools0.update(slot as int, pool));
            assert(strings_view(pool@) =~= strings_view(p0).push(proxy@));
            assert(self@.proxy_pools =~= old(self)@.proxy_pools.update(
                region_index(region),
                old(self)@.proxy_pools[region_index(region)].push(proxy@),
            ));
        }
    }

    /// Sets the pools of the regions named in the configuration (entries
    /// under unknown names are skipped; a region named twice keeps the later
    /// list).
    pub fn load_proxy_configuration(&mut self, config: &ProxyConfig)
        requires
            old(self).wf(),
        ensures
            final(self).wf(),
            final(self)@.domain_to_region == old(self)@.domain_to_region,
            final(self)@.config_path == old(self)@.config_path,
            forall|r: Region| #[trigger] final(self)@.proxy_pools[region_index(r)] == configured_pool(
                config.regional_proxies@,
                r,
                old(self)@.proxy_pools[region_index(r)],
            ),
    {
        let ghost e = config.regional_proxies@;
        let mut i: usize = 0;
        proof {
            assert(e.take(0) =~= Seq::<(String, Vec<String>)>::empty());
        }
        while i < config.regional_proxies.len()
            invariant
                self.wf(),
                self@.domain_to_region == old(self)@.domain_to_region,
                self@.config_path == old(self)@.config_path,
                e == config.regional_proxies@,
                i <= e.len(),
                forall|r: Region| #[trigger] self@.proxy_pools[region_index(r)] == configured_pool(
                    e.take(i as int),
                    r,
                    old(self)@.proxy_pools[region_index(r)],
                ),
            decreases e.len() - i,
        {
            proof {
                assert(e.take(i as int + 1).drop_last() =~= e.take(i as int));
                assert(e.take(i as int + 1).last() == e[i as int]);
            }
            match Region::from_str(config.regional_proxies[i].0.as_str()) {
                Some(region) => {
                    let slot = region_slot(region);
                    let list = crate::text_util::clone_strings(&config.regional_proxies[i].1);
                    let ghost before = self@.proxy_pools;
                    self.proxy_pools.set(slot, list);
                    proof {
                        assert forall|r: Region| #[trigger] self@.proxy_pools[region_index(r)] == configured_pool(
                            e.take(i as int + 1),
                            r,
                            old(self)@.proxy_pools[region_index(r)],
                        ) by {
                            if r != region {
                                assert(region_index(r) != region_index(region));
                                assert(self@.proxy_pools[region_index(r)] == before[region_index(r)]);
                            }
                        }
                    }
                },
                None => {
                    proof {
                        assert forall|r: Region| #[trigger] self@.proxy_pools[region_index(r)] == configured_pool(
                            e.take(i as int + 1),
                            r,
                            old(self)@.proxy_pools[region_index(r)],
                        ) by {}
                    }
                },
            }
            i = i + 1;
        }
        proof {
            assert(e.take(e.len() as int) =~= e);
        }
    }

    /// The region a host maps to.
    pub fn region_for_host(&self, host: &str) -> (r: Region)
        requires
            self.wf(),
        ensures
            r == region_for_host(self@, host@),
    {
        match assoc_find(&self.domain_to_region, host) {
            Some(i) => {
                proof {
                    lemma_key_index(self.domain_to_region@, i as int);
                }
                return self.domain_to_region[i].1;
            },
            None => {},
        }
        match extract_parent_domain(host) {
            Some(parent) => {
                match assoc_find(&self.domain_to_region, parent.as_str()) {
                    Some(i) => {
                        proof {
                            lemma_key_index(self.domain_to_region@, i as int);
                        }
                        return self.domain_to_region[i].1;
                    },
                    None => {},
                }
            },
            None => {},
        }
        match detect_region_from_tld(host) {
            Some(r) => {
                return r;
            },
            None => {},
        }
        match detect_region_from_subdomain(host) {
            Some(r) => r,
            None => Region::Global,
        }
    }

    /// A random proxy from the region's pool, or from the global pool when
    /// the region's is empty; `None` when both are empty.
    pub fn get_random_proxy_for_region(&self, region: Region) -> (r: Option<String>)
        requires
            self.wf(),
        ensures
            pool_for(self@, region).len() == 0 ==> r is None,
            pool_for(self@, region).len() > 0 ==> (r matches Some(p) && pool_for(self@, region).contains(p@)),
    {
        let slot = region_slot(region);
        let pool = if self.proxy_pools[slot].len() > 0 {
            &self.proxy_pools[slot]
        } else {
            &self.proxy_pools[4]
        };
        if pool.len() == 0 {
            return None;
        }
        let i = random_index(pool.len());
        let p = pool[i].clone();
        proof {
            assert(pool_for(self@, region)[i as int] == p@);
        }
        Some(p)
    }

    /// A proxy for crawling a URL: from the pool of the region of its host;
    /// `None` for a URL that does not parse or has no host.
    pub fn select_proxy_for_url(&self, url: &str) -> (r: Option<String>)
        requires
            self.wf(),
        ensures
            match url_parse_result(url@) {
                Ok(p) => match p.host {
                    Some(h) => {
                        let pool = pool_for(self@, region_for_host(self@, h));
                        &&& pool.len() == 0 ==> r is None
                        &&& pool.len() > 0 ==> (r matches Some(x) && pool.contains(x@))
                    },
                    None => r is None,
                },
                Err(_) => r is None,
            },
    {
        match parse_url(url) {
            Ok(p) => match p.host {
                Some(h) => {
                    let region = self.region_for_host(h.as_str());
                    self.get_random_proxy_for_region(region)
                },
                None => None,
            },
            Err(_) => None,
        }
    }
}

/// A region's pool after the configuration entries are applied in order to
/// `current`: the list of the last entry that names the region, or
/// `current` when none does.
pub open spec fn configured_pool(
    entries: Seq<(String, Vec<String>)>,
    r: Region,
    current: Seq<Seq<char>>,
) -> Seq<Seq<char>>
    decreases entries.len(),
{
    if entries.len() == 0 {
        current
    } else if region_from_name(lowercase_of(entries.last().0@)) == Some(r) {
        strings_view(entries.last().1@)
    } else {
        configured_pool(entries.drop_last(), r, current)
    }
}

/// Proxies by region name, as configured.
#[derive(Debug)]
pub struct ProxyConfig {
    pub regional_proxies: Vec<(String, Vec<String>)>,
    pub auto_detect_region: bool,
    pub fallback_to_global: bool,
}

/// The domain lists of a regions configuration file, by region name.
#[derive(Debug)]
pub struct ProxyRegionsConfig {
    pub proxy_regions: Vec<(String, Vec<String>)>,
}

} // verus!
