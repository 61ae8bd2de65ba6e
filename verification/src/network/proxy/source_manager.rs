//! Proxy sources: the free lists and paid services proxies come from, how
//! their countries map to regions, the addresses of geo-targeted endpoints,
//! and the reading of `host:port` proxy lists.
use vstd::prelude::*;
use crate::crawl_core::types_refactored::Region;
use crate::text_util::{concat_str, is_ws, split_char, split_seq, str_eq, strings_view, to_uppercase, trim_seq, trim_str, uppercase_of};

verus! {

/// The protocol of a listed proxy.
#[derive(Clone, Copy, Debug, PartialEq, Eq, Structural)]
pub enum ProxyProtocol {
    Http,
    Https,
    Socks5,
}

/// What went wrong while fetching from a source.
#[derive(Debug)]
pub enum ProxyError {
    NetworkError(String),
    ParseError(String),
    RateLimited,
    Unauthorized,
}

/// How proxies are rotated.
#[derive(Clone, Copy, Debug, PartialEq, Eq, Structural)]
pub enum RotationStrategy {
    RoundRobin,
    Random,
    HealthBased,
    GeographicRandom,
    LoadBalanced,
}

/// The free `proxy-list.download` source: its name, daily request budget
/// and list address.
#[derive(Debug)]
pub struct FreeProxyListSource {
    timeout_secs: u64,
}

impl FreeProxyListSource {
    /// The source, with a 10 s request timeout.
    pub fn new() -> (r: Self)
        ensures
            r.timeout_secs() == 10,
    {
        FreeProxyListSource { timeout_secs: 10 }
    }

    pub closed spec fn timeout_secs(&self) -> u64 {
        self.timeout_secs
    }

    /// The request timeout, in seconds.
    pub fn timeout(&self) -> (r: u64)
        ensures
            r == self.timeout_secs(),
    {
        self.timeout_secs
    }

    pub fn source_name(&self) -> (r: &'static str)
        ensures
            r@ == "FreeProxyList"@,
    {
        proof {
            reveal_strlit("FreeProxyList");
        }
        "FreeProxyList"
    }

    pub fn is_paid(&self) -> (r: bool)
        ensures
            !r,
    {
        false
    }

    pub fn max_requests_per_day(&self) -> (r: Option<u32>)
        ensures
            r == Some(1000u32),
    {
        Some(1000)
    }

    /// The list fetched from.
    pub fn list_url(&self) -> (r: &'static str)
        ensures
            r@ == "https://www.proxy-list.download/api/v1/get?type=http"@,
    {
        proof {
            reveal_strlit("https://www.proxy-list.download/api/v1/get?type=http");
        }
        "https://www.proxy-list.download/api/v1/get?type=http"
    }
}

/// The BrightData residential proxy service.
#[derive(Debug)]
pub struct BrightDataSource {
    authorization: String,
    endpoint: String,
}

impl BrightDataSource {
    /// The source for an API key and endpoint: requests carry the header
    /// `Authorization: Bearer <key>`.
    pub fn new(api_key: String, endpoint: String) -> (r: Self)
        ensures
            r.authorization()@ == "Bearer "@ + api_key@,
            r.endpoint()@ == endpoint@,
    {
        proof {
            reveal_strlit("Bearer ");
        }
        BrightDataSource { authorization: concat_str("Bearer ", api_key.as_str()), endpoint }
    }

    pub closed spec fn authorization(&self) -> String {
        self.authorization
    }

    pub closed spec fn endpoint(&self) -> String {
        self.endpoint
    }

    /// The value of the `Authorization` header.
    pub fn authorization_header(&self) -> (r: &str)
        ensures
            r@ == self.authorization()@,
    {
        self.authorization.as_str()
    }

    /// Where the proxy list is requested: `<endpoint>/proxies`.
    pub fn proxies_url(&self) -> (r: String)
        ensures
            r@ == self.endpoint()@ + "/proxies"@,
    {
        proof {
            reveal_strlit("/proxies");
        }
        concat_str(self.endpoint.as_str(), "/proxies")
    }

    pub fn source_name(&self) -> (r: &'static str)
        ensures
            r@ == "BrightData"@,
    {
        proof {
            reveal_strlit("BrightData");
        }
        "BrightData"
    }

    pub fn is_paid(&self) -> (r: bool)
        ensures
            r,
    {
        true
    }

    pub fn max_requests_per_day(&self) -> (r: Option<u32>)
        ensures
            r is None,
    {
        None
    }
}

/// Settings of the BrightData service.
#[derive(Debug)]
pub struct BrightDataConfig {
    pub api_key: String,
    pub endpoint: String,
    pub zones: Vec<String>,
}

/// Settings of the SmartProxy service.
#[derive(Debug)]
pub struct SmartProxyConfig {
    pub username: String,
    pub password: String,
    pub countries: Vec<String>,
}

/// The region of a lowercase country code used by SmartProxy endpoints.
pub open spec fn smartproxy_region(c: Seq<char>) -> Region {
    if c == "us"@ || c == "ca"@ {
        Region::NorthAmerica
    } else if c == "uk"@ || c == "de"@ || c == "fr"@ || c == "es"@ || c == "it"@ || c == "nl"@ {
        Region::Europe
    } else if c == "sg"@ || c == "jp"@ || c == "kr"@ || c == "au"@ || c == "hk"@ {
        Region::AsiaPacific
    } else if c == "cn"@ {
        Region::China
    } else {
        Region::Global
    }
}

/// The region of an uppercase country code.
pub open spec fn upper_country_region(c: Seq<char>) -> Region {
    if c == "US"@ || c == "CA"@ {
        Region::NorthAmerica
    } else if c == "UK"@ || c == "DE"@ || c == "FR"@ || c == "ES"@ || c == "IT"@ || c == "NL"@ {
        Region::Europe
    } else if c == "SG"@ || c == "JP"@ || c == "KR"@ || c == "AU"@ || c == "HK"@ {
        Region::AsiaPacific
    } else if c == "CN"@ {
        Region::China
    } else {
        Region::Global
    }
}

/// The region of a SmartProxy country code (lowercase, as in its endpoint
/// names).
pub fn smartproxy_country_to_region(country: &str) -> (r: Region)
    ensures
        r == smartproxy_region(country@),
{
    proof {
        reveal_strlit("us");
        reveal_strlit("ca");
        reveal_strlit("uk");
        reveal_strlit("de");
        reveal_strlit("fr");
        reveal_strlit("es");
        reveal_strlit("it");
        reveal_strlit("nl");
        reveal_strlit("sg");
        reveal_strlit("jp");
        reveal_strlit("kr");
        reveal_strlit("au");
        reveal_strlit("hk");
        reveal_strlit("cn");
    }
    let c = country;
    if str_eq(c, "us") || str_eq(c, "ca") {
        Region::NorthAmerica
    } else if str_eq(c, "uk") || str_eq(c, "de") || str_eq(c, "fr") || str_eq(c, "es") || str_eq(c, "it")
        || str_eq(c, "nl") {
        Region::Europe
    } else if str_eq(c, "sg") || str_eq(c, "jp") || str_eq(c, "kr") || str_eq(c, "au") || str_eq(c, "hk") {
        Region::AsiaPacific
    } else if str_eq(c, "cn") {
        Region::China
    } else {
        Region::Global
    }
}

/// The region of a country code of any case.
pub fn country_to_region(country: &str) -> (r: Region)
    ensures
        r == upper_country_region(uppercase_of(country@)),
{
    let up = to_uppercase(country);
    let c = up.as_str();
    proof {
        reveal_strlit("US");
        reveal_strlit("CA");
        reveal_strlit("UK");
        reveal_strlit("DE");
        reveal_strlit("FR");
        reveal_strlit("ES");
        reveal_strlit("IT");
        reveal_strlit("NL");
        reveal_strlit("SG");
        reveal_strlit("JP");
        reveal_strlit("KR");
        reveal_strlit("AU");
        reveal_strlit("HK");
        reveal_strlit("CN");
    }
    if str_eq(c, "US") || str_eq(c, "CA") {
        Region::NorthAmerica
    } else if str_eq(c, "UK") || str_eq(c, "DE") || str_eq(c, "FR") || str_eq(c, "ES") || str_eq(c, "IT")
        || str_eq(c, "NL") {
        Region::Europe
    } else if str_eq(c, "SG") || str_eq(c, "JP") || str_eq(c, "KR") || str_eq(c, "AU") || str_eq(c, "HK") {
        Region::AsiaPacific
    } else if str_eq(c, "CN") {
        Region::China
    } else {
        Region::Global
    }
}

/// The address of a SmartProxy endpoint with credentials:
/// `<user>:<password>@<endpoint>`.
pub fn smartproxy_url(username: &str, password: &str, endpoint: &str) -> (r: String)
    ensures
        r@ == username@ + ":"@ + password@ + "@"@ + endpoint@,
{
    let mut s = concat_str(username, ":");
    s.append(password);
    s.append("@");
    s.append(endpoint);
    proof {
        reveal_strlit(":");
        reveal_strlit("@");
    }
    s
}

/// The address of a listed proxy given by IP and port: `http://<ip>:<port>`.
pub fn ip_port_url(ip: &str, port: u16) -> (r: String)
    ensures
        r@ == "http://"@ + ip@ + ":"@ + crate::text_util::decimal(port as nat),
{
    let mut s = concat_str("http://", ip);
    s.append(":");
    s.append(crate::text_util::u64_to_string(port as u64).as_str());
    proof {
        reveal_strlit("http://");
        reveal_strlit(":");
    }
    s
}


/// The proxy address a line of a plain proxy list gives: a trimmed
/// `host:port` line (exactly one colon) becomes `http://host:port`; blank
/// and other lines give none.
pub open spec fn proxy_line_url(raw: Seq<char>) -> Option<Seq<char>> {
    let line = trim_seq(raw);
    let parts = split_seq(line, ':');
    if line.len() == 0 || parts.len() != 2 {
        None
    } else {
        Some("http://"@ + parts[0] + ":"@ + parts[1])
    }
}

/// The proxy addresses of the given lines, in order.
pub open spec fn proxy_urls(lines: Seq<Seq<char>>) -> Seq<Seq<char>>
    decreases lines.len(),
{
    if lines.len() == 0 {
        Seq::empty()
    } else {
        let prev = proxy_urls(lines.drop_last());
        match proxy_line_url(lines.last()) {
            Some(u) => prev.push(u),
            None => prev,
        }
    }
}

/// Reads a plain proxy list, one `host:port` per line (see
/// `proxy_line_url`), into proxy addresses.
pub fn parse_proxy_list(proxy_list: &str) -> (r: Vec<String>)
    ensures
        strings_view(r@) == proxy_urls(split_seq(proxy_list@, '\n')),
{
    let lines = split_char(proxy_list, '\n');
    let ghost ls = split_seq(proxy_list@, '\n');
    let mut out: Vec<String> = Vec::new();
    let mut i: usize = 0;
    proof {
        assert(ls.take(0) =~= Seq::<Seq<char>>::empty());
        assert(strings_view(out@) =~= Seq::<Seq<char>>::empty());
    }
    while i < lines.len()
        invariant
            strings_view(lines@) == ls,
            i <= lines@.len(),
            strings_view(out@) == proxy_urls(ls.take(i as int)),
        decreases lines@.len() - i,
    {
        proof {
            assert(ls.take(i + 1).drop_last() =~= ls.take(i as int));
            assert(ls.take(i + 1).last() == lines@[i as int]@);
        }
        let line = trim_str(lines[i].as_str());
        let parts = split_char(line.as_str(), ':');
        if line.unicode_len() > 0 && parts.len() == 2 {
            let mut u = "http://".to_string();
            u.append(parts[0].as_str());
            u.append(":");
            u.append(parts[1].as_str());
            proof {
                reveal_strlit("http://");
                reveal_strlit(":");
            }
            let ghost o0 = out@;
            out.push(u);
            proof {
                assert(strings_view(out@) =~= strings_view(o0).push(out@.last()@));
            }
        }
        i = i + 1;
    }
    proof {
        assert(ls.take(lines@.len() as int) =~= ls);
    }
    out
}

} // verus!
