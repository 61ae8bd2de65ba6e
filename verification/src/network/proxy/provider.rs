//! Proxy providers: their configuration, credentials for paid sources, the
//! protocols proxies speak and the errors a provider reports.
use vstd::prelude::*;
use crate::assoc::{assoc_insert, assoc_view, keys_unique};
use crate::crawl_core::types_refactored::Region;
use crate::text_util::{opt_seq, strings_view};

verus! {

/// What went wrong while fetching proxies.
#[derive(Debug)]
pub enum ProxyProviderError {
    NetworkError(String),
    ParseError(String),
    RateLimited,
    Unauthorized,
    ConfigurationError(String),
}

/// The protocol a proxy speaks.
#[derive(Clone, Copy, Debug, PartialEq, Eq, Structural)]
pub enum ProxyProtocol {
    Http,
    Https,
    Socks4,
    Socks5,
}

/// Credentials for a paid proxy API.
#[derive(Debug)]
pub struct ApiCredentials {
    pub api_key: String,
    pub endpoint: String,
    pub username: Option<String>,
    pub password: Option<String>,
}

impl Clone for ApiCredentials {
    fn clone(&self) -> (r: Self)
        ensures
            r.api_key@ == self.api_key@,
            r.endpoint@ == self.endpoint@,
            opt_seq(r.username) == opt_seq(self.username),
            opt_seq(r.password) == opt_seq(self.password),
    {
        ApiCredentials {
            api_key: self.api_key.clone(),
            endpoint: self.endpoint.clone(),
            username: crate::text_util::clone_opt_string(&self.username),
            password: crate::text_util::clone_opt_string(&self.password),
        }
    }
}

/// Where a provider fetches proxies and how patiently.
#[derive(Debug)]
pub struct ProxyProviderConfig {
    pub free_sources: Vec<String>,
    pub paid_sources: Vec<(String, ApiCredentials)>,
    pub timeout_seconds: u64,
    pub max_retries: u32,
    pub rate_limit_ms: u64,
}

/// The two public proxy lists fetched by default.
pub open spec fn default_free_sources() -> Seq<Seq<char>> {
    seq![
        "https://www.proxy-list.download/api/v1/get?type=http"@,
        "https://api.proxyscrape.com/v2/?request=get&protocol=http"@,
    ]
}

impl ProxyProviderConfig {
    /// One paid source per name.
    pub open spec fn wf(&self) -> bool {
        keys_unique(self.paid_sources@)
    }

    /// Adds (or replaces) the credentials of a paid source.
    pub fn add_paid_source(&mut self, name: String, credentials: ApiCredentials)
        requires
            old(self).wf(),
        ensures
            final(self).wf(),
            assoc_view(final(self).paid_sources@) == assoc_view(old(self).paid_sources@).insert(
                name@,
                credentials,
            ),
            strings_view(final(self).free_sources@) == strings_view(old(self).free_sources@),
            final(self).timeout_seconds == old(self).timeout_seconds,
            final(self).max_retries == old(self).max_retries,
            final(self).rate_limit_ms == old(self).rate_limit_ms,
    {
        assoc_insert(&mut self.paid_sources, name, credentials);
    }
}

impl Default for ProxyProviderConfig {
    /// Two public lists, no paid source, a 30 s timeout, three retries and
    /// a second between sources.
    fn default() -> (r: Self)
        ensures
            r.wf(),
            strings_view(r.free_sources@) == default_free_sources(),
            r.paid_sources@.len() == 0,
            r.timeout_seconds == 30,
            r.max_retries == 3,
            r.rate_limit_ms == 1000,
    {
        let mut free_sources: Vec<String> = Vec::new();
        free_sources.push("https://www.proxy-list.download/api/v1/get?type=http".to_string());
        free_sources.push("https://api.proxyscrape.com/v2/?request=get&protocol=http".to_string());
        proof {
            reveal_strlit("https://www.proxy-list.download/api/v1/get?type=http");
            reveal_strlit("https://api.proxyscrape.com/v2/?request=get&protocol=http");
            assert(strings_view(free_sources@) =~= default_free_sources());
        }
        ProxyProviderConfig {
            free_sources,
            paid_sources: Vec::new(),
            timeout_seconds: 30,
            max_retries: 3,
            rate_limit_ms: 1000,
        }
    }
}

/// A proxy serves a region when it is in that region or serves every
/// region.
pub fn serves_region(proxy_region: Region, region: Region) -> (r: bool)
    ensures
        r == (proxy_region == region || proxy_region == Region::Global),
{
    proxy_region == region || proxy_region == Region::Global
}

} // verus!
