//! HTTP client configuration: what a client is built with, presets for
//! fast and reliable clients, proxy settings, and the keys under which a
//! client pool keeps clients. Timeouts are milliseconds.
use vstd::prelude::*;
use crate::assoc::{assoc_insert, assoc_insert_all, assoc_view, inserted_all, keys_unique};
use crate::common::{BooleanFlag, LimitValue, TimeoutDuration, UrlString};
use crate::text_util::concat_str;

verus! {

/// The protocol a proxy speaks.
#[derive(Clone, Copy, Debug, PartialEq, Eq, Structural)]
pub enum ProxyType {
    Http,
    Https,
    Socks5,
}

/// Credentials for a proxy.
#[derive(Debug)]
pub struct ProxyAuth {
    pub username: String,
    pub password: String,
}

impl Clone for ProxyAuth {
    fn clone(&self) -> (r: Self)
        ensures
            r.username@ == self.username@,
            r.password@ == self.password@,
    {
        ProxyAuth { username: self.username.clone(), password: self.password.clone() }
    }
}

/// A proxy to send requests through.
#[derive(Debug)]
pub struct ProxyConfig {
    pub url: UrlString,
    pub proxy_type: ProxyType,
    pub auth: Option<ProxyAuth>,
}

impl ProxyConfig {
    /// A proxy at `url` speaking `proxy_type`, without credentials.
    pub fn new(url: UrlString, proxy_type: ProxyType) -> (r: Self)
        ensures
            r.url@ == url@,
            r.proxy_type == proxy_type,
            r.auth is None,
    {
        ProxyConfig { url, proxy_type, auth: None }
    }

    /// The same proxy with credentials.
    pub fn with_auth(self, username: String, password: String) -> (r: Self)
        ensures
            r.url@ == self.url@,
            r.proxy_type == self.proxy_type,
            r.auth matches Some(a) && a.username@ == username@ && a.password@ == password@,
    {
        ProxyConfig { auth: Some(ProxyAuth { username, password }), ..self }
    }
}

impl Clone for ProxyConfig {
    fn clone(&self) -> (r: Self)
        ensures
            r.url@ == self.url@,
            r.proxy_type == self.proxy_type,
            r.auth is Some <==> self.auth is Some,
    {
        ProxyConfig {
            url: self.url.clone(),
            proxy_type: self.proxy_type,
            auth: match &self.auth {
                Some(a) => Some(a.clone()),
                None => None,
            },
        }
    }
}

/// Abstract content of a client configuration (and of its builder).
pub struct ClientConfigView {
    pub user_agent: Seq<char>,
    pub timeout: u64,
    pub redirect_limit: u64,
    pub connection_pool_size: u64,
    pub idle_timeout: u64,
    pub compression_enabled: bool,
    pub cookies_enabled: bool,
    pub proxy_url: Option<Seq<char>>,
    pub custom_headers: Map<Seq<char>, String>,
}

/// The default client configuration: user agent `RustWebCrawler/1.0`, a 30 s
/// timeout, ten redirects, ten pooled connections kept idle 60 s,
/// compression and cookies on, no proxy, no extra headers.
pub open spec fn default_client_config() -> ClientConfigView {
    ClientConfigView {
        user_agent: "RustWebCrawler/1.0"@,
        timeout: 30000,
        redirect_limit: 10,
        connection_pool_size: 10,
        idle_timeout: 60000,
        compression_enabled: true,
        cookies_enabled: true,
        proxy_url: None,
        custom_headers: Map::empty(),
    }
}

/// What an HTTP client is built with.
#[derive(Debug)]
pub struct ClientConfig {
    user_agent: String,
    timeout: TimeoutDuration,
    redirect_limit: LimitValue,
    connection_pool_size: LimitValue,
    idle_timeout: TimeoutDuration,
    compression_enabled: BooleanFlag,
    cookies_enabled: BooleanFlag,
    proxy_config: Option<ProxyConfig>,
    custom_headers: Vec<(String, String)>,
}

impl View for ClientConfig {
    type V = ClientConfigView;

    closed spec fn view(&self) -> ClientConfigView {
        ClientConfigView {
            user_agent: self.user_agent@,
            timeout: self.timeout@,
            redirect_limit: self.redirect_limit@,
            connection_pool_size: self.connection_pool_size@,
            idle_timeout: self.idle_timeout@,
            compression_enabled: self.compression_enabled@,
            cookies_enabled: self.cookies_enabled@,
            proxy_url: match self.proxy_config {
                Some(p) => Some(p.url@),
                None => None,
            },
            custom_headers: assoc_view(self.custom_headers@),
        }
    }
}

impl ClientConfig {
    /// Well-formedness: one value per header name.
    pub closed spec fn wf(&self) -> bool {
        keys_unique(self.custom_headers@)
    }

    pub fn builder() -> (r: ClientConfigBuilder)
        ensures
            r.wf(),
            r@ == default_client_config(),
    {
        ClientConfigBuilder::new()
    }

    pub fn user_agent(&self) -> (r: &str)
        ensures
            r@ == self@.user_agent,
    {
        self.user_agent.as_str()
    }

    /// The request timeout, in milliseconds.
    pub fn timeout(&self) -> (r: u64)
        ensures
            r == self@.timeout,
    {
        self.timeout.as_millis()
    }

    /// The redirect limit, narrowed to 32 bits.
    pub fn redirect_limit(&self) -> (r: u32)
        ensures
            r == self@.redirect_limit as u32,
    {
        #[verifier::truncate]
        let r = self.redirect_limit.value() as u32;
        r
    }

    /// The connection pool size, narrowed to the platform's word.
    pub fn connection_pool_size(&self) -> (r: usize)
        ensures
            r == self@.connection_pool_size as usize,
    {
        #[verifier::truncate]
        let r = self.connection_pool_size.value() as usize;
        r
    }

    /// How long an idle pooled connection is kept, in milliseconds.
    pub fn idle_timeout(&self) -> (r: u64)
        ensures
            r == self@.idle_timeout,
    {
        self.idle_timeout.as_millis()
    }

    pub fn is_compression_enabled(&self) -> (r: bool)
        ensures
            r == self@.compression_enabled,
    {
        self.compression_enabled.is_enabled()
    }

    pub fn is_cookies_enabled(&self) -> (r: bool)
        ensures
            r == self@.cookies_enabled,
    {
        self.cookies_enabled.is_enabled()
    }

    pub fn proxy_config(&self) -> (r: Option<&ProxyConfig>)
        ensures
            match r {
                Some(p) => self@.proxy_url == Some(p.url@),
                None => self@.proxy_url is None,
            },
    {
        match &self.proxy_config {
            Some(p) => Some(p),
            None => None,
        }
    }

    /// The extra headers, as (name, value) pairs with distinct names.
    pub fn custom_headers(&self) -> (r: &Vec<(String, String)>)
        requires
            self.wf(),
        ensures
            keys_unique(r@),
            assoc_view(r@) == self@.custom_headers,
    {
        &self.custom_headers
    }
}

impl Default for ClientConfig {
    fn default() -> (r: Self)
        ensures
            r.wf(),
            r@ == default_client_config(),
    {
        ClientConfigBuilder::new().build()
    }
}

/// Builder of a client configuration.
#[derive(Debug)]
pub struct ClientConfigBuilder {
    config: ClientConfig,
}

impl View for ClientConfigBuilder {
    type V = ClientConfigView;

    closed spec fn view(&self) -> ClientConfigView {
        self.config@
    }
}

impl ClientConfigBuilder {
    /// Well-formedness: one value per header name.
    pub closed spec fn wf(&self) -> bool {
        self.config.wf()
    }

    pub fn new() -> (r: Self)
        ensures
            r.wf(),
            r@ == default_client_config(),
    {
        let r = ClientConfigBuilder {
            config: ClientConfig {
                user_agent: "RustWebCrawler/1.0".to_string(),
                timeout: TimeoutDuration::from_secs(30),
                redirect_limit: LimitValue::new(10),
                connection_pool_size: LimitValue::new(10),
                idle_timeout: TimeoutDuration::from_secs(60),
                compression_enabled: BooleanFlag::enabled(),
                cookies_enabled: BooleanFlag::enabled(),
                proxy_config: None,
                custom_headers: Vec::new(),
            },
        };
        proof {
            reveal_strlit("RustWebCrawler/1.0");
            assert(assoc_view(r.config.custom_headers@) =~= Map::empty());
        }
        r
    }

    pub fn with_user_agent(self, user_agent: String) -> (r: Self)
        requires
            self.wf(),
        ensures
            r.wf(),
            r@ == (ClientConfigView { user_agent: user_agent@, ..self@ }),
    {
        let mut this = self;
        this.config.user_agent = user_agent;
        this
    }

    pub fn with_timeout(self, timeout: TimeoutDuration) -> (r: Self)
        requires
            self.wf(),
        ensures
            r.wf(),
            r@ == (ClientConfigView { timeout: timeout@, ..self@ }),
    {
        let mut this = self;
        this.config.timeout = timeout;
        this
    }

    pub fn with_redirect_limit(self, limit: LimitValue) -> (r: Self)
        requires
            self.wf(),
        ensures
            r.wf(),
            r@ == (ClientConfigView { redirect_limit: limit@, ..self@ }),
    {
        let mut this = self;
        this.config.redirect_limit = limit;
        this
    }

    pub fn with_connection_pool_size(self, size: LimitValue) -> (r: Self)
        requires
            self.wf(),
        ensures
            r.wf(),
            r@ == (ClientConfigView { connection_pool_size: size@, ..self@ }),
    {
        let mut this = self;
        this.config.connection_pool_size = size;
        this
    }

    pub fn with_idle_timeout(self, timeout: TimeoutDuration) -> (r: Self)
        requires
            self.wf(),
        ensures
            r.wf(),
            r@ == (ClientConfigView { idle_timeout: timeout@, ..self@ }),
    {
        let mut this = self;
        this.config.idle_timeout = timeout;
        this
    }

    pub fn with_compression(self, enabled: BooleanFlag) -> (r: Self)
        requires
            self.wf(),
        ensures
            r.wf(),
            r@ == (ClientConfigView { compression_enabled: enabled@, ..self@ }),
    {
        let mut this = self;
        this.config.compression_enabled = enabled;
        this
    }

    pub fn with_cookies(self, enabled: BooleanFlag) -> (r: Self)
        requires
            self.wf(),
        ensures
            r.wf(),
            r@ == (ClientConfigView { cookies_enabled: enabled@, ..self@ }),
    {
        let mut this = self;
        this.config.cookies_enabled = enabled;
        this
    }

    pub fn with_proxy(self, proxy_config: ProxyConfig) -> (r: Self)
        requires
            self.wf(),
        ensures
            r.wf(),
            r@ == (ClientConfigView { proxy_url: Some(proxy_config.url@), ..self@ }),
    {
        let mut this = self;
        this.config.proxy_config = Some(proxy_config);
        this
    }

    /// Sets one extra header (replacing an earlier value for that name).
    pub fn with_custom_header(self, name: String, value: String) -> (r: Self)
        requires
            self.wf(),
        ensures
            r.wf(),
            r@ == (ClientConfigView {
                custom_headers: self@.custom_headers.insert(name@, value),
                ..self@
            }),
    {
        let mut this = self;
        assoc_insert(&mut this.config.custom_headers, name, value);
        this
    }

    /// Sets each given header in order.
    pub fn with_custom_headers(self, headers: Vec<(String, String)>) -> (r: Self)
        requires
            self.wf(),
        ensures
            r.wf(),
            r@ == (ClientConfigView {
                custom_headers: inserted_all(self@.custom_headers, headers@),
                ..self@
            }),
    {
        let mut this = self;
        assoc_insert_all(&mut this.config.custom_headers, headers);
        this
    }

    pub fn build(self) -> (r: ClientConfig)
        requires
            self.wf(),
        ensures
            r.wf(),
            r@ == self@,
    {
        self.config
    }
}

impl Default for ClientConfigBuilder {
    fn default() -> (r: Self)
        ensures
            r.wf(),
            r@ == default_client_config(),
    {
        Self::new()
    }
}

/// Makes the configurations of the crawler's HTTP clients; building a
/// client from a configuration is left to the HTTP library's builder.
#[derive(Debug)]
pub struct HttpClientFactory;

impl HttpClientFactory {
    pub fn new() -> (r: Self) {
        HttpClientFactory
    }

    /// The configuration of a client with the given user agent.
    pub fn user_agent_config(&self, user_agent: String) -> (r: ClientConfig)
        ensures
            r.wf(),
            r@ == (ClientConfigView { user_agent: user_agent@, ..default_client_config() }),
    {
        ClientConfig::builder().with_user_agent(user_agent).build()
    }

    /// The configuration of a client going through a proxy.
    pub fn proxy_config(&self, proxy_config: ProxyConfig) -> (r: ClientConfig)
        ensures
            r.wf(),
            r@ == (ClientConfigView { proxy_url: Some(proxy_config.url@), ..default_client_config() }),
    {
        ClientConfig::builder().with_proxy(proxy_config).build()
    }

    /// The configuration of a client tuned for fast requests: a 10 s
    /// timeout, twenty pooled connections, five redirects.
    pub fn fast_client_config(&self) -> (r: ClientConfig)
        ensures
            r.wf(),
            r@ == (ClientConfigView {
                timeout: 10000,
                connection_pool_size: 20,
                redirect_limit: 5,
                ..default_client_config()
            }),
    {
        ClientConfig::builder()
            .with_timeout(TimeoutDuration::from_secs(10))
            .with_connection_pool_size(LimitValue::new(20))
            .with_redirect_limit(LimitValue::new(5))
            .build()
    }

    /// The configuration of a client tuned for reliable requests: a 60 s
    /// timeout, twenty redirects, five pooled connections.
    pub fn reliable_client_config(&self) -> (r: ClientConfig)
        ensures
            r.wf(),
            r@ == (ClientConfigView {
                timeout: 60000,
                redirect_limit: 20,
                connection_pool_size: 5,
                ..default_client_config()
            }),
    {
        ClientConfig::builder()
            .with_timeout(TimeoutDuration::from_secs(60))
            .with_redirect_limit(LimitValue::new(20))
            .with_connection_pool_size(LimitValue::new(5))
            .build()
    }
}

impl Default for HttpClientFactory {
    fn default() -> (r: Self) {
        Self::new()
    }
}

/// The pool key of the client for a user agent: `ua_<agent>`.
pub fn user_agent_client_key(user_agent: &str) -> (r: String)
    ensures
        r@ == "ua_"@ + user_agent@,
{
    proof {
        reveal_strlit("ua_");
    }
    concat_str("ua_", user_agent)
}

/// The pool key of the client for a proxy: `proxy_<url>`.
pub fn proxy_client_key(proxy_url: &str) -> (r: String)
    ensures
        r@ == "proxy_"@ + proxy_url@,
{
    proof {
        reveal_strlit("proxy_");
    }
    concat_str("proxy_", proxy_url)
}

/// The pool key of the default client.
pub fn default_client_key() -> (r: &'static str)
    ensures
        r@ == "default"@,
{
    proof {
        reveal_strlit("default");
    }
    "default"
}

} // verus!
