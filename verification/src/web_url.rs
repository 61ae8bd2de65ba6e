//! URL parsing through the `url` crate: the parts of a parsed URL that the
//! crawler's rules read.
use vstd::prelude::*;

verus! {

/// The parts of a parsed URL: scheme, host text, domain (the host when it is
/// a name rather than an IP address), path, query, fragment, the whole
/// serialization, and whether the path splits into segments (it does not
/// for URLs that cannot be a base, such as `mailto:` ones).
pub struct ParsedUrl {
    pub scheme: String,
    pub host: Option<String>,
    pub domain: Option<String>,
    pub path: String,
    pub query: Option<String>,
    pub fragment: Option<String>,
    pub serialization: String,
    pub has_segments: bool,
}

/// Abstract content of a parsed URL.
pub struct ParsedUrlView {
    pub scheme: Seq<char>,
    pub host: Option<Seq<char>>,
    pub domain: Option<Seq<char>>,
    pub path: Seq<char>,
    pub query: Option<Seq<char>>,
    pub fragment: Option<Seq<char>>,
    pub serialization: Seq<char>,
    pub has_segments: bool,
}

pub open spec fn opt_text(o: Option<String>) -> Option<Seq<char>> {
    match o {
        Some(s) => Some(s@),
        None => None,
    }
}

impl View for ParsedUrl {
    type V = ParsedUrlView;

    open spec fn view(&self) -> ParsedUrlView {
        ParsedUrlView {
            scheme: self.scheme@,
            host: opt_text(self.host),
            domain: opt_text(self.domain),
            path: self.path@,
            query: opt_text(self.query),
            fragment: opt_text(self.fragment),
            serialization: self.serialization@,
            has_segments: self.has_segments,
        }
    }
}

/// What `url::Url::parse` makes of a text: its parts, or the text of the
/// parse error.
pub uninterp spec fn url_parse_result(s: Seq<char>) -> Result<ParsedUrlView, Seq<char>>;

/// Calls `url::Url::parse` and reads the parts of the result (`scheme`,
/// `host_str`, `domain`, `path`, `query`, `fragment`, `as_str`, and whether
/// `path_segments` gives segments), or renders the parse error with
/// `Display`. The outcome is named `url_parse_result` of the input. The
/// crate's documentation gives the further facts stated: a domain, when
/// present, is the host, and a URL has path segments exactly when its path
/// starts with a slash.
#[verifier::external_body]
pub(crate) fn parse_url(s: &str) -> (r: Result<ParsedUrl, String>)
    ensures
        match r {
            Ok(p) => url_parse_result(s@) == Ok::<ParsedUrlView, Seq<char>>(p@)
                && (p@.domain is Some ==> p@.host == p@.domain)
                && (p@.has_segments <==> (p@.path.len() > 0 && p@.path[0] == '/')),
            Err(e) => url_parse_result(s@) == Err::<ParsedUrlView, Seq<char>>(e@),
        },
{
    match url::Url::parse(s) {
        Ok(u) => Ok(ParsedUrl {
            scheme: u.scheme().to_string(),
            host: u.host_str().map(|h| h.to_string()),
            domain: u.domain().map(|d| d.to_string()),
            path: u.path().to_string(),
            query: u.query().map(|q| q.to_string()),
            fragment: u.fragment().map(|f| f.to_string()),
            serialization: u.as_str().to_string(),
            has_segments: u.path_segments().is_some(),
        }),
        Err(e) => Err(e.to_string()),
    }
}

/// The serialization of a URL after `Url::set_fragment(None)`, or `None`
/// when the text does not parse.
pub uninterp spec fn url_without_fragment_result(url: Seq<char>) -> Option<Seq<char>>;

/// Calls `url::Url::parse`, `Url::set_fragment(None)` and serializes; the
/// outcome is named `url_without_fragment_result`.
#[verifier::external_body]
pub(crate) fn url_without_fragment(url: &str) -> (r: Option<String>)
    ensures
        opt_text(r) == url_without_fragment_result(url@),
{
    match url::Url::parse(url) {
        Ok(mut u) => {
            u.set_fragment(None);
            Some(u.to_string())
        },
        Err(_) => None,
    }
}

/// The serialization of a URL after `Url::set_query(None)`, or `None`
/// when the text does not parse.
pub uninterp spec fn url_without_query_result(url: Seq<char>) -> Option<Seq<char>>;

/// Calls `url::Url::parse`, `Url::set_query(None)` and serializes; the
/// outcome is named `url_without_query_result`.
#[verifier::external_body]
pub(crate) fn url_without_query(url: &str) -> (r: Option<String>)
    ensures
        opt_text(r) == url_without_query_result(url@),
{
    match url::Url::parse(url) {
        Ok(mut u) => {
            u.set_query(None);
            Some(u.to_string())
        },
        Err(_) => None,
    }
}

/// The serialization of a URL after `Url::set_query(Some(query))`, or
/// `None` when the text does not parse.
pub uninterp spec fn url_with_query_result(url: Seq<char>, query: Seq<char>) -> Option<Seq<char>>;

/// Calls `url::Url::parse`, `Url::set_query` with the given query and
/// serializes; the outcome is named `url_with_query_result`.
#[verifier::external_body]
pub(crate) fn url_with_query(url: &str, query: &str) -> (r: Option<String>)
    ensures
        opt_text(r) == url_with_query_result(url@, query@),
{
    match url::Url::parse(url) {
        Ok(mut u) => {
            u.set_query(Some(query));
            Some(u.to_string())
        },
        Err(_) => None,
    }
}

/// The serialization of a URL after `Url::set_path(path)`, or `None` when
/// the text does not parse.
pub uninterp spec fn url_with_path_result(url: Seq<char>, path: Seq<char>) -> Option<Seq<char>>;

/// Calls `url::Url::parse`, `Url::set_path` with the given path and
/// serializes; the outcome is named `url_with_path_result`.
#[verifier::external_body]
pub(crate) fn url_with_path(url: &str, path: &str) -> (r: Option<String>)
    ensures
        opt_text(r) == url_with_path_result(url@, path@),
{
    match url::Url::parse(url) {
        Ok(mut u) => {
            u.set_path(path);
            Some(u.to_string())
        },
        Err(_) => None,
    }
}

/// The URL that `url::Url::join` makes of a reference resolved against a
/// base URL, serialized, or `None` when the base does not parse or the
/// reference cannot be resolved.
pub uninterp spec fn url_join_result(base: Seq<char>, reference: Seq<char>) -> Option<Seq<char>>;

/// Calls `url::Url::parse` on the base and `Url::join` with the reference,
/// and serializes the result; the outcome is named `url_join_result`.
#[verifier::external_body]
pub(crate) fn join_url(base: &str, reference: &str) -> (r: Option<String>)
    ensures
        opt_text(r) == url_join_result(base@, reference@),
{
    match url::Url::parse(base) {
        Ok(b) => match b.join(reference) {
            Ok(u) => Some(u.to_string()),
            Err(_) => None,
        },
        Err(_) => None,
    }
}

} // verus!
