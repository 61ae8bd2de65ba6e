//! Shared helpers: error categorization, URL screening, status texts and
//! language codes.
use vstd::prelude::*;
use vstd::utf8::encode_utf8;
use crate::crawl_core::error::{categorizes_message, spec_is_retryable, CrawlError};
use crate::crawl_core::types::{lang_from_code, LangType};
use crate::processing::language::{detect_code, detected_language_code};
use crate::text_order::{sort_texts, sorted_texts};
use crate::text_util::{contains_str, decimal, ends_with, has_suffix, is_substring, join_with, joined_with, lowercase_of, split_char, split_seq, str_eq, to_lowercase, trim_end_char, trim_end_matching, u64_to_string};
use crate::web_url::{opt_text, parse_url, url_parse_result, url_with_path, url_with_path_result, url_with_query, url_with_query_result, url_without_fragment, url_without_fragment_result};

verus! {

/// Error-handling and URL helpers.
pub struct ErrorUtils;

/// Whether a URL is worth crawling: it parses, its scheme is `http` or
/// `https`, its lowercased path does not end in `.pdf`, `.zip`, `.exe` or
/// `.dmg`, and it is not a redirect path (containing "redirect") longer
/// than 200 bytes (as `str::len` measures it).
pub open spec fn valid_crawl_url(url: Seq<char>) -> bool {
    match url_parse_result(url) {
        Ok(p) => {
            let path = lowercase_of(p.path);
            &&& (p.scheme == "http"@ || p.scheme == "https"@)
            &&& !has_suffix(path, ".pdf"@)
            &&& !has_suffix(path, ".zip"@)
            &&& !has_suffix(path, ".exe"@)
            &&& !has_suffix(path, ".dmg"@)
            &&& !(is_substring("redirect"@, path) && (encode_utf8(path).len() as usize) > 200)
        },
        Err(_) => false,
    }
}

/// The description of an HTTP status: its reason phrase for the common
/// error codes, else "HTTP " and the number.
pub open spec fn status_description(status: u16) -> Seq<char> {
    if status == 400 { "Bad Request"@ }
    else if status == 401 { "Unauthorized"@ }
    else if status == 403 { "Forbidden"@ }
    else if status == 404 { "Not Found"@ }
    else if status == 429 { "Too Many Requests"@ }
    else if status == 500 { "Internal Server Error"@ }
    else if status == 502 { "Bad Gateway"@ }
    else if status == 503 { "Service Unavailable"@ }
    else if status == 504 { "Gateway Timeout"@ }
    else { "HTTP "@ + decimal(status as nat) }
}

/// The code reported by the simple detector: two letters for English,
/// French, German, Chinese, Japanese and Korean, the three-letter code
/// otherwise.
pub open spec fn simple_language_code(code: Seq<char>) -> Seq<char> {
    if code == "eng"@ { "en"@ }
    else if code == "fra"@ { "fr"@ }
    else if code == "deu"@ { "de"@ }
    else if code == "cmn"@ { "zh"@ }
    else if code == "jpn"@ { "ja"@ }
    else if code == "kor"@ { "ko"@ }
    else { code }
}

/// A URL's form for recognizing duplicates: without its fragment, with the
/// `&`-separated parts of its query sorted (by code point), and with the
/// slashes at the end of a path longer than one byte removed. A text that
/// does not parse stays as it is, and so does one whose rewritten forms
/// would not parse.
pub open spec fn dedup_form(url: Seq<char>) -> Seq<char> {
    match url_parse_result(url) {
        Err(_) => url,
        Ok(p) => match url_without_fragment_result(url) {
            None => url,
            Some(s1) => {
                let s2 = match p.query {
                    Some(q) => url_with_query_result(s1, joined_with(sorted_texts(split_seq(q, '&')), "&"@)),
                    None => Some(s1),
                };
                match s2 {
                    None => url,
                    Some(s2) => if has_suffix(p.path, "/"@) && (encode_utf8(p.path).len() as usize) > 1 {
                        match url_with_path_result(s2, trim_end_char(p.path, '/')) {
                            Some(s3) => s3,
                            None => url,
                        }
                    } else {
                        s2
                    },
                }
            },
        },
    }
}

impl ErrorUtils {
    /// The URL in the form used to recognize duplicates (see `dedup_form`).
    pub fn normalize_url(url: &str) -> (r: String)
        ensures
            r@ == dedup_form(url@),
    {
        let parsed = match parse_url(url) {
            Ok(p) => p,
            Err(_) => {
                return url.to_string();
            },
        };
        let s1 = match url_without_fragment(url) {
            Some(s) => s,
            None => {
                return url.to_string();
            },
        };
        let s2 = match &parsed.query {
            Some(q) => {
                let params = split_char(q.as_str(), '&');
                let sorted = sort_texts(&params);
                let joined = join_with(&sorted, "&");
                match url_with_query(s1.as_str(), joined.as_str()) {
                    Some(s) => s,
                    None => {
                        return url.to_string();
                    },
                }
            },
            None => s1,
        };
        if ends_with(parsed.path.as_str(), "/") && parsed.path.as_str().len() > 1 {
            let trimmed = trim_end_matching(parsed.path.as_str(), '/');
            match url_with_path(s2.as_str(), trimmed.as_str()) {
                Some(s3) => s3,
                None => url.to_string(),
            }
        } else {
            s2
        }
    }

    /// Categorizes an error by its message and says whether it is worth
    /// retrying.
    pub fn categorize_and_check_retry(error: &anyhow::Error) -> (r: (CrawlError, bool))
        ensures
            exists|msg: Seq<char>| categorizes_message(r.0, msg),
            r.1 == spec_is_retryable(r.0),
    {
        let e = CrawlError::from_anyhow_error(error);
        let retry = e.is_retryable();
        (e, retry)
    }

    /// See `valid_crawl_url`.
    pub fn is_valid_crawl_url(url: &str) -> (r: bool)
        ensures
            r == valid_crawl_url(url@),
    {
        match parse_url(url) {
            Ok(p) => {
                let scheme_valid = str_eq(p.scheme.as_str(), "http") || str_eq(p.scheme.as_str(), "https");
                let low = to_lowercase(p.path.as_str());
                let path = low.as_str();
                let extension_valid = !ends_with(path, ".pdf") && !ends_with(path, ".zip")
                    && !ends_with(path, ".exe") && !ends_with(path, ".dmg");
                let redirect_safe = !(contains_str(path, "redirect") && path.len() > 200);
                scheme_valid && extension_valid && redirect_safe
            },
            Err(_) => false,
        }
    }

    /// The host of a URL, when it parses and has one.
    pub fn extract_domain(url: &str) -> (r: Option<String>)
        ensures
            match url_parse_result(url@) {
                Ok(p) => opt_text(r) == p.host,
                Err(_) => r is None,
            },
    {
        match parse_url(url) {
            Ok(p) => p.host,
            Err(_) => None,
        }
    }

    /// See `status_description`.
    pub fn http_status_to_error(status: u16) -> (r: String)
        ensures
            r@ == status_description(status),
    {
        let s: &str = if status == 400 { "Bad Request" }
            else if status == 401 { "Unauthorized" }
            else if status == 403 { "Forbidden" }
            else if status == 404 { "Not Found" }
            else if status == 429 { "Too Many Requests" }
            else if status == 500 { "Internal Server Error" }
            else if status == 502 { "Bad Gateway" }
            else if status == 503 { "Service Unavailable" }
            else if status == 504 { "Gateway Timeout" }
            else {
                let mut m = "HTTP ".to_string();
                let n = u64_to_string(status as u64);
                m.append(n.as_str());
                proof {
                    reveal_strlit("HTTP ");
                }
                return m;
            };
        s.to_string()
    }

    /// The detected language's code (see `simple_language_code`), or `None`
    /// when no language is detected.
    pub fn detect_language_simple(content: &str) -> (r: Option<String>)
        ensures
            match detected_language_code(content@) {
                Some(c) => r matches Some(s) && s@ == simple_language_code(c),
                None => r is None,
            },
    {
        match detect_code(content) {
            Some(c) => {
                let cs = c.as_str();
                let s: &str = if str_eq(cs, "eng") { "en" }
                    else if str_eq(cs, "fra") { "fr" }
                    else if str_eq(cs, "deu") { "de" }
                    else if str_eq(cs, "cmn") { "zh" }
                    else if str_eq(cs, "jpn") { "ja" }
                    else if str_eq(cs, "kor") { "ko" }
                    else { cs };
                Some(s.to_string())
            },
            None => None,
        }
    }

    /// The detected language when it is one of the supported ones.
    pub fn detect_language_typed(content: &str) -> (r: Option<LangType>)
        ensures
            r == (match detected_language_code(content@) {
                Some(c) => lang_from_code(c),
                None => None,
            }),
    {
        match detect_code(content) {
            Some(c) => LangType::from_detected_code(c.as_str()),
            None => None,
        }
    }
}

} // verus!
