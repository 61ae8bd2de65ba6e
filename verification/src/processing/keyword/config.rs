//! Settings for keyword-based content filtering.
use vstd::prelude::*;
use crate::crawl_core::error::CrawlError;
use crate::patterns::{first_bad, first_invalid_pattern};
use crate::processing::cleaning::config::{any_blank, has_blank_rule};
use crate::text_util::{clone_strings, concat_str, lowercase_of, to_lowercase, strings_view};

verus! {

/// How keywords are matched against content.
#[derive(Debug, Clone, Copy, PartialEq, Eq, Structural)]
pub enum KeywordMode {
    /// Any keyword suffices.
    Any,
    /// Every keyword must occur.
    All,
    /// Keywords are exact phrases.
    Exact,
    /// Matching ignores case.
    CaseInsensitive,
    /// Keywords are regular expressions.
    Regex,
}

impl Default for KeywordMode {
    fn default() -> (r: Self)
        ensures
            r == KeywordMode::Any,
    {
        KeywordMode::Any
    }
}

/// Further options for keyword processing.
#[derive(Debug, Clone)]
pub struct KeywordOptions {
    /// Fewest matches required.
    pub min_matches: Option<usize>,
    /// Greatest distance between keywords for proximity matching.
    pub proximity_distance: Option<usize>,
    /// Whether text around each match is kept.
    pub include_context: bool,
    /// Characters of context before and after a match.
    pub context_window: usize,
    /// Whether matches are highlighted.
    pub highlight_matches: bool,
}

impl Default for KeywordOptions {
    fn default() -> (r: Self)
        ensures
            r.min_matches is None,
            r.proximity_distance is None,
            !r.include_context,
            r.context_window == 100,
            !r.highlight_matches,
    {
        KeywordOptions {
            min_matches: None,
            proximity_distance: None,
            include_context: false,
            context_window: 100,
            highlight_matches: false,
        }
    }
}

/// Keyword filtering settings.
#[derive(Debug, Clone)]
pub struct KeywordConfig {
    pub enabled: bool,
    pub keywords: Vec<String>,
    pub mode: KeywordMode,
    pub options: KeywordOptions,
}

/// The message `validate` rejects settings with, checked in order: no
/// keywords while enabled, a blank keyword while enabled, a keyword that is
/// not a valid regular expression in `Regex` mode, a proximity distance of
/// zero, and a zero context window while context is included. `None` when
/// the settings are acceptable.
pub open spec fn keyword_config_error(c: KeywordConfig) -> Option<Seq<char>> {
    if c.enabled && c.keywords@.len() == 0 {
        Some("Keywords cannot be empty when keyword filtering is enabled"@)
    } else if c.enabled && has_blank_rule(c.keywords@) {
        Some("Keywords cannot contain empty strings"@)
    } else if c.mode == KeywordMode::Regex && first_bad(c.keywords@) is Some {
        let (p, e) = first_bad(c.keywords@)->0;
        Some("Invalid regex pattern '"@ + p + "': "@ + e)
    } else if c.options.proximity_distance == Some(0usize) {
        Some("Proximity distance must be greater than 0"@)
    } else if c.options.include_context && c.options.context_window == 0 {
        Some("Context window must be greater than 0 when including context"@)
    } else {
        None
    }
}

/// The keywords as matching uses them: lowercased in `CaseInsensitive`
/// mode, unchanged otherwise.
pub open spec fn normalized_view(c: KeywordConfig) -> Seq<Seq<char>> {
    if c.mode == KeywordMode::CaseInsensitive {
        Seq::new(c.keywords@.len(), |i: int| lowercase_of(c.keywords@[i]@))
    } else {
        strings_view(c.keywords@)
    }
}

impl Default for KeywordConfig {
    fn default() -> (r: Self)
        ensures
            !r.enabled,
            r.keywords@.len() == 0,
            r.mode == KeywordMode::Any,
            r.options.context_window == 100,
            !r.options.include_context,
            r.options.proximity_distance is None,
    {
        KeywordConfig {
            enabled: false,
            keywords: Vec::new(),
            mode: KeywordMode::default(),
            options: KeywordOptions::default(),
        }
    }
}

impl KeywordConfig {
    /// Enabled filtering on the given keywords, with default options.
    pub fn new(keywords: Vec<String>, mode: KeywordMode) -> (r: Self)
        ensures
            r.enabled,
            r.keywords@ == keywords@,
            r.mode == mode,
            r.options.context_window == 100,
            !r.options.include_context,
            r.options.proximity_distance is None,
            r.options.min_matches is None,
            !r.options.highlight_matches,
    {
        KeywordConfig { enabled: true, keywords, mode, options: KeywordOptions::default() }
    }

    /// Enabled filtering on the given keywords and options.
    pub fn with_options(keywords: Vec<String>, mode: KeywordMode, options: KeywordOptions) -> (r: Self)
        ensures
            r.enabled,
            r.keywords@ == keywords@,
            r.mode == mode,
            r.options == options,
    {
        KeywordConfig { enabled: true, keywords, mode, options }
    }

    /// Checks the settings; see `keyword_config_error`.
    pub fn validate(&self) -> (r: Result<(), CrawlError>)
        ensures
            match keyword_config_error(*self) {
                None => r is Ok,
                Some(m) => r matches Err(CrawlError::KeywordConfigError(s)) && s@ == m,
            },
    {
        proof {
            reveal_strlit("Keywords cannot be empty when keyword filtering is enabled");
            reveal_strlit("Keywords cannot contain empty strings");
            reveal_strlit("Invalid regex pattern '");
            reveal_strlit("': ");
            reveal_strlit("Proximity distance must be greater than 0");
            reveal_strlit("Context window must be greater than 0 when including context");
        }
        if self.enabled && self.keywords.len() == 0 {
            return Err(CrawlError::KeywordConfigError(
                "Keywords cannot be empty when keyword filtering is enabled".to_string(),
            ));
        }
        if self.enabled && any_blank(&self.keywords) {
            return Err(CrawlError::KeywordConfigError("Keywords cannot contain empty strings".to_string()));
        }
        if self.mode == KeywordMode::Regex {
            match first_invalid_pattern(&self.keywords) {
                Some((p, e)) => {
                    let mut m = concat_str("Invalid regex pattern '", p.as_str());
                    m.append("': ");
                    m.append(e.as_str());
                    return Err(CrawlError::KeywordConfigError(m));
                },
                None => {},
            }
        }
        if self.options.proximity_distance == Some(0usize) {
            return Err(CrawlError::KeywordConfigError("Proximity distance must be greater than 0".to_string()));
        }
        if self.options.include_context && self.options.context_window == 0 {
            return Err(CrawlError::KeywordConfigError(
                "Context window must be greater than 0 when including context".to_string(),
            ));
        }
        Ok(())
    }

    /// Filtering happens when it is enabled and there are keywords.
    pub fn should_filter(&self) -> (r: bool)
        ensures
            r == (self.enabled && self.keywords@.len() > 0),
    {
        self.enabled && self.keywords.len() > 0
    }

    /// The keywords as matching uses them (see `normalized_view`).
    pub fn normalized_keywords(&self) -> (r: Vec<String>)
        ensures
            strings_view(r@) == normalized_view(*self),
    {
        if self.mode == KeywordMode::CaseInsensitive {
            let mut out: Vec<String> = Vec::new();
            let mut i: usize = 0;
            while i < self.keywords.len()
                invariant
                    i <= self.keywords@.len(),
                    out@.len() == i,
                    forall|j: int| 0 <= j < i ==> #[trigger] out@[j]@ == lowercase_of(self.keywords@[j]@),
                decreases self.keywords@.len() - i,
            {
                out.push(to_lowercase(self.keywords[i].as_str()));
                i = i + 1;
            }
            assert(strings_view(out@) =~= normalized_view(*self));
            out
        } else {
            let out = clone_strings(&self.keywords);
            out
        }
    }
}

} // verus!
