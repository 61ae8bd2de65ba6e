//! Content processing settings and the processing of plain text: removing
//! markup, normalizing whitespace, dropping special characters, and the
//! length check.
use vstd::prelude::*;
use crate::byte_text::bytes_of;
use crate::common::{BooleanFlag, LimitValue, TaskError, TaskErrorKind, TimeoutDuration};
use crate::patterns::{regex_compile_error, regex_error, regex_replaced, replace_all};
use crate::text_util::{
    alphanumeric, chars_of, clone_strings, concat_str, decimal, is_alphanumeric_char, is_whitespace_char, is_ws,
    push_char, strings_view, trim_seq, trim_str, u64_to_string,
};

verus! {

/// Abstract content of content-processing settings.
pub struct ContentProcessingConfigView {
    pub min_content_length: u64,
    pub max_content_length: u64,
    pub processing_timeout_ms: u64,
    pub accepted_languages: Seq<Seq<char>>,
    pub language_detection_enabled: bool,
    pub remove_html_tags: bool,
    pub normalize_whitespace: bool,
    pub remove_special_chars: bool,
    pub preserve_structure: bool,
    pub extract_text_only: bool,
    pub extract_links: bool,
    pub extract_metadata: bool,
    pub follow_charset: bool,
}

/// Settings for processing fetched content.
#[derive(Debug)]
pub struct ContentProcessingConfig {
    min_content_length: LimitValue,
    max_content_length: LimitValue,
    processing_timeout: TimeoutDuration,
    accepted_languages: Vec<String>,
    language_detection_enabled: BooleanFlag,
    remove_html_tags: BooleanFlag,
    normalize_whitespace: BooleanFlag,
    remove_special_chars: BooleanFlag,
    preserve_structure: BooleanFlag,
    extract_text_only: BooleanFlag,
    extract_links: BooleanFlag,
    extract_metadata: BooleanFlag,
    follow_charset: BooleanFlag,
}

impl View for ContentProcessingConfig {
    type V = ContentProcessingConfigView;

    closed spec fn view(&self) -> ContentProcessingConfigView {
        ContentProcessingConfigView {
            min_content_length: self.min_content_length@,
            max_content_length: self.max_content_length@,
            processing_timeout_ms: self.processing_timeout@,
            accepted_languages: strings_view(self.accepted_languages@),
            language_detection_enabled: self.language_detection_enabled@,
            remove_html_tags: self.remove_html_tags@,
            normalize_whitespace: self.normalize_whitespace@,
            remove_special_chars: self.remove_special_chars@,
            preserve_structure: self.preserve_structure@,
            extract_text_only: self.extract_text_only@,
            extract_links: self.extract_links@,
            extract_metadata: self.extract_metadata@,
            follow_charset: self.follow_charset@,
        }
    }
}

/// The default settings: content of 10 to 1,000,000 bytes, a 30 second
/// timeout, English, French, German and Spanish accepted, language
/// detection on, markup removed, whitespace normalized, special characters
/// kept, structure not preserved, text, links and metadata extracted, and
/// the declared charset followed.
pub open spec fn default_content_config() -> ContentProcessingConfigView {
    ContentProcessingConfigView {
        min_content_length: 10,
        max_content_length: 1_000_000,
        processing_timeout_ms: 30_000,
        accepted_languages: seq!["eng"@, "fra"@, "deu"@, "spa"@],
        language_detection_enabled: true,
        remove_html_tags: true,
        normalize_whitespace: true,
        remove_special_chars: false,
        preserve_structure: false,
        extract_text_only: true,
        extract_links: true,
        extract_metadata: true,
        follow_charset: true,
    }
}

impl Default for ContentProcessingConfig {
    fn default() -> (r: Self)
        ensures
            r@ == default_content_config(),
    {
        let langs: Vec<String> = vec!["eng".to_string(), "fra".to_string(), "deu".to_string(), "spa".to_string()];
        proof {
            assert(strings_view(langs@) =~= seq!["eng"@, "fra"@, "deu"@, "spa"@]);
        }
        ContentProcessingConfig {
            min_content_length: LimitValue::new(10),
            max_content_length: LimitValue::new(1_000_000),
            processing_timeout: TimeoutDuration::from_secs(30),
            accepted_languages: langs,
            language_detection_enabled: BooleanFlag::enabled(),
            remove_html_tags: BooleanFlag::enabled(),
            normalize_whitespace: BooleanFlag::enabled(),
            remove_special_chars: BooleanFlag::disabled(),
            preserve_structure: BooleanFlag::disabled(),
            extract_text_only: BooleanFlag::enabled(),
            extract_links: BooleanFlag::enabled(),
            extract_metadata: BooleanFlag::enabled(),
            follow_charset: BooleanFlag::enabled(),
        }
    }
}

impl ContentProcessingConfig {
    pub fn builder() -> (r: ContentProcessingConfigBuilder)
        ensures
            r@ == default_content_config(),
    {
        ContentProcessingConfigBuilder::new()
    }

    pub fn min_content_length(&self) -> (r: u64)
        ensures
            r == self@.min_content_length,
    {
        self.min_content_length.value()
    }

    pub fn max_content_length(&self) -> (r: u64)
        ensures
            r == self@.max_content_length,
    {
        self.max_content_length.value()
    }

    pub fn processing_timeout(&self) -> (r: TimeoutDuration)
        ensures
            r@ == self@.processing_timeout_ms,
    {
        self.processing_timeout
    }

    pub fn accepted_languages(&self) -> (r: &Vec<String>)
        ensures
            strings_view(r@) == self@.accepted_languages,
    {
        &self.accepted_languages
    }

    pub fn is_language_detection_enabled(&self) -> (r: bool)
        ensures
            r == self@.language_detection_enabled,
    {
        self.language_detection_enabled.is_enabled()
    }

    pub fn should_remove_html_tags(&self) -> (r: bool)
        ensures
            r == self@.remove_html_tags,
    {
        self.remove_html_tags.is_enabled()
    }

    pub fn should_normalize_whitespace(&self) -> (r: bool)
        ensures
            r == self@.normalize_whitespace,
    {
        self.normalize_whitespace.is_enabled()
    }

    pub fn should_remove_special_chars(&self) -> (r: bool)
        ensures
            r == self@.remove_special_chars,
    {
        self.remove_special_chars.is_enabled()
    }

    pub fn should_preserve_structure(&self) -> (r: bool)
        ensures
            r == self@.preserve_structure,
    {
        self.preserve_structure.is_enabled()
    }

    pub fn should_extract_text_only(&self) -> (r: bool)
        ensures
            r == self@.extract_text_only,
    {
        self.extract_text_only.is_enabled()
    }

    pub fn should_extract_links(&self) -> (r: bool)
        ensures
            r == self@.extract_links,
    {
        self.extract_links.is_enabled()
    }

    pub fn should_extract_metadata(&self) -> (r: bool)
        ensures
            r == self@.extract_metadata,
    {
        self.extract_metadata.is_enabled()
    }

    pub fn should_follow_charset(&self) -> (r: bool)
        ensures
            r == self@.follow_charset,
    {
        self.follow_charset.is_enabled()
    }
}

/// Builds content-processing settings from the defaults.
#[derive(Debug)]
pub struct ContentProcessingConfigBuilder {
    config: ContentProcessingConfig,
}

impl View for ContentProcessingConfigBuilder {
    type V = ContentProcessingConfigView;

    closed spec fn view(&self) -> ContentProcessingConfigView {
        self.config@
    }
}

impl ContentProcessingConfigBuilder {
    pub fn new() -> (r: Self)
        ensures
            r@ == default_content_config(),
    {
        ContentProcessingConfigBuilder { config: ContentProcessingConfig::default() }
    }

    pub fn with_content_length_range(self, min: LimitValue, max: LimitValue) -> (r: Self)
        ensures
            r@ == (ContentProcessingConfigView { min_content_length: min@, max_content_length: max@, ..self@ }),
    {
        let mut c = self.config;
        c.min_content_length = min;
        c.max_content_length = max;
        ContentProcessingConfigBuilder { config: c }
    }

    pub fn with_processing_timeout(self, timeout: TimeoutDuration) -> (r: Self)
        ensures
            r@ == (ContentProcessingConfigView { processing_timeout_ms: timeout@, ..self@ }),
    {
        let mut c = self.config;
        c.processing_timeout = timeout;
        ContentProcessingConfigBuilder { config: c }
    }

    pub fn with_accepted_languages(self, languages: Vec<String>) -> (r: Self)
        ensures
            r@ == (ContentProcessingConfigView { accepted_languages: strings_view(languages@), ..self@ }),
    {
        let mut c = self.config;
        c.accepted_languages = languages;
        ContentProcessingConfigBuilder { config: c }
    }

    pub fn with_language_detection(self, enabled: BooleanFlag) -> (r: Self)
        ensures
            r@ == (ContentProcessingConfigView { language_detection_enabled: enabled@, ..self@ }),
    {
        let mut c = self.config;
        c.language_detection_enabled = enabled;
        ContentProcessingConfigBuilder { config: c }
    }

    pub fn with_html_processing(self, remove_tags: BooleanFlag, normalize_whitespace: BooleanFlag) -> (r: Self)
        ensures
            r@ == (ContentProcessingConfigView {
                remove_html_tags: remove_tags@,
                normalize_whitespace: normalize_whitespace@,
                ..self@
            }),
    {
        let mut c = self.config;
        c.remove_html_tags = remove_tags;
        c.normalize_whitespace = normalize_whitespace;
        ContentProcessingConfigBuilder { config: c }
    }

    pub fn with_text_processing(self, remove_special_chars: BooleanFlag, preserve_structure: BooleanFlag) -> (r: Self)
        ensures
            r@ == (ContentProcessingConfigView {
                remove_special_chars: remove_special_chars@,
                preserve_structure: preserve_structure@,
                ..self@
            }),
    {
        let mut c = self.config;
        c.remove_special_chars = remove_special_chars;
        c.preserve_structure = preserve_structure;
        ContentProcessingConfigBuilder { config: c }
    }

    pub fn with_extraction_settings(
        self,
        text_only: BooleanFlag,
        links: BooleanFlag,
        metadata: BooleanFlag,
        follow_charset: BooleanFlag,
    ) -> (r: Self)
        ensures
            r@ == (ContentProcessingConfigView {
                extract_text_only: text_only@,
                extract_links: links@,
                extract_metadata: metadata@,
                follow_charset: follow_charset@,
                ..self@
            }),
    {
        let mut c = self.config;
        c.extract_text_only = text_only;
        c.extract_links = links;
        c.extract_metadata = metadata;
        c.follow_charset = follow_charset;
        ContentProcessingConfigBuilder { config: c }
    }

    pub fn build(self) -> (r: ContentProcessingConfig)
        ensures
            r@ == self@,
    {
        self.config
    }
}

/// The pattern of a markup tag.
pub open spec fn tag_pattern() -> Seq<char> {
    "<[^>]*>"@
}

/// The pattern of a run of whitespace.
pub open spec fn whitespace_pattern() -> Seq<char> {
    "\\s+"@
}

/// The characters kept when special characters are dropped.
pub open spec fn plain_chars(s: Seq<char>) -> Seq<char> {
    s.filter(|c: char| alphanumeric(c) || is_ws(c))
}

/// The text processed: markup tags replaced by spaces, whitespace runs
/// replaced by one space and the ends trimmed, and special characters
/// dropped, each step when configured.
pub open spec fn processed_text(c: ContentProcessingConfigView, text: Seq<char>) -> Seq<char> {
    let a = if c.remove_html_tags { regex_replaced(tag_pattern(), text, " "@) } else { text };
    let b = if c.normalize_whitespace { trim_seq(regex_replaced(whitespace_pattern(), a, " "@)) } else { a };
    if c.remove_special_chars { plain_chars(b) } else { b }
}

/// The message for processed text shorter than the minimum.
pub open spec fn too_short_text(len: nat, min: u64) -> Seq<char> {
    "Content too short: "@ + decimal(len) + " characters (min: "@ + decimal(min as nat) + ")"@
}

/// Processes fetched content.
#[derive(Debug)]
pub struct ContentProcessor {
    config: ContentProcessingConfig,
}

/// Why a content processor cannot be built: one of its two patterns does
/// not compile.
pub open spec fn processor_error(e: TaskError) -> bool {
    &&& e@.kind == TaskErrorKind::Parse
    &&& (match regex_compile_error(tag_pattern()) {
        Some(m) => e@.message == "Failed to compile HTML regex: "@ + m,
        None => regex_compile_error(whitespace_pattern()) matches Some(m) && e@.message
            == "Failed to compile whitespace regex: "@ + m,
    })
}

impl ContentProcessor {
    pub closed spec fn wf(&self) -> bool {
        regex_compile_error(tag_pattern()) is None && regex_compile_error(whitespace_pattern()) is None
    }

    pub closed spec fn config_spec(&self) -> ContentProcessingConfigView {
        self.config@
    }

    /// A processor with the given settings; fails only when a pattern does
    /// not compile.
    pub fn new(config: ContentProcessingConfig) -> (r: Result<Self, TaskError>)
        ensures
            match r {
                Ok(p) => p.wf() && p.config_spec() == config@,
                Err(e) => processor_error(e) && !(regex_compile_error(tag_pattern()) is None
                    && regex_compile_error(whitespace_pattern()) is None),
            },
    {
        proof {
            reveal_strlit("<[^>]*>");
            reveal_strlit("\\s+");
        }
        match regex_error("<[^>]*>") {
            Some(e) => {
                return Err(TaskError::from_parts(TaskErrorKind::Parse, concat_str("Failed to compile HTML regex: ", e.as_str())));
            },
            None => {},
        }
        match regex_error("\\s+") {
            Some(e) => {
                return Err(
                    TaskError::from_parts(TaskErrorKind::Parse, concat_str("Failed to compile whitespace regex: ", e.as_str())),
                );
            },
            None => {},
        }
        Ok(ContentProcessor { config })
    }

    /// A processor with the default settings.
    pub fn with_defaults() -> (r: Result<Self, TaskError>)
        ensures
            match r {
                Ok(p) => p.wf() && p.config_spec() == default_content_config(),
                Err(e) => processor_error(e),
            },
    {
        Self::new(ContentProcessingConfig::default())
    }

    pub fn config(&self) -> (r: &ContentProcessingConfig)
        ensures
            r@ == self.config_spec(),
    {
        &self.config
    }

    /// Replaces the settings.
    pub fn update_config(&mut self, config: ContentProcessingConfig) -> (r: Result<(), TaskError>)
        requires
            old(self).wf(),
        ensures
            r is Ok,
            final(self).wf(),
            final(self).config_spec() == config@,
    {
        self.config = config;
        Ok(())
    }

    /// Processes plain text (see `processed_text`); text shorter in bytes
    /// than the minimum length is refused.
    pub fn process_text(&self, text: &str) -> (r: Result<String, TaskError>)
        requires
            self.wf(),
        ensures
            ({
                let t = processed_text(self.config_spec(), text@);
                if bytes_of(t).len() < self.config_spec().min_content_length {
                    r matches Err(e) && e@.kind == TaskErrorKind::ContentValidation && e@.message == too_short_text(
                        bytes_of(t).len(),
                        self.config_spec().min_content_length,
                    )
                } else {
                    r matches Ok(s) && s@ == t
                }
            }),
    {
        proof {
            reveal_strlit("<[^>]*>");
            reveal_strlit("\\s+");
        }
        let mut processed = text.to_string();
        if self.config.should_remove_html_tags() {
            processed = replace_all("<[^>]*>", processed.as_str(), " ");
        }
        if self.config.should_normalize_whitespace() {
            let spaced = replace_all("\\s+", processed.as_str(), " ");
            processed = trim_str(spaced.as_str());
        }
        if self.config.should_remove_special_chars() {
            processed = keep_plain_chars(processed.as_str());
        }
        let len = processed.as_str().as_bytes().len();
        let min = self.config.min_content_length();
        if (len as u64) < min {
            let mut m = concat_str("Content too short: ", u64_to_string(len as u64).as_str());
            m.append(" characters (min: ");
            m.append(u64_to_string(min).as_str());
            m.append(")");
            return Err(TaskError::from_parts(TaskErrorKind::ContentValidation, m));
        }
        Ok(processed)
    }
}

/// Keeps the alphanumeric and whitespace characters.
fn keep_plain_chars(s: &str) -> (r: String)
    ensures
        r@ == plain_chars(s@),
{
    let v = chars_of(s);
    let mut r = String::new();
    let mut i: usize = 0;
    proof {
        assert(v@.take(0).filter(|c: char| alphanumeric(c) || is_ws(c)) =~= Seq::<char>::empty());
    }
    while i < v.len()
        invariant
            v@ == s@,
            i <= v@.len(),
            r@ == v@.take(i as int).filter(|c: char| alphanumeric(c) || is_ws(c)),
        decreases v@.len() - i,
    {
        proof {
            assert(v@.take(i + 1).drop_last() =~= v@.take(i as int));
            assert(v@.take(i + 1).last() == v@[i as int]);
            reveal(Seq::filter);
        }
        let c = v[i];
        if is_alphanumeric_char(c) || is_whitespace_char(c) {
            push_char(&mut r, c);
        }
        i = i + 1;
    }
    proof {
        assert(v@.take(v@.len() as int) =~= v@);
    }
    r
}

} // verus!
