//! Storage of crawl results: formats and compression, the storage
//! configuration and where its files go, the record stored for each task,
//! buffering and file rotation, and the CSV and text renderings of stored
//! records. Writing files is the caller's part.
use vstd::prelude::*;
use crate::common::{prefixed_uuid_text, BooleanFlag, LimitValue, SessionId, TaskError, TaskId, UrlString, now_millis, prefixed_uuid};
use crate::crawl_core::types_refactored::{TaskContent, urls_view};
use crate::text_util::{
    clone_pairs, concat_str, decimal, ends_with, has_prefix, has_suffix, opt_seq, pairs_view, push_str, starts_with,
    u64_to_string,
};

verus! {

/// How stored results are written.
#[derive(Clone, Copy, Debug, PartialEq, Eq, Structural)]
pub enum StorageFormat {
    Json,
    JsonLines,
    Csv,
    Txt,
}

pub open spec fn format_extension(f: StorageFormat) -> Seq<char> {
    match f {
        StorageFormat::Json => "json"@,
        StorageFormat::JsonLines => "jsonl"@,
        StorageFormat::Csv => "csv"@,
        StorageFormat::Txt => "txt"@,
    }
}

pub open spec fn format_content_type(f: StorageFormat) -> Seq<char> {
    match f {
        StorageFormat::Json => "application/json"@,
        StorageFormat::JsonLines => "application/x-ndjson"@,
        StorageFormat::Csv => "text/csv"@,
        StorageFormat::Txt => "text/plain"@,
    }
}

impl Default for StorageFormat {
    fn default() -> (r: Self)
        ensures
            r == StorageFormat::Json,
    {
        StorageFormat::Json
    }
}

impl StorageFormat {
    pub fn file_extension(&self) -> (r: &'static str)
        ensures
            r@ == format_extension(*self),
    {
        proof {
            reveal_strlit("json");
            reveal_strlit("jsonl");
            reveal_strlit("csv");
            reveal_strlit("txt");
        }
        match self {
            StorageFormat::Json => "json",
            StorageFormat::JsonLines => "jsonl",
            StorageFormat::Csv => "csv",
            StorageFormat::Txt => "txt",
        }
    }

    pub fn content_type(&self) -> (r: &'static str)
        ensures
            r@ == format_content_type(*self),
    {
        proof {
            reveal_strlit("application/json");
            reveal_strlit("application/x-ndjson");
            reveal_strlit("text/csv");
            reveal_strlit("text/plain");
        }
        match self {
            StorageFormat::Json => "application/json",
            StorageFormat::JsonLines => "application/x-ndjson",
            StorageFormat::Csv => "text/csv",
            StorageFormat::Txt => "text/plain",
        }
    }
}

/// How stored files are compressed.
#[derive(Clone, Copy, Debug, PartialEq, Eq, Structural)]
pub enum CompressionType {
    NoCompression,
    Gzip,
    Zstd,
}

pub open spec fn compression_extension(c: CompressionType) -> Option<Seq<char>> {
    match c {
        CompressionType::NoCompression => None,
        CompressionType::Gzip => Some("gz"@),
        CompressionType::Zstd => Some("zst"@),
    }
}

impl Default for CompressionType {
    fn default() -> (r: Self)
        ensures
            r == CompressionType::NoCompression,
    {
        CompressionType::NoCompression
    }
}

impl CompressionType {
    pub fn file_extension(&self) -> (r: Option<&'static str>)
        ensures
            match r {
                Some(s) => compression_extension(*self) == Some(s@),
                None => compression_extension(*self) is None,
            },
    {
        proof {
            reveal_strlit("gz");
            reveal_strlit("zst");
        }
        match self {
            CompressionType::NoCompression => None,
            CompressionType::Gzip => Some("gz"),
            CompressionType::Zstd => Some("zst"),
        }
    }
}

/// Joining a path component to a directory, for the `/`-separated paths
/// this library handles: an absolute component (starting with `/`) replaces
/// the path; an empty directory gives the component; otherwise the two are
/// joined with one `/`.
pub open spec fn path_joined(base: Seq<char>, part: Seq<char>) -> Seq<char> {
    if part.len() > 0 && part[0] == '/' {
        part
    } else if base.len() == 0 {
        part
    } else if base.last() == '/' {
        base + part
    } else {
        base + "/"@ + part
    }
}

/// Joins a path component to a directory (see `path_joined`).
pub fn join_path(base: &str, part: &str) -> (r: String)
    ensures
        r@ == path_joined(base@, part@),
{
    proof {
        reveal_strlit("/");
        assert("/"@ =~= seq!['/']);
        if part@.len() > 0 {
            assert(part@.subrange(0, 1)[0] == part@[0]);
            if part@[0] == '/' {
                assert(part@.subrange(0, 1) =~= "/"@);
            }
        }
        if base@.len() > 0 {
            assert(base@.subrange(base@.len() - 1, base@.len() as int)[0] == base@.last());
            if base@.last() == '/' {
                assert(base@.subrange(base@.len() - 1, base@.len() as int) =~= "/"@);
            }
        }
        assert(has_prefix(part@, "/"@) <==> (part@.len() > 0 && part@[0] == '/'));
        assert(has_suffix(base@, "/"@) <==> (base@.len() > 0 && base@.last() == '/'));
    }
    if starts_with(part, "/") {
        part.to_string()
    } else if base.unicode_len() == 0 {
        part.to_string()
    } else if ends_with(base, "/") {
        concat_str(base, part)
    } else {
        let mut s = concat_str(base, "/");
        s.append(part);
        s
    }
}

/// Abstract content of a storage configuration (and its builder).
pub struct StorageConfigView {
    pub output_directory: Seq<char>,
    pub storage_format: StorageFormat,
    pub compression: CompressionType,
    pub max_file_size: u64,
    pub rotate_files: bool,
    pub files_per_session: u64,
    pub create_directories: bool,
    pub include_content: bool,
    pub include_metadata: bool,
    pub include_links: bool,
    pub pretty_print: bool,
    pub buffer_size: u64,
    pub flush_frequency: u64,
    pub session_id: Seq<char>,
    pub use_session_subdirectory: bool,
}

/// The default storage settings for a session: JSON files without
/// compression under `./crawl_data`, rotated at 100 MiB, ten files per
/// session, everything included and pretty-printed, an 8 KiB buffer flushed
/// every hundred records, in a per-session subdirectory.
pub open spec fn default_storage_config(session_id: Seq<char>) -> StorageConfigView {
    StorageConfigView {
        output_directory: "./crawl_data"@,
        storage_format: StorageFormat::Json,
        compression: CompressionType::NoCompression,
        max_file_size: 104857600,
        rotate_files: true,
        files_per_session: 10,
        create_directories: true,
        include_content: true,
        include_metadata: true,
        include_links: true,
        pretty_print: true,
        buffer_size: 8192,
        flush_frequency: 100,
        session_id,
        use_session_subdirectory: true,
    }
}

/// The directory files go to.
pub open spec fn storage_directory(c: StorageConfigView) -> Seq<char> {
    if c.use_session_subdirectory {
        path_joined(c.output_directory, c.session_id)
    } else {
        c.output_directory
    }
}

/// The file name for a base name: `<base>.<format ext>[.<compression ext>]`.
pub open spec fn storage_file_name(c: StorageConfigView, base_name: Seq<char>) -> Seq<char> {
    let name = base_name + "."@ + format_extension(c.storage_format);
    match compression_extension(c.compression) {
        Some(ext) => name + "."@ + ext,
        None => name,
    }
}

/// Where storage settings put results.
#[derive(Debug)]
pub struct StorageConfig {
    output_directory: String,
    storage_format: StorageFormat,
    compression: CompressionType,
    max_file_size: LimitValue,
    rotate_files: BooleanFlag,
    files_per_session: LimitValue,
    create_directories: BooleanFlag,
    include_content: BooleanFlag,
    include_metadata: BooleanFlag,
    include_links: BooleanFlag,
    pretty_print: BooleanFlag,
    buffer_size: LimitValue,
    flush_frequency: LimitValue,
    session_id: SessionId,
    use_session_subdirectory: BooleanFlag,
}

impl View for StorageConfig {
    type V = StorageConfigView;

    closed spec fn view(&self) -> StorageConfigView {
        StorageConfigView {
            output_directory: self.output_directory@,
            storage_format: self.storage_format,
            compression: self.compression,
            max_file_size: self.max_file_size@,
            rotate_files: self.rotate_files@,
            files_per_session: self.files_per_session@,
            create_directories: self.create_directories@,
            include_content: self.include_content@,
            include_metadata: self.include_metadata@,
            include_links: self.include_links@,
            pretty_print: self.pretty_print@,
            buffer_size: self.buffer_size@,
            flush_frequency: self.flush_frequency@,
            session_id: self.session_id@,
            use_session_subdirectory: self.use_session_subdirectory@,
        }
    }
}

impl StorageConfig {
    pub fn builder() -> (r: StorageConfigBuilder)
        ensures
            r@ == default_storage_config(r@.session_id),
            prefixed_uuid_text(r@.session_id, "storage_"@),
    {
        StorageConfigBuilder::new()
    }

    pub fn output_directory(&self) -> (r: &str)
        ensures
            r@ == self@.output_directory,
    {
        self.output_directory.as_str()
    }

    pub fn storage_format(&self) -> (r: StorageFormat)
        ensures
            r == self@.storage_format,
    {
        self.storage_format
    }

    pub fn compression(&self) -> (r: CompressionType)
        ensures
            r == self@.compression,
    {
        self.compression
    }

    pub fn max_file_size(&self) -> (r: u64)
        ensures
            r == self@.max_file_size,
    {
        self.max_file_size.value()
    }

    pub fn should_rotate_files(&self) -> (r: bool)
        ensures
            r == self@.rotate_files,
    {
        self.rotate_files.is_enabled()
    }

    pub fn files_per_session(&self) -> (r: u64)
        ensures
            r == self@.files_per_session,
    {
        self.files_per_session.value()
    }

    pub fn should_create_directories(&self) -> (r: bool)
        ensures
            r == self@.create_directories,
    {
        self.create_directories.is_enabled()
    }

    pub fn should_include_content(&self) -> (r: bool)
        ensures
            r == self@.include_content,
    {
        self.include_content.is_enabled()
    }

    pub fn should_include_metadata(&self) -> (r: bool)
        ensures
            r == self@.include_metadata,
    {
        self.include_metadata.is_enabled()
    }

    pub fn should_include_links(&self) -> (r: bool)
        ensures
            r == self@.include_links,
    {
        self.include_links.is_enabled()
    }

    pub fn should_pretty_print(&self) -> (r: bool)
        ensures
            r == self@.pretty_print,
    {
        self.pretty_print.is_enabled()
    }

    pub fn buffer_size(&self) -> (r: u64)
        ensures
            r == self@.buffer_size,
    {
        self.buffer_size.value()
    }

    pub fn flush_frequency(&self) -> (r: u64)
        ensures
            r == self@.flush_frequency,
    {
        self.flush_frequency.value()
    }

    pub fn session_id(&self) -> (r: &SessionId)
        ensures
            r@ == self@.session_id,
    {
        &self.session_id
    }

    pub fn should_use_session_subdirectory(&self) -> (r: bool)
        ensures
            r == self@.use_session_subdirectory,
    {
        self.use_session_subdirectory.is_enabled()
    }

    /// The directory files go to: the output directory, or the session's
    /// subdirectory of it.
    pub fn storage_directory(&self) -> (r: String)
        ensures
            r@ == storage_directory(self@),
    {
        if self.should_use_session_subdirectory() {
            join_path(self.output_directory.as_str(), self.session_id.as_str())
        } else {
            self.output_directory.clone()
        }
    }

    /// The full path of the file with this base name, with the format's
    /// extension and, when compressed, the compression's.
    pub fn get_file_path(&self, base_name: &str) -> (r: String)
        ensures
            r@ == path_joined(storage_directory(self@), storage_file_name(self@, base_name@)),
    {
        let dir = self.storage_directory();
        let mut filename = concat_str(base_name, ".");
        filename.append(self.storage_format.file_extension());
        match self.compression.file_extension() {
            Some(ext) => {
                filename.append(".");
                filename.append(ext);
            },
            None => {},
        }
        proof {
            reveal_strlit(".");
        }
        join_path(dir.as_str(), filename.as_str())
    }
}

impl Clone for StorageConfig {
    fn clone(&self) -> (r: Self)
        ensures
            r@ == self@,
    {
        StorageConfig {
            output_directory: self.output_directory.clone(),
            session_id: self.session_id.clone(),
            ..*self
        }
    }
}

impl Default for StorageConfig {
    fn default() -> (r: Self)
        ensures
            r@ == default_storage_config(r@.session_id),
            prefixed_uuid_text(r@.session_id, "storage_"@),
    {
        StorageConfigBuilder::new().build()
    }
}

/// Builder of a storage configuration.
#[derive(Debug)]
pub struct StorageConfigBuilder {
    config: StorageConfig,
}

impl View for StorageConfigBuilder {
    type V = StorageConfigView;

    closed spec fn view(&self) -> StorageConfigView {
        self.config@
    }
}

impl StorageConfigBuilder {
    /// The default settings, with a fresh identifier `storage_<uuid>`.
    pub fn new() -> (r: Self)
        ensures
            r@ == default_storage_config(r@.session_id),
            prefixed_uuid_text(r@.session_id, "storage_"@),
    {
        proof {
            reveal_strlit("./crawl_data");
            reveal_strlit("storage_");
        }
        StorageConfigBuilder {
            config: StorageConfig {
                output_directory: "./crawl_data".to_string(),
                storage_format: StorageFormat::Json,
                compression: CompressionType::NoCompression,
                max_file_size: LimitValue::new(104857600),
                rotate_files: BooleanFlag::enabled(),
                files_per_session: LimitValue::new(10),
                create_directories: BooleanFlag::enabled(),
                include_content: BooleanFlag::enabled(),
                include_metadata: BooleanFlag::enabled(),
                include_links: BooleanFlag::enabled(),
                pretty_print: BooleanFlag::enabled(),
                buffer_size: LimitValue::new(8192),
                flush_frequency: LimitValue::new(100),
                session_id: SessionId::from_string(prefixed_uuid("storage_")),
                use_session_subdirectory: BooleanFlag::enabled(),
            },
        }
    }

    pub fn with_output_directory(self, directory: String) -> (r: Self)
        ensures
            r@ == (StorageConfigView { output_directory: directory@, ..self@ }),
    {
        let mut this = self;
        this.config.output_directory = directory;
        this
    }

    pub fn with_storage_format(self, format: StorageFormat) -> (r: Self)
        ensures
            r@ == (StorageConfigView { storage_format: format, ..self@ }),
    {
        let mut this = self;
        this.config.storage_format = format;
        this
    }

    pub fn with_compression(self, compression: CompressionType) -> (r: Self)
        ensures
            r@ == (StorageConfigView { compression, ..self@ }),
    {
        let mut this = self;
        this.config.compression = compression;
        this
    }

    pub fn with_file_management(
        self,
        max_size: LimitValue,
        rotate: BooleanFlag,
        files_per_session: LimitValue,
    ) -> (r: Self)
        ensures
            r@ == (StorageConfigView {
                max_file_size: max_size@,
                rotate_files: rotate@,
                files_per_session: files_per_session@,
                ..self@
            }),
    {
        let mut this = self;
        this.config.max_file_size = max_size;
        this.config.rotate_files = rotate;
        this.config.files_per_session = files_per_session;
        this
    }

    pub fn with_content_options(
        self,
        include_content: BooleanFlag,
        include_metadata: BooleanFlag,
        include_links: BooleanFlag,
        pretty_print: BooleanFlag,
    ) -> (r: Self)
        ensures
            r@ == (StorageConfigView {
                include_content: include_content@,
                include_metadata: include_metadata@,
                include_links: include_links@,
                pretty_print: pretty_print@,
                ..self@
            }),
    {
        let mut this = self;
        this.config.include_content = include_content;
        this.config.include_metadata = include_metadata;
        this.config.include_links = include_links;
        this.config.pretty_print = pretty_print;
        this
    }

    pub fn with_performance_settings(self, buffer_size: LimitValue, flush_frequency: LimitValue) -> (r: Self)
        ensures
            r@ == (StorageConfigView {
                buffer_size: buffer_size@,
                flush_frequency: flush_frequency@,
                ..self@
            }),
    {
        let mut this = self;
        this.config.buffer_size = buffer_size;
        this.config.flush_frequency = flush_frequency;
        this
    }

    pub fn with_session_id(self, session_id: SessionId) -> (r: Self)
        ensures
            r@ == (StorageConfigView { session_id: session_id@, ..self@ }),
    {
        let mut this = self;
        this.config.session_id = session_id;
        this
    }

    pub fn with_session_subdirectory(self, enabled: BooleanFlag) -> (r: Self)
        ensures
            r@ == (StorageConfigView { use_session_subdirectory: enabled@, ..self@ }),
    {
        let mut this = self;
        this.config.use_session_subdirectory = enabled;
        this
    }

    pub fn build(self) -> (r: StorageConfig)
        ensures
            r@ == self@,
    {
        self.config
    }
}

impl Default for StorageConfigBuilder {
    fn default() -> (r: Self)
        ensures
            r@ == default_storage_config(r@.session_id),
            prefixed_uuid_text(r@.session_id, "storage_"@),
    {
        Self::new()
    }
}

/// Abstract content of a stored result. The timestamp is milliseconds
/// since the Unix epoch.
pub struct StoredCrawlResultView {
    pub task_id: Seq<char>,
    pub url: Seq<char>,
    pub timestamp: u64,
    pub content: Option<Seq<char>>,
    pub content_type: Option<Seq<char>>,
    pub content_length: u64,
    pub metadata: Seq<(Seq<char>, Seq<char>)>,
    pub links: Seq<Seq<char>>,
    pub processing_time_ms: u64,
    pub success: bool,
    pub error_message: Option<Seq<char>>,
}

/// The record stored for one task.
#[derive(Debug)]
pub struct StoredCrawlResult {
    task_id: TaskId,
    url: UrlString,
    timestamp: u64,
    content: Option<String>,
    content_type: Option<String>,
    content_length: u64,
    metadata: Vec<(String, String)>,
    links: Vec<UrlString>,
    processing_time_ms: u64,
    success: bool,
    error_message: Option<String>,
}

impl View for StoredCrawlResult {
    type V = StoredCrawlResultView;

    closed spec fn view(&self) -> StoredCrawlResultView {
        StoredCrawlResultView {
            task_id: self.task_id@,
            url: self.url@,
            timestamp: self.timestamp,
            content: opt_seq(self.content),
            content_type: opt_seq(self.content_type),
            content_length: self.content_length,
            metadata: pairs_view(self.metadata@),
            links: urls_view(self.links@),
            processing_time_ms: self.processing_time_ms,
            success: self.success,
            error_message: opt_seq(self.error_message),
        }
    }
}

fn clone_urls(v: &[UrlString]) -> (r: Vec<UrlString>)
    ensures
        urls_view(r@) == urls_view(v@),
{
    let mut r: Vec<UrlString> = Vec::new();
    let mut i: usize = 0;
    while i < v.len()
        invariant
            i <= v@.len(),
            r@.len() == i,
            forall|j: int| 0 <= j < i ==> r@[j]@ == v@[j]@,
        decreases v@.len() - i,
    {
        r.push(v[i].clone());
        i = i + 1;
    }
    proof {
        assert(urls_view(r@) =~= urls_view(v@));
    }
    r
}

impl StoredCrawlResult {
    /// The record of a task's result under a storage configuration. Only a
    /// successful task stores content: its text (when content is included),
    /// type, length, metadata (when included) and links (when included). The
    /// error message is the task error's message.
    pub fn from_task_result(
        task_id: &TaskId,
        url: &UrlString,
        content: Option<&TaskContent>,
        success: bool,
        error: Option<&TaskError>,
        processing_time_ms: u64,
        config: &StorageConfig,
    ) -> (r: Self)
        ensures
            r@.task_id == task_id@,
            r@.url == url@,
            r@.processing_time_ms == processing_time_ms,
            r@.success == success,
            r@.error_message == (match error {
                Some(e) => Some(e@.message),
                None => None::<Seq<char>>,
            }),
            (success && content is Some) ==> ({
                let c = content->0@;
                &&& r@.content == (if config@.include_content { Some(c.text) } else { None::<Seq<char>> })
                &&& r@.content_type == Some(c.content_type)
                &&& r@.content_length == c.content_length
                &&& r@.metadata == (if config@.include_metadata { c.metadata } else { Seq::empty() })
                &&& r@.links == (if config@.include_links { c.links } else { Seq::empty() })
            }),
            !(success && content is Some) ==> r@.content is None && r@.content_type is None
                && r@.content_length == 0 && r@.metadata.len() == 0 && r@.links.len() == 0,
    {
        let data = if success { content } else { None };
        let mut r = StoredCrawlResult {
            task_id: task_id.clone(),
            url: url.clone(),
            timestamp: now_millis(),
            content: None,
            content_type: None,
            content_length: 0,
            metadata: Vec::new(),
            links: Vec::new(),
            processing_time_ms,
            success,
            error_message: match error {
                Some(e) => Some(e.message().to_string()),
                None => None,
            },
        };
        match data {
            Some(c) => {
                if config.should_include_content() {
                    r.content = Some(c.text().to_string());
                }
                r.content_type = Some(c.content_type().to_string());
                r.content_length = c.content_length();
                if config.should_include_metadata() {
                    r.metadata = clone_pairs(c.metadata());
                }
                if config.should_include_links() {
                    r.links = clone_urls(c.links());
                }
            },
            None => {},
        }
        proof {
            if !(success && content is Some) {
                assert(pairs_view(r.metadata@).len() == 0);
                assert(urls_view(r.links@).len() == 0);
            } else {
                if !config@.include_metadata {
                    assert(pairs_view(r.metadata@) =~= Seq::empty());
                }
                if !config@.include_links {
                    assert(urls_view(r.links@) =~= Seq::empty());
                }
            }
        }
        r
    }

    pub fn task_id(&self) -> (r: &TaskId)
        ensures
            r@ == self@.task_id,
    {
        &self.task_id
    }

    pub fn url(&self) -> (r: &UrlString)
        ensures
            r@ == self@.url,
    {
        &self.url
    }

    /// When the record was made, in milliseconds since the Unix epoch.
    pub fn timestamp(&self) -> (r: u64)
        ensures
            r == self@.timestamp,
    {
        self.timestamp
    }

    pub fn content(&self) -> (r: Option<&str>)
        ensures
            match r {
                Some(s) => self@.content == Some(s@),
                None => self@.content is None,
            },
    {
        match &self.content {
            Some(s) => Some(s.as_str()),
            None => None,
        }
    }

    pub fn content_type(&self) -> (r: Option<&str>)
        ensures
            match r {
                Some(s) => self@.content_type == Some(s@),
                None => self@.content_type is None,
            },
    {
        match &self.content_type {
            Some(s) => Some(s.as_str()),
            None => None,
        }
    }

    pub fn content_length(&self) -> (r: u64)
        ensures
            r == self@.content_length,
    {
        self.content_length
    }

    pub fn metadata(&self) -> (r: &Vec<(String, String)>)
        ensures
            pairs_view(r@) == self@.metadata,
    {
        &self.metadata
    }

    pub fn links(&self) -> (r: &[UrlString])
        ensures
            urls_view(r@) == self@.links,
    {
        self.links.as_slice()
    }

    pub fn processing_time_ms(&self) -> (r: u64)
        ensures
            r == self@.processing_time_ms,
    {
        self.processing_time_ms
    }

    pub fn success(&self) -> (r: bool)
        ensures
            r == self@.success,
    {
        self.success
    }

    pub fn error_message(&self) -> (r: Option<&str>)
        ensures
            match r {
                Some(s) => self@.error_message == Some(s@),
                None => self@.error_message is None,
            },
    {
        match &self.error_message {
            Some(s) => Some(s.as_str()),
            None => None,
        }
    }
}

/// A decimal number padded with zeros to at least four digits.
pub open spec fn pad4(n: nat) -> Seq<char> {
    let d = decimal(n);
    if d.len() >= 4 { d } else { Seq::new((4 - d.len()) as nat, |i: int| '0') + d }
}

/// The base name of the file with this rotation index: `crawl_results_`
/// followed by the index in four digits at least.
pub open spec fn rotated_base_name(index: u64) -> Seq<char> {
    "crawl_results_"@ + pad4(index as nat)
}

fn padded_index(index: u64) -> (r: String)
    ensures
        r@ == pad4(index as nat),
{
    let d = u64_to_string(index);
    let n = d.unicode_len();
    if n >= 4 {
        return d;
    }
    let mut s = String::new();
    let mut k: usize = 0;
    while k < 4 - n
        invariant
            n < 4,
            k <= 4 - n,
            s@ == Seq::new(k as nat, |i: int| '0'),
        decreases 4 - n - k,
    {
        crate::text_util::push_char(&mut s, '0');
        proof {
            assert(s@ =~= Seq::new((k + 1) as nat, |i: int| '0'));
        }
        k = k + 1;
    }
    s.append(d.as_str());
    s
}

/// Text of a boolean as `{}` prints it.
pub open spec fn bool_text(b: bool) -> Seq<char> {
    if b { "true"@ } else { "false"@ }
}

fn bool_str(b: bool) -> (r: &'static str)
    ensures
        r@ == bool_text(b),
{
    proof {
        reveal_strlit("true");
        reveal_strlit("false");
    }
    if b { "true" } else { "false" }
}

/// The text of an optional string, or nothing.
pub open spec fn or_empty(o: Option<Seq<char>>) -> Seq<char> {
    match o {
        Some(s) => s,
        None => Seq::empty(),
    }
}

/// The CSV header line.
pub open spec fn csv_header() -> Seq<char> {
    "task_id,url,timestamp,content_type,content_length,processing_time_ms,success,error_message\n"@
}

/// One CSV line of a stored record; the timestamp is in whole seconds.
pub open spec fn csv_line(r: StoredCrawlResultView) -> Seq<char> {
    r.task_id + ","@ + r.url + ","@ + decimal((r.timestamp / 1000) as nat) + ","@ + or_empty(
        r.content_type,
    ) + ","@ + decimal(r.content_length as nat) + ","@ + decimal(r.processing_time_ms as nat)
        + ","@ + bool_text(r.success) + ","@ + or_empty(r.error_message) + "\n"@
}

/// The text block of a stored record.
pub open spec fn txt_block(r: StoredCrawlResultView) -> Seq<char> {
    "URL: "@ + r.url + "\nSuccess: "@ + bool_text(r.success) + "\nContent Length: "@ + decimal(
        r.content_length as nat,
    ) + "\nProcessing Time: "@ + decimal(r.processing_time_ms as nat) + "ms\n"@ + (match r.error_message {
        Some(e) => "Error: "@ + e + "\n"@,
        None => Seq::empty(),
    }) + "---\n"@
}

/// The concatenation of the renderings of a list of records.
pub open spec fn rendered(v: Seq<StoredCrawlResult>, f: spec_fn(StoredCrawlResultView) -> Seq<char>) -> Seq<char>
    decreases v.len(),
{
    if v.len() == 0 {
        Seq::empty()
    } else {
        rendered(v.drop_last(), f) + f(v.last()@)
    }
}

fn csv_line_of(r: &StoredCrawlResult) -> (s: String)
    ensures
        s@ == csv_line(r@),
{
    let mut s = concat_str(r.task_id.as_str(), ",");
    s.append(r.url.as_str());
    s.append(",");
    s.append(u64_to_string(r.timestamp / 1000).as_str());
    s.append(",");
    match &r.content_type {
        Some(c) => s.append(c.as_str()),
        None => {},
    }
    s.append(",");
    s.append(u64_to_string(r.content_length).as_str());
    s.append(",");
    s.append(u64_to_string(r.processing_time_ms).as_str());
    s.append(",");
    s.append(bool_str(r.success));
    s.append(",");
    match &r.error_message {
        Some(e) => s.append(e.as_str()),
        None => {},
    }
    s.append("\n");
    proof {
        reveal_strlit(",");
        reveal_strlit("\n");
        assert(s@ =~= csv_line(r@));
    }
    s
}

fn txt_block_of(r: &StoredCrawlResult) -> (s: String)
    ensures
        s@ == txt_block(r@),
{
    let mut s = concat_str("URL: ", r.url.as_str());
    s.append("\nSuccess: ");
    s.append(bool_str(r.success));
    s.append("\nContent Length: ");
    s.append(u64_to_string(r.content_length).as_str());
    s.append("\nProcessing Time: ");
    s.append(u64_to_string(r.processing_time_ms).as_str());
    s.append("ms\n");
    match &r.error_message {
        Some(e) => {
            s.append("Error: ");
            s.append(e.as_str());
            s.append("\n");
        },
        None => {},
    }
    s.append("---\n");
    proof {
        reveal_strlit("URL: ");
        reveal_strlit("\nSuccess: ");
        reveal_strlit("\nContent Length: ");
        reveal_strlit("\nProcessing Time: ");
        reveal_strlit("ms\n");
        reveal_strlit("Error: ");
        reveal_strlit("\n");
        reveal_strlit("---\n");
        assert(s@ =~= txt_block(r@));
    }
    s
}

/// The CSV text of a list of records: the header line when the file is new,
/// then one line per record.
pub fn csv_text(records: &Vec<StoredCrawlResult>, with_header: bool) -> (s: String)
    ensures
        s@ == (if with_header { csv_header() } else { Seq::empty() }) + rendered(
            records@,
            |r: StoredCrawlResultView| csv_line(r),
        ),
{
    let mut s = String::new();
    if with_header {
        s.append("task_id,url,timestamp,content_type,content_length,processing_time_ms,success,error_message\n");
        proof {
            reveal_strlit("task_id,url,timestamp,content_type,content_length,processing_time_ms,success,error_message\n");
        }
    }
    let ghost head = s@;
    let mut i: usize = 0;
    while i < records.len()
        invariant
            i <= records@.len(),
            s@ == head + rendered(records@.take(i as int), |r: StoredCrawlResultView| csv_line(r)),
        decreases records@.len() - i,
    {
        let line = csv_line_of(&records[i]);
        s.append(line.as_str());
        proof {
            assert(records@.take(i as int + 1).drop_last() =~= records@.take(i as int));
        }
        i = i + 1;
    }
    proof {
        assert(records@.take(records@.len() as int) =~= records@);
    }
    s
}

/// The plain-text rendering of a list of records, one block each.
pub fn txt_text(records: &Vec<StoredCrawlResult>) -> (s: String)
    ensures
        s@ == rendered(records@, |r: StoredCrawlResultView| txt_block(r)),
{
    let mut s = String::new();
    let mut i: usize = 0;
    while i < records.len()
        invariant
            i <= records@.len(),
            s@ == rendered(records@.take(i as int), |r: StoredCrawlResultView| txt_block(r)),
        decreases records@.len() - i,
    {
        let block = txt_block_of(&records[i]);
        s.append(block.as_str());
        proof {
            assert(records@.take(i as int + 1).drop_last() =~= records@.take(i as int));
        }
        i = i + 1;
    }
    proof {
        assert(records@.take(records@.len() as int) =~= records@);
    }
    s
}

/// Counts of a storage's writes.
#[derive(Debug)]
pub struct StorageStatistics {
    records_written: u64,
    files_created: u64,
    session_id: SessionId,
    storage_format: StorageFormat,
    compression: CompressionType,
}

/// Abstract content of storage statistics.
pub struct StorageStatisticsView {
    pub records_written: u64,
    pub files_created: u64,
    pub session_id: Seq<char>,
    pub storage_format: StorageFormat,
    pub compression: CompressionType,
}

impl View for StorageStatistics {
    type V = StorageStatisticsView;

    closed spec fn view(&self) -> StorageStatisticsView {
        StorageStatisticsView {
            records_written: self.records_written,
            files_created: self.files_created,
            session_id: self.session_id@,
            storage_format: self.storage_format,
            compression: self.compression,
        }
    }
}

impl StorageStatistics {
    pub fn records_written(&self) -> (r: u64)
        ensures
            r == self@.records_written,
    {
        self.records_written
    }

    pub fn files_created(&self) -> (r: u64)
        ensures
            r == self@.files_created,
    {
        self.files_created
    }

    pub fn session_id(&self) -> (r: &SessionId)
        ensures
            r@ == self@.session_id,
    {
        &self.session_id
    }

    pub fn storage_format(&self) -> (r: StorageFormat)
        ensures
            r == self@.storage_format,
    {
        self.storage_format
    }

    pub fn compression(&self) -> (r: CompressionType)
        ensures
            r == self@.compression,
    {
        self.compression
    }
}

/// Abstract content of a data storage: its configuration, rotation index,
/// the buffered records and how many were written.
pub struct DataStorageView {
    pub config: StorageConfigView,
    pub current_file_index: u64,
    pub buffer: Seq<StoredCrawlResultView>,
    pub records_written: u64,
}

/// The buffering and file bookkeeping of result storage.
#[derive(Debug)]
pub struct DataStorage {
    config: StorageConfig,
    current_file_index: u64,
    write_buffer: Vec<StoredCrawlResult>,
    records_written: u64,
}

pub open spec fn records_view(v: Seq<StoredCrawlResult>) -> Seq<StoredCrawlResultView> {
    v.map_values(|r: StoredCrawlResult| r@)
}

/// The base name of the current file: numbered when files rotate.
pub open spec fn current_base_name(v: DataStorageView) -> Seq<char> {
    if v.config.rotate_files { rotated_base_name(v.current_file_index) } else { "crawl_results"@ }
}

impl View for DataStorage {
    type V = DataStorageView;

    closed spec fn view(&self) -> DataStorageView {
        DataStorageView {
            config: self.config@,
            current_file_index: self.current_file_index,
            buffer: records_view(self.write_buffer@),
            records_written: self.records_written,
        }
    }
}

impl DataStorage {
    pub fn new(config: StorageConfig) -> (r: Self)
        ensures
            r@.config == config@,
            r@.current_file_index == 0,
            r@.buffer.len() == 0,
            r@.records_written == 0,
    {
        DataStorage { config, current_file_index: 0, write_buffer: Vec::new(), records_written: 0 }
    }

    pub fn with_defaults() -> (r: Self)
        ensures
            r@.config == default_storage_config(r@.config.session_id),
            r@.current_file_index == 0,
            r@.buffer.len() == 0,
            r@.records_written == 0,
    {
        Self::new(StorageConfig::default())
    }

    pub fn config(&self) -> (r: &StorageConfig)
        ensures
            r@ == self@.config,
    {
        &self.config
    }

    /// Buffers a record; returns whether the buffer has reached the flush
    /// frequency and should be flushed.
    pub fn store_result(&mut self, result: StoredCrawlResult) -> (r: bool)
        ensures
            final(self)@ == (DataStorageView { buffer: old(self)@.buffer.push(result@), ..old(self)@ }),
            r == (final(self)@.buffer.len() >= old(self)@.config.flush_frequency),
    {
        let ghost rv = result@;
        self.write_buffer.push(result);
        proof {
            assert(records_view(self.write_buffer@) =~= records_view(old(self).write_buffer@).push(rv));
        }
        self.write_buffer.len() as u64 >= self.config.flush_frequency()
    }

    /// The records waiting to be written.
    pub fn pending(&self) -> (r: &Vec<StoredCrawlResult>)
        ensures
            records_view(r@) == self@.buffer,
    {
        &self.write_buffer
    }

    /// After the pending records were written: they count as written and
    /// the buffer empties.
    pub fn mark_flushed(&mut self)
        requires
            old(self)@.records_written + old(self)@.buffer.len() <= u64::MAX,
        ensures
            final(self)@ == (DataStorageView {
                buffer: Seq::empty(),
                records_written: (old(self)@.records_written + old(self)@.buffer.len()) as u64,
                ..old(self)@
            }),
    {
        let n = self.write_buffer.len() as u64;
        self.records_written = self.records_written + n;
        self.write_buffer = Vec::new();
        proof {
            assert(records_view(self.write_buffer@) =~= Seq::empty());
        }
    }

    /// The base name of the current file.
    pub fn current_base_name(&self) -> (r: String)
        ensures
            r@ == current_base_name(self@),
    {
        if self.config.should_rotate_files() {
            let mut s = "crawl_results_".to_string();
            s.append(padded_index(self.current_file_index).as_str());
            proof {
                reveal_strlit("crawl_results_");
            }
            s
        } else {
            proof {
                reveal_strlit("crawl_results");
            }
            "crawl_results".to_string()
        }
    }

    /// The path to write to, given the size of the current file (`None`
    /// when it does not exist yet): when files rotate and the current file
    /// has reached the maximum size, the next file is started.
    pub fn file_path_for_write(&mut self, current_size: Option<u64>) -> (r: String)
        requires
            old(self)@.current_file_index < u64::MAX,
        ensures
            ({
                let rotate = old(self)@.config.rotate_files && current_size is Some
                    && current_size->0 >= old(self)@.config.max_file_size;
                &&& final(self)@ == (DataStorageView {
                    current_file_index: if rotate {
                        (old(self)@.current_file_index + 1) as u64
                    } else {
                        old(self)@.current_file_index
                    },
                    ..old(self)@
                })
                &&& r@ == path_joined(
                    storage_directory(old(self)@.config),
                    storage_file_name(old(self)@.config, current_base_name(final(self)@)),
                )
            }),
    {
        let rotate = self.config.should_rotate_files() && match current_size {
            Some(size) => size >= self.config.max_file_size(),
            None => false,
        };
        if rotate {
            self.current_file_index = self.current_file_index + 1;
        }
        let base = self.current_base_name();
        self.config.get_file_path(base.as_str())
    }

    /// The storage's counts: records written, and files created (the
    /// rotation index plus one).
    pub fn statistics(&self) -> (r: StorageStatistics)
        requires
            self@.current_file_index < u64::MAX,
        ensures
            r@.records_written == self@.records_written,
            r@.files_created == self@.current_file_index + 1,
            r@.session_id == self@.config.session_id,
            r@.storage_format == self@.config.storage_format,
            r@.compression == self@.config.compression,
    {
        StorageStatistics {
            records_written: self.records_written,
            files_created: self.current_file_index + 1,
            session_id: self.config.session_id().clone(),
            storage_format: self.config.storage_format(),
            compression: self.config.compression(),
        }
    }
}

impl Default for DataStorage {
    fn default() -> (r: Self)
        ensures
            r@.buffer.len() == 0,
            r@.records_written == 0,
    {
        Self::with_defaults()
    }
}

/// Every record stored is written exactly once: after a flush the buffer is
/// empty and the written count grew by what it held.
pub proof fn lemma_flush_accounts_for_buffer(v: DataStorageView)
    requires
        v.records_written + v.buffer.len() <= u64::MAX,
    ensures
        ({
            let after = DataStorageView {
                buffer: Seq::empty(),
                records_written: (v.records_written + v.buffer.len()) as u64,
                ..v
            };
            after.records_written + after.buffer.len() == v.records_written + v.buffer.len()
        }),
{
}

} // verus!
