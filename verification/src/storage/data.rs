//! Stored crawl results: their formats, file names, CSV rows and the
//! analytics drawn from a set of them. Times are seconds since the Unix
//! epoch.
use vstd::prelude::*;
use crate::assoc::{assoc_get, assoc_insert, assoc_view, keys_unique, lemma_assoc_len};
use crate::storage::metrics_refactored::{is_top_counts, top_by_count};
use crate::text_util::{decimal, u64_to_string};
use crate::web_url::{opt_text, parse_url, url_parse_result};

verus! {

/// How results are written.
#[derive(Debug, Clone, Copy, PartialEq, Eq, Structural)]
pub enum OutputFormat {
    Json,
    Jsonl,
    Csv,
    Parquet,
}

pub open spec fn format_extension(f: OutputFormat) -> Seq<char> {
    match f {
        OutputFormat::Json => "json"@,
        OutputFormat::Jsonl => "jsonl"@,
        OutputFormat::Csv => "csv"@,
        OutputFormat::Parquet => "parquet"@,
    }
}

impl OutputFormat {
    /// The file extension of the format.
    pub fn extension(&self) -> (r: &'static str)
        ensures
            r@ == format_extension(*self),
    {
        match self {
            OutputFormat::Json => "json",
            OutputFormat::Jsonl => "jsonl",
            OutputFormat::Csv => "csv",
            OutputFormat::Parquet => "parquet",
        }
    }
}

/// Facts about the fetch of a stored page.
#[derive(Debug, Clone)]
pub struct CrawlMetadata {
    pub status_code: Option<u16>,
    pub content_type: Option<String>,
    pub content_length: Option<u64>,
    pub response_time_ms: u64,
    pub depth: usize,
    pub parent_url: Option<String>,
    pub crawl_session_id: String,
}

/// A crawled page as stored.
#[derive(Debug, Clone)]
pub struct StoredCrawlResult {
    pub url: String,
    pub title: Option<String>,
    pub content: Option<String>,
    pub word_count: usize,
    pub language: Option<String>,
    pub links_found: Vec<String>,
    pub metadata: CrawlMetadata,
    pub timestamp: u64,
}

/// A way of writing results that users may add.
pub trait CustomFormatter {
    fn format_result(&self, result: &StoredCrawlResult) -> Result<String, String>;

    fn get_file_extension(&self) -> &str;

    fn supports_streaming(&self) -> bool;
}

/// Summary of a session, as stored.
#[derive(Debug, Clone)]
pub struct CrawlSessionSummary {
    pub session_id: String,
    pub start_time: u64,
    pub end_time: u64,
    pub total_urls_processed: usize,
    pub successful_crawls: usize,
    pub failed_crawls: usize,
    pub total_bytes_downloaded: u64,
    pub unique_domains: usize,
    pub configuration: String,
}

/// Figures drawn from a set of stored results.
#[derive(Debug)]
pub struct CrawlAnalytics {
    pub total_pages: usize,
    pub successful_crawls: usize,
    pub failed_crawls: usize,
    pub domains_crawled: usize,
    pub avg_words_per_page: usize,
    pub avg_response_time_ms: u64,
    pub top_domains: Vec<(String, usize)>,
    pub language_distribution: Vec<(String, usize)>,
}

/// The CSV row of a result: URL, title, word count, language, response
/// time and status code (0 when unknown), comma-separated, newline-ended.
pub open spec fn csv_row(r: StoredCrawlResult) -> Seq<char> {
    r.url@ + ","@ + (match r.title { Some(t) => t@, None => Seq::empty() }) + ","@
        + decimal(r.word_count as nat) + ","@ + (match r.language { Some(l) => l@, None => Seq::empty() })
        + ","@ + decimal(r.metadata.response_time_ms as nat) + ","@
        + decimal((match r.metadata.status_code { Some(c) => c, None => 0u16 }) as nat) + "\n"@
}

/// The CSV row of a result (see `csv_row`).
pub fn csv_line(result: &StoredCrawlResult) -> (r: String)
    ensures
        r@ == csv_row(*result),
{
    proof {
        reveal_strlit(",");
        reveal_strlit("\n");
        reveal_strlit("");
    }
    let mut s = result.url.clone();
    s.append(",");
    match &result.title {
        Some(t) => s.append(t.as_str()),
        None => {},
    }
    s.append(",");
    let w = u64_to_string(result.word_count as u64);
    s.append(w.as_str());
    s.append(",");
    match &result.language {
        Some(l) => s.append(l.as_str()),
        None => {},
    }
    s.append(",");
    let t = u64_to_string(result.metadata.response_time_ms);
    s.append(t.as_str());
    s.append(",");
    let code: u16 = match result.metadata.status_code {
        Some(c) => c,
        None => 0,
    };
    let c = u64_to_string(code as u64);
    s.append(c.as_str());
    s.append("\n");
    s
}

/// The name a single result is stored under: "crawl_", the time, "_", the
/// first eight characters of the URL's hash text, ".", the extension.
pub open spec fn result_file_name(timestamp_secs: u64, url_hash: Seq<char>, f: OutputFormat) -> Seq<char> {
    "crawl_"@ + decimal(timestamp_secs as nat) + "_"@ + url_hash.take(8) + "."@ + format_extension(f)
}

/// Where and how results are written.
#[derive(Debug)]
pub struct DataStorage {
    pub output_dir: String,
    pub format: OutputFormat,
    pub compression: bool,
}

impl DataStorage {
    /// Storage in `output_dir` (which the caller creates) in the given
    /// format, uncompressed.
    pub fn new(output_dir: String, format: OutputFormat) -> (r: Self)
        ensures
            r.output_dir@ == output_dir@,
            r.format == format,
            !r.compression,
    {
        DataStorage { output_dir, format, compression: false }
    }

    /// Turns compression on or off.
    pub fn with_compression(self, enabled: bool) -> (r: Self)
        ensures
            r.output_dir@ == self.output_dir@,
            r.format == self.format,
            r.compression == enabled,
    {
        DataStorage { compression: enabled, ..self }
    }

    /// JSON Lines under "./crawl_data".
    pub fn new_default() -> (r: Self)
        ensures
            r.output_dir@ == "./crawl_data"@,
            r.format == OutputFormat::Jsonl,
            !r.compression,
    {
        Self::new("./crawl_data".to_string(), OutputFormat::Jsonl)
    }

    /// The given format under "./crawl_data".
    pub fn with_format(format: OutputFormat) -> (r: Self)
        ensures
            r.output_dir@ == "./crawl_data"@,
            r.format == format,
            !r.compression,
    {
        Self::new("./crawl_data".to_string(), format)
    }

    /// The file name for a result stored at `timestamp_secs` whose URL
    /// hashes to `url_hash` (hexadecimal text of at least eight
    /// characters); see `result_file_name`.
    pub fn generate_filename(&self, url_hash: &str, timestamp_secs: u64) -> (r: String)
        requires
            url_hash@.len() >= 8,
        ensures
            r@ == result_file_name(timestamp_secs, url_hash@, self.format),
    {
        proof {
            reveal_strlit("crawl_");
            reveal_strlit("_");
            reveal_strlit(".");
        }
        let mut s = "crawl_".to_string();
        let t = u64_to_string(timestamp_secs);
        s.append(t.as_str());
        s.append("_");
        let mut i: usize = 0;
        let chars = crate::text_util::chars_of(url_hash);
        let ghost s0 = s@;
        while i < 8
            invariant
                chars@ == url_hash@,
                url_hash@.len() >= 8,
                i <= 8,
                s@ == s0 + url_hash@.take(i as int),
            decreases 8 - i,
        {
            crate::text_util::push_char(&mut s, chars[i]);
            proof {
                assert(url_hash@.take(i + 1) =~= url_hash@.take(i as int).push(url_hash@[i as int]));
            }
            i = i + 1;
        }
        s.append(".");
        s.append(self.format.extension());
        s
    }
}

/// The host of a stored result's URL, when it parses and has one.
pub open spec fn host_of(r: StoredCrawlResult) -> Option<Seq<char>> {
    match url_parse_result(r.url@) {
        Ok(p) => p.host,
        Err(_) => None,
    }
}

/// How many results come from each host.
pub open spec fn domain_counts(rs: Seq<StoredCrawlResult>) -> Map<Seq<char>, u64>
    decreases rs.len(),
{
    if rs.len() == 0 {
        Map::empty()
    } else {
        let m = domain_counts(rs.drop_last());
        match host_of(rs.last()) {
            Some(h) => m.insert(h, if m.contains_key(h) { (m[h] + 1) as u64 } else { 1u64 }),
            None => m,
        }
    }
}

/// How many results are in each language.
pub open spec fn language_counts(rs: Seq<StoredCrawlResult>) -> Map<Seq<char>, u64>
    decreases rs.len(),
{
    if rs.len() == 0 {
        Map::empty()
    } else {
        let m = language_counts(rs.drop_last());
        match rs.last().language {
            Some(l) => m.insert(l@, if m.contains_key(l@) { (m[l@] + 1) as u64 } else { 1u64 }),
            None => m,
        }
    }
}

/// Results with a 2xx status.
pub open spec fn success_count(rs: Seq<StoredCrawlResult>) -> nat
    decreases rs.len(),
{
    if rs.len() == 0 {
        0
    } else {
        success_count(rs.drop_last()) + match rs.last().metadata.status_code {
            Some(c) => if 200 <= c < 300 { 1nat } else { 0nat },
            None => 0nat,
        }
    }
}

/// Results with a status outside 2xx.
pub open spec fn failure_count(rs: Seq<StoredCrawlResult>) -> nat
    decreases rs.len(),
{
    if rs.len() == 0 {
        0
    } else {
        failure_count(rs.drop_last()) + match rs.last().metadata.status_code {
            Some(c) => if 200 <= c < 300 { 0nat } else { 1nat },
            None => 0nat,
        }
    }
}

pub open spec fn word_total(rs: Seq<StoredCrawlResult>) -> nat
    decreases rs.len(),
{
    if rs.len() == 0 { 0 } else { word_total(rs.drop_last()) + (rs.last().word_count as nat) }
}

pub open spec fn response_total(rs: Seq<StoredCrawlResult>) -> nat
    decreases rs.len(),
{
    if rs.len() == 0 { 0 } else { response_total(rs.drop_last()) + (rs.last().metadata.response_time_ms as nat) }
}

/// The counts of a tally, as sizes.
pub open spec fn counts_as_sizes(v: Seq<(String, usize)>) -> Seq<(String, u64)> {
    v.map_values(|e: (String, usize)| (e.0, e.1 as u64))
}

proof fn lemma_counts_bounded(rs: Seq<StoredCrawlResult>)
    requires
        rs.len() <= usize::MAX,
    ensures
        forall|k: Seq<char>| #[trigger] domain_counts(rs).contains_key(k) ==> 1 <= domain_counts(rs)[k] <= rs.len(),
        forall|k: Seq<char>| #[trigger] language_counts(rs).contains_key(k) ==> 1 <= language_counts(rs)[k] <= rs.len(),
        success_count(rs) + failure_count(rs) <= rs.len(),
    decreases rs.len(),
{
    if rs.len() > 0 {
        let p = rs.drop_last();
        lemma_counts_bounded(p);
        let m = domain_counts(p);
        let l = language_counts(p);
        assert forall|k: Seq<char>| #[trigger] domain_counts(rs).contains_key(k) implies 1 <= domain_counts(rs)[k]
            <= rs.len() by {
            if m.contains_key(k) {
                assert(1 <= m[k] <= p.len());
            }
        }
        assert forall|k: Seq<char>| #[trigger] language_counts(rs).contains_key(k) implies 1 <= language_counts(rs)[k]
            <= rs.len() by {
            if l.contains_key(k) {
                assert(1 <= l[k] <= p.len());
            }
        }
    }
}

/// Adds one to the count of `key`.
fn bump(tally: &mut Vec<(String, u64)>, key: &str, bound: u64)
    requires
        keys_unique(old(tally)@),
        forall|k: Seq<char>| #[trigger] assoc_view(old(tally)@).contains_key(k) ==> assoc_view(old(tally)@)[k] < bound,
    ensures
        keys_unique(final(tally)@),
        assoc_view(final(tally)@) == assoc_view(old(tally)@).insert(key@, if assoc_view(old(tally)@).contains_key(key@) {
            (assoc_view(old(tally)@)[key@] + 1) as u64
        } else {
            1u64
        }),
{
    let cur: u64 = match assoc_get(tally, key) {
        Some(c) => *c,
        None => 0,
    };
    assoc_insert(tally, key.to_string(), cur + 1);
}

/// Analytics of a set of results: how many pages, how many with a 2xx
/// status and how many with another status, how many distinct hosts, the
/// average word count and response time (rounded down; 0 without
/// results), the ten hosts with most pages (most first; ties in no set
/// order) and the number of pages per language.
pub fn generate_analytics(results: &Vec<StoredCrawlResult>) -> (r: CrawlAnalytics)
    requires
        word_total(results@) <= usize::MAX,
        response_total(results@) <= u64::MAX,
    ensures
        r.total_pages == results@.len(),
        r.successful_crawls == success_count(results@),
        r.failed_crawls == failure_count(results@),
        r.domains_crawled == domain_counts(results@).len(),
        r.avg_words_per_page == (if results@.len() == 0 { 0 } else { word_total(results@) / results@.len() }),
        r.avg_response_time_ms == (if results@.len() == 0 { 0 } else { response_total(results@) / results@.len() }),
        is_top_counts(counts_as_sizes(r.top_domains@), domain_counts(results@), 10),
        keys_unique(r.language_distribution@),
        assoc_view(counts_as_sizes(r.language_distribution@)) == language_counts(results@),
{
    let ghost rs = results@;
    let n = results.len();
    let mut domains: Vec<(String, u64)> = Vec::new();
    let mut languages: Vec<(String, u64)> = Vec::new();
    let mut ok: usize = 0;
    let mut bad: usize = 0;
    let mut words: usize = 0;
    let mut response: u64 = 0;
    let mut i: usize = 0;
    proof {
        assert(rs.take(0) =~= Seq::<StoredCrawlResult>::empty());
        assert(assoc_view(domains@) =~= Map::<Seq<char>, u64>::empty());
        assert(assoc_view(languages@) =~= Map::<Seq<char>, u64>::empty());
    }
    while i < n
        invariant
            rs == results@,
            n == rs.len(),
            i <= n,
            word_total(rs) <= usize::MAX,
            response_total(rs) <= u64::MAX,
            keys_unique(domains@),
            keys_unique(languages@),
            assoc_view(domains@) == domain_counts(rs.take(i as int)),
            assoc_view(languages@) == language_counts(rs.take(i as int)),
            ok == success_count(rs.take(i as int)),
            bad == failure_count(rs.take(i as int)),
            words == word_total(rs.take(i as int)),
            response == response_total(rs.take(i as int)),
        decreases n - i,
    {
        let ghost pre = rs.take(i as int);
        proof {
            assert(rs.take(i + 1).drop_last() =~= pre);
            assert(rs.take(i + 1).last() == rs[i as int]);
            lemma_counts_bounded(pre);
            lemma_prefix_totals(rs, i as int + 1);
        }
        let r = &results[i];
        match parse_url(r.url.as_str()) {
            Ok(p) => match &p.host {
                Some(h) => {
                    bump(&mut domains, h.as_str(), (i + 1) as u64);
                },
                None => {},
            },
            Err(_) => {},
        }
        match &r.language {
            Some(l) => {
                bump(&mut languages, l.as_str(), (i + 1) as u64);
            },
            None => {},
        }
        match r.metadata.status_code {
            Some(c) => {
                if 200 <= c && c < 300 {
                    ok = ok + 1;
                } else {
                    bad = bad + 1;
                }
            },
            None => {},
        }
        words = words + r.word_count;
        response = response + r.metadata.response_time_ms;
        i = i + 1;
    }
    proof {
        assert(rs.take(n as int) =~= rs);
        lemma_counts_bounded(rs);
        lemma_assoc_len(domains@);
    }
    let top = top_by_count(&domains, 10);
    proof {
        assert forall|t: int| 0 <= t < top@.len() implies #[trigger] top@[t].1 <= n by {
            assert(assoc_view(domains@).contains_key(top@[t].0@));
        }
        assert forall|t: int| 0 <= t < languages@.len() implies #[trigger] languages@[t].1 <= n by {
            crate::assoc::lemma_key_index(languages@, t);
            assert(assoc_view(languages@).contains_key(languages@[t].0@));
        }
    }
    let top_domains = to_sizes(top, n);
    let language_distribution = to_sizes(languages, n);
    proof {
        assert forall|a: int, b: int| 0 <= a < b < language_distribution@.len() implies
            #[trigger] language_distribution@[a].0@ != #[trigger] language_distribution@[b].0@ by {
            assert(counts_as_sizes(language_distribution@)[a].0 == language_distribution@[a].0);
            assert(counts_as_sizes(language_distribution@)[b].0 == language_distribution@[b].0);
        }
    }
    CrawlAnalytics {
        total_pages: n,
        successful_crawls: ok,
        failed_crawls: bad,
        domains_crawled: domains.len(),
        avg_words_per_page: if n == 0 { 0 } else { words / n },
        avg_response_time_ms: if n == 0 { 0 } else { response / (n as u64) },
        top_domains,
        language_distribution,
    }
}

/// The same tally with counts as sizes.
fn to_sizes(v: Vec<(String, u64)>, bound: usize) -> (r: Vec<(String, usize)>)
    requires
        forall|t: int| 0 <= t < v@.len() ==> #[trigger] v@[t].1 <= bound,
    ensures
        counts_as_sizes(r@) == v@,
{
    let ghost v0 = v@;
    let mut left = v;
    let mut out: Vec<(String, usize)> = Vec::new();
    let mut k: usize = 0;
    let n = left.len();
    proof {
        assert(v0.skip(0) =~= v0);
    }
    while left.len() > 0
        invariant
            n == v0.len(),
            k <= n,
            left@ == v0.skip(k as int),
            out@.len() == k,
            forall|t: int| 0 <= t < v0.len() ==> #[trigger] v0[t].1 <= bound,
            forall|t: int| 0 <= t < k ==> #[trigger] out@[t].0 == v0[t].0 && out@[t].1 as u64 == v0[t].1,
        decreases left@.len(),
    {
        proof {
            assert(left@.len() == n - k);
        }
        let (name, c) = left.remove(0);
        proof {
            assert((name, c) == v0[k as int]);
            assert(left@ =~= v0.skip(k + 1));
        }
        out.push((name, c as usize));
        k = k + 1;
    }
    proof {
        assert(counts_as_sizes(out@) =~= v0);
    }
    out
}

/// Totals of a prefix never exceed those of the whole list.
proof fn lemma_prefix_totals(rs: Seq<StoredCrawlResult>, k: int)
    requires
        0 <= k <= rs.len(),
    ensures
        word_total(rs.take(k)) <= word_total(rs),
        response_total(rs.take(k)) <= response_total(rs),
    decreases rs.len(),
{
    if k < rs.len() {
        assert(rs.take(k) =~= rs.drop_last().take(k));
        lemma_prefix_totals(rs.drop_last(), k);
    } else {
        assert(rs.take(k) =~= rs);
    }
}

} // verus!
