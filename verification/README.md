# web_crawler

A web crawler whose decisions are verified with Verus: which URLs to
crawl and when, how requests are rate limited and retried, how pages are
turned into text, how sessions and queues keep their counts, and how
results are stored and reported.

## Layout

- `src/` is the verified library. Every function there carries a
  `requires`/`ensures` contract that Verus checks. Calls into outside crates
  (`url`, `regex`, `whatlang`, `unicode-segmentation`, `bloom`, `rand`,
  `uuid`, `anyhow`) stand behind small trusted wrappers whose contracts say
  what those crates document.
  - `crawler/`: the crawl of one URL as a sequence of stages
    (`WebCrawler::advance`), the crawler engine's task steps, and the
    visited-URL filter.
  - `network/`: per-domain sliding-window rate limiting, robots.txt rules,
    the DNS cache, proxy rotation and regional proxy selection.
  - `processing/`: text extraction and validation, cleaning, keyword
    matching, link discovery and the extensive-crawl queue manager.
  - `queue/`: the task queue with retries, the priority-queue decisions and
    cache expiry.
  - `session/`, `storage/`, `logging/`: sessions and their statistics,
    storage configuration and metrics, and crawl events.
- `app/` is the unverified shell: clocks, sleeps, locks, concurrency
  permits, HTTP, DNS and file I/O, serialization, logging output and the
  floating-point figures. It performs the outside work in the order the
  library decides and hands the observations back.
- `tests/` runs the library on concrete inputs.
