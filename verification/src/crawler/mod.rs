//! The crawl engine: configuration, statistics, rate limiting and the
//! per-request decisions of a crawl.
pub mod visited;
pub mod engine_refactored;
pub mod engine;
