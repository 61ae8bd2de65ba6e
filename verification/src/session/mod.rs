//! Crawl sessions: configuration, lifecycle, metrics and results.
pub mod manager_refactored;
pub mod manager;
pub mod statistics;
pub mod result_collector;
