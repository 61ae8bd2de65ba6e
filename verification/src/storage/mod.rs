//! Storage of crawl results and the metrics gathered about a crawl.
pub mod data_refactored;
pub mod metrics_refactored;
pub mod data;
