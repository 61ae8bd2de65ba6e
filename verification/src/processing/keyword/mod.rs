//! Keyword-based content filtering.
pub mod config;
pub mod matcher;
pub mod extractor;
