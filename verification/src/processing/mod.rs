//! Content processing rules: cleaning, extensive crawling, keywords,
//! language and link discovery.
pub mod cleaning;
pub mod extensive;
pub mod keyword;
pub mod language;
pub mod discovery;
pub mod content;
pub mod content_refactored;
