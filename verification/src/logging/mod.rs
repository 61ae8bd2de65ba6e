//! Structured events of a crawl and the formatters that present them.
pub mod events;
pub mod formatter;
