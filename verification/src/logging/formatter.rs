//! Formatters for crawl log output.
use vstd::prelude::*;

verus! {

/// The crawler's plain-text log formatter.
#[derive(Debug)]
pub struct CrawlLogFormatter;

impl CrawlLogFormatter {
    pub fn new() -> (r: Self) {
        CrawlLogFormatter
    }
}

impl Default for CrawlLogFormatter {
    fn default() -> (r: Self) {
        Self::new()
    }
}

/// The crawler's JSON log formatter.
#[derive(Debug)]
pub struct JsonLogFormatter;

impl JsonLogFormatter {
    pub fn new() -> (r: Self) {
        JsonLogFormatter
    }
}

impl Default for JsonLogFormatter {
    fn default() -> (r: Self) {
        Self::new()
    }
}

} // verus!
