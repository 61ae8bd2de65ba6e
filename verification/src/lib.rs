//! Verified core of a web crawler: error taxonomy, task and session state
//! machines, rate limiting, proxy selection, configuration builders and the
//! text rules that decide what is crawled and how results are reported.

pub mod text_util;
pub mod text_order;
pub mod byte_text;
pub mod assoc;
pub mod web_url;
pub mod random;
pub mod patterns;
pub mod common;
pub mod crawl_core;
pub mod crawler;
pub mod logging;
pub mod network;
pub mod session;
pub mod storage;
pub mod processing;
pub mod queue;
