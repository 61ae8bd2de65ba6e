//! Extensive crawling: following the links found on crawled pages.
pub mod config;
pub mod link_processor;
pub mod queue_manager;
