//! The crawl task queue: priority order, in-progress tracking and retries.
pub mod task_queue;
pub mod cache;
pub mod priority_queue;
