//! Network-side rules: per-domain rate limiting, DNS caching, HTTP client
//! configuration and proxy selection.
pub mod rate_limit;
pub mod dns;
pub mod client_refactored;
pub mod proxy;
pub mod robots;
