//! Proxies: rotation and health, providers, sources and selection by
//! region.
pub mod rotation;
pub mod provider;
pub mod geo_selector;
pub mod source_manager;
