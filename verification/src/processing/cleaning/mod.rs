//! Text cleaning configuration and rules.
pub mod config;
pub mod rules;
pub mod cleaner;
