//! Core types, error taxonomy and shared utilities.
pub mod error;
pub mod types;
pub mod error_refactored;
pub mod types_refactored;
pub mod utils;
pub mod traits;
pub mod priority_order;
