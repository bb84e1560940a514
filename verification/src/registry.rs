//! Read-caching views of the worker registry.

pub mod answers;
pub mod laws;
pub mod types;
pub mod views;
