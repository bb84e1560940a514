//! Read-caching views of the market.

pub mod answers;
pub mod laws;
pub mod types;
pub mod views;
