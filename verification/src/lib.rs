//! Verified core of the BlueCollar contracts: dispute resolution, and the
//! read-caching views of the registry and of the market.

pub mod batch;
pub mod dispute;
pub mod ledger;
pub mod market;
pub mod registry;
pub mod sdk;
