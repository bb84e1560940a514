//! Dispute resolution.
//!
//! A dispute goes through four steps: it is filed and its amount locked, the
//! parties submit evidence, an arbitrator decides, and the decision is settled.

pub mod answers;
pub mod contract;
pub mod funds;
pub mod history;
pub mod host;
pub mod laws;
pub mod lifecycle;
pub mod rules;
pub mod soundness;
pub mod types;
pub mod view_answers;
pub mod views;
