//! A ledger engine: applies an ordered stream of deposits, withdrawals,
//! disputes, resolutions and chargebacks to per-client accounts.

pub mod laws;
pub mod ledger;
pub mod report;
pub mod state;
pub mod text;
pub mod types;
