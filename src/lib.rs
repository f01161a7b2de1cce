//! An in-memory ledger that tokenizes assets into fractional shares, tracks an
//! escrow balance per asset and keeps per-asset revenue bookkeeping.

pub mod error;
pub mod state;
pub mod accounts;
pub mod ledger;
