//! A marketplace for compute resources: providers list resources, renters
//! lease them against a deposit held in escrow, and providers claim payment
//! for the billing periods that have passed.
//!
//! `types` holds the data model and the catalog of prices and hardware,
//! `billing` the arithmetic of deposits, refunds and claims, `escrow` the
//! currency and the escrow account, `market` the marketplace as a state
//! machine with what always holds of it, and `pallet` the marketplace itself.
//! `providers` and `bootstrap` are two allow-lists kept beside it.

pub mod billing;
pub mod bootstrap;
pub mod bounded;
pub mod counters;
pub mod escrow;
pub mod market;
pub mod pallet;
pub mod providers;
pub mod types;
