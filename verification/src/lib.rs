//! Accounting and anti-fraud core of a token reward ledger.
//!
//! The library converts a native token into internal points, redeems points
//! back into tokens while levying a base fee and a ratcheting high-water-mark
//! wealth tax, and gates redemption by per-identity risk level, external price
//! attestation, and abuse-rate limits.  Every operation is a pure transition:
//! it validates fully against an immutable configuration snapshot, then either
//! commits all its mutations or leaves every entity unchanged.

pub mod account;
pub mod calendar;
pub mod config;
pub mod errors;
pub mod events;
pub mod guard;
pub mod ledger;
pub mod math;
pub mod oracle;
pub mod settle;
pub mod state;
