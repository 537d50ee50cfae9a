//! Accounting core of a tiered token presale.
//!
//! A presale is split into rounds; each round sells one token at a fixed
//! integer price, inside a time window, out of a bounded reserve.  This crate
//! holds the purchase logic worth proving: window enforcement, the price
//! conversion from deposited collateral to a token allocation, the monotonic
//! decrement of the round's remaining supply, and the exactly-once creation of
//! a per-buyer purchase record.
//!
//! The value transfer itself, account storage, the clock and event emission
//! are external collaborators: the host first calls [`purchase::prepare_purchase`]
//! to validate a request and obtain the two transfer legs, performs those
//! transfers through its own ledger service, and on success calls
//! [`purchase::commit_purchase`] to apply the bookkeeping, all inside one
//! host-level atomic operation.

pub mod errors;
pub mod laws;
pub mod purchase;
pub mod record;
pub mod round;
