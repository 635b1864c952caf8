//! A fungible-token control surface over an account-based token ledger.
//!
//! - `fee`: the split of a transfer into net amount, ecosystem fee and
//!   reward fee.
//! - `ledger`: mints and token accounts, and the atomic operations on them.
//! - `supply`: the ledger's bookkeeping invariant, kept by every operation.
//! - `contexts`, `instructions`, `hoard_token`: the instructions offered to
//!   callers. The centre piece is the fee-splitting transfer, which pays one
//!   amount out to three destinations as one all-or-nothing unit of work.
pub mod types;
pub mod fee;
pub mod ledger;
pub mod supply;
pub mod contexts;
pub mod instructions;
pub mod hoard_token;
