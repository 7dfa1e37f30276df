//! A linear token-vesting ledger.
//!
//! The ledger owns two record kinds: a vesting account (one per company,
//! holding the funding source and its owner) and an employee account (one
//! per beneficiary and vesting account, holding a linear vesting schedule
//! and the cumulative amount already withdrawn). Its one non-trivial
//! operation computes the amount currently claimable under the schedule
//! and records the disbursement.
//!
//! Identities, the clock, persistence and the actual movement of tokens
//! belong to the hosting environment: the ledger only compares identity
//! values it is handed, takes the current time as an argument, and leaves
//! the transfer of the claimed amount to its caller.

pub mod errors;
pub mod grant;
pub mod laws;
pub mod ledger;
