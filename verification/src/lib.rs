//! A peer-to-peer asset-trading escrow engine.
//!
//! Participants post buy or sell orders for a fungible asset against an
//! off-band payment method; a counterparty takes the order, the asset is held
//! in custody until payment is confirmed, and a neutral arbitrator can
//! override the outcome if the parties disagree.
//!
//! The crate is the core state machine: order, escrow-custody and dispute
//! records as plain values, and verified transition functions over them. The
//! surrounding substrate (persistent record store, asset custody-transfer
//! primitive, identity authentication, clock) is a collaborator, not part of
//! this crate: transitions take the bound records, the verified caller
//! identity and the current time as arguments, and return custody transfers
//! as [`escrow::TokenTransfer`] directives for the substrate to execute
//! atomically with the record updates.

use vstd::prelude::*;

pub mod dispute;
pub mod escrow;
pub mod instructions;
pub mod laws;
pub mod order;
pub mod reputation;
pub mod utils;

verus! {

/// Default platform fee in basis points.
pub const PLATFORM_FEE: u64 = 50;

/// Default dispute fee in basis points.
pub const DISPUTE_FEE: u64 = 100;

/// Seconds an escrow may sit before the substrate flags it.
pub const ESCROW_TIMEOUT: i64 = 3600;

/// Seconds a buyer has to confirm payment.
pub const PAYMENT_TIMEOUT: i64 = 1800;

/// Floor of the reputation score.
pub const MIN_REPUTATION: u32 = 0;

/// Largest order amount the platform accepts.
pub const MAX_ORDER_AMOUNT: u64 = 1_000_000_000_000;

/// Seconds from creation until an order expires.
pub const ORDER_LIFETIME: i64 = 86400;

} // verus!
