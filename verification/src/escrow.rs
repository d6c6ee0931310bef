//! Escrow custody: the platform configuration, the per-order custody record,
//! and the custody-transfer directives handed to the asset-transfer
//! primitive.
//!
//! The engine never moves balances itself. Each transition returns
//! [`TokenTransfer`] directives; the surrounding substrate executes them
//! atomically together with the record updates, or rolls the whole operation
//! back. Funds held for an order live in the vault endpoint keyed by
//! `order_id` alone — an opaque capability no participant identity controls,
//! which is what makes "only the engine can move escrowed funds"
//! enforceable.

use vstd::prelude::*;

use crate::order::{Order, OrderStatus, OrderType};

verus! {

/// The platform's singleton configuration. Passed explicitly to every
/// operation it gates; only `pause`/`resume` mutate it.
#[derive(Clone, Copy, Debug, PartialEq, Eq, Structural)]
pub struct PlatformConfig {
    /// Identity empowered to pause and resume trading, and default
    /// arbitrator of disputes.
    pub authority: u64,
    /// Fee on released trades, in basis points.
    pub platform_fee: u64,
    /// Fee on dispute handling, in basis points.
    pub dispute_fee: u64,
    /// While set, no order may be created and no dispute opened.
    pub paused: bool,
}

impl PlatformConfig {
    /// Fee rates never exceed 100 percent.
    pub open spec fn wf(self) -> bool {
        &&& self.platform_fee <= 10000
        &&& self.dispute_fee <= 10000
    }
}

/// Disposition of the funds a custody record holds.
///
/// `Locked` moves to `Released` or `Refunded` exactly once. `Disputed` is
/// reserved: the engine leaves custody `Locked` while a dispute runs and
/// settles it at resolution.
#[derive(Clone, Copy, Debug, PartialEq, Eq, Structural)]
pub enum EscrowStatus {
    Locked,
    Released,
    Refunded,
    Disputed,
}

/// The per-order custody record backing an order's locked funds.
#[derive(Clone, Copy, Debug, PartialEq, Eq, Structural)]
pub struct EscrowAccount {
    /// Key of the order this custody backs, 1:1.
    pub order_id: u64,
    /// Identity of the depositor: the seller-role party of the order.
    pub seller: u64,
    /// Identity of the buyer-role party; `None` until the order is matched.
    pub buyer: Option<u64>,
    /// Identity of the asset held.
    pub token_mint: u64,
    /// Amount locked in the vault.
    pub amount: u64,
    pub status: EscrowStatus,
    pub created_at: i64,
}

/// One side of a custody transfer.
#[derive(Clone, Copy, Debug, PartialEq, Eq, Structural)]
pub enum TransferEndpoint {
    /// A participant's own asset account.
    Wallet { owner: u64 },
    /// The holding account of an order's escrow: a capability derived from
    /// `order_id` alone, controlled by no participant identity.
    EscrowVault { order_id: u64 },
    /// The platform's fee-collection account.
    PlatformFees,
}

/// A directive to the external custody-transfer primitive: move `amount` of
/// the asset from one endpoint to the other, atomically with the record
/// updates of the transition that issued it.
#[derive(Clone, Copy, Debug, PartialEq, Eq, Structural)]
pub struct TokenTransfer {
    pub from: TransferEndpoint,
    pub to: TransferEndpoint,
    pub amount: u64,
}

impl TokenTransfer {
    /// Locks a depositor's funds into the vault of `order_id`.
    pub open spec fn lock(order_id: u64, depositor: u64, amount: u64) -> TokenTransfer {
        TokenTransfer {
            from: TransferEndpoint::Wallet { owner: depositor },
            to: TransferEndpoint::EscrowVault { order_id },
            amount,
        }
    }

    /// Pays funds out of the vault of `order_id` to a recipient.
    pub open spec fn payout(order_id: u64, recipient: u64, amount: u64) -> TokenTransfer {
        TokenTransfer {
            from: TransferEndpoint::EscrowVault { order_id },
            to: TransferEndpoint::Wallet { owner: recipient },
            amount,
        }
    }

    /// Moves the platform's fee out of the vault of `order_id`.
    pub open spec fn fee(order_id: u64, amount: u64) -> TokenTransfer {
        TokenTransfer {
            from: TransferEndpoint::EscrowVault { order_id },
            to: TransferEndpoint::PlatformFees,
            amount,
        }
    }
}

/// Coherence between an order and the custody record stored under its key,
/// `None` where no custody exists. Every transition requires and preserves
/// it; it is what rules out both stranded funds (a terminal order whose
/// custody is still `Locked`) and double spends (a live order whose custody
/// was already paid out).
pub open spec fn custody_matches_order(order: Order, escrow: Option<EscrowAccount>) -> bool {
    match order.status {
        OrderStatus::Pending => match order.order_type {
            // A sell order locks the maker's funds from creation.
            OrderType::Sell => escrow matches Some(e) && {
                &&& e.order_id == order.order_id
                &&& e.seller == order.maker
                &&& e.buyer is None
                &&& e.token_mint == order.token_mint
                &&& e.amount == order.amount
                &&& e.status is Locked
            },
            // A buy order holds nothing until a taker locks funds.
            OrderType::Buy => escrow is None,
        },
        OrderStatus::Matched | OrderStatus::Paid | OrderStatus::Disputed => escrow matches Some(e)
            && {
            &&& e.order_id == order.order_id
            &&& e.seller == order.seller()
            &&& e.buyer == Some(order.buyer())
            &&& e.token_mint == order.token_mint
            &&& e.amount == order.amount
            &&& e.status is Locked
        },
        OrderStatus::Completed => escrow matches Some(e) && e.status is Released,
        OrderStatus::Arbitrated => escrow matches Some(e) && (e.status is Released || e.status
            is Refunded),
        OrderStatus::Cancelled => escrow matches Some(e) ==> e.status is Refunded,
        OrderStatus::Released => true,
    }
}

} // verus!
