//! Laws that span several operations of the engine, each stated over the
//! same spec functions the operations' own contracts use and proved for all
//! inputs.

use vstd::prelude::*;

use crate::escrow::{PlatformConfig, TokenTransfer, TransferEndpoint, custody_matches_order};
use crate::instructions::{
    cancel_order_check, create_order_check, new_order, new_sell_escrow, take_order_check,
    taken_order,
};
use crate::order::{Order, OrderType};
use crate::reputation::{reputation_add_spec, reputation_sub_spec};
use crate::utils::P2PError;

verus! {

/// A sell order cancelled before any take refunds the maker in full.
///
/// For every valid sell-order creation, the maker may cancel the fresh
/// order, and the refund directive the cancellation issues — the only
/// directive it issues — moves the whole locked amount from the order's
/// vault back to the maker's wallet: no fee is charged. By the
/// cancellation's own contract the order then ends `Cancelled` and the
/// custody ends `Refunded`.
pub proof fn lemma_sell_cancel_refunds_fully(
    config: PlatformConfig,
    maker: u64,
    token_mint: u64,
    order_id: u64,
    amount: u64,
    price: u64,
    payment_method: String,
    min_limit: u64,
    max_limit: u64,
    now: i64,
)
    requires
        create_order_check(config, amount, price, payment_method@, min_limit, max_limit) is None,
        amount * price <= u64::MAX,
    ensures
        ({
            let order = new_order(
                OrderType::Sell,
                maker,
                token_mint,
                order_id,
                amount,
                price,
                payment_method,
                min_limit,
                max_limit,
                now,
            );
            let escrow = new_sell_escrow(maker, token_mint, order_id, amount, now);
            &&& cancel_order_check(order, maker) is None
            &&& custody_matches_order(order, Some(escrow))
            &&& TokenTransfer::payout(escrow.order_id, escrow.seller, escrow.amount)
                == (TokenTransfer {
                from: TransferEndpoint::EscrowVault { order_id },
                to: TransferEndpoint::Wallet { owner: maker },
                amount,
            })
        }),
{
}

/// Taking an order is exclusive.
///
/// Concurrent attempts on one order serialize on its record; the first
/// successful take moves the order out of `Pending`, so the check of every
/// later attempt rejects it with a stale-state error, whatever amount it
/// asks and whenever it runs — exactly one take of a pending order can ever
/// succeed.
pub proof fn lemma_take_order_exclusive(
    order: Order,
    taker: u64,
    amount: u64,
    now: i64,
    amount2: u64,
    now2: i64,
)
    requires
        take_order_check(order, amount, now) is None,
    ensures
        take_order_check(taken_order(order, taker, amount), amount2, now2) == Some(
            P2PError::OrderNotPending,
        ),
{
}

/// Reputation is monotonically bounded: whatever the current score and
/// whatever the step, a saturating addition or subtraction neither overflows
/// nor underflows — the score stays within the representable range.
pub proof fn lemma_reputation_saturating_bounded(score: u32, points: u32)
    ensures
        0 <= reputation_add_spec(score, points) <= u32::MAX,
        0 <= reputation_sub_spec(score, points) <= u32::MAX,
        reputation_sub_spec(score, points) <= score,
        score <= reputation_add_spec(score, points),
{
}

} // verus!
