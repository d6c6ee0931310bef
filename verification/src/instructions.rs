//! The engine's operations: each is a pure transition over the records the
//! substrate has bound, the verified caller identity and the current time.
//!
//! Every operation either fails before any record changes — returning the
//! specific error its check spec function names — or commits all its record
//! updates and returns the custody-transfer directives the substrate must
//! execute in the same atomic unit.

use vstd::prelude::*;

use crate::ORDER_LIFETIME;
use crate::escrow::{
    EscrowAccount, EscrowStatus, PlatformConfig, TokenTransfer, TransferEndpoint,
    custody_matches_order,
};
use crate::dispute::{Dispute, DisputeStatus, Ruling, dispute_matches_order};
use crate::order::{Order, OrderStatus, OrderType, str_byte_len};
use crate::reputation::{UserProfile, reputation_add_spec, reputation_sub_spec};
use crate::utils::{P2PError, calculate_fee, fee_spec};

verus! {

/// Creates the platform's singleton configuration with the caller as
/// authority and trading live.
pub fn initialize(authority: u64, platform_fee: u64, dispute_fee: u64) -> (config: PlatformConfig)
    requires
        platform_fee <= 10000,
        dispute_fee <= 10000,
    ensures
        config == (PlatformConfig { authority, platform_fee, dispute_fee, paused: false }),
        config.wf(),
{
    PlatformConfig { authority, platform_fee, dispute_fee, paused: false }
}

/// Suspends trading. Only the platform authority may do so.
pub fn pause(config: &mut PlatformConfig, caller: u64) -> (result: Result<(), P2PError>)
    ensures
        match result {
            Ok(_) => caller == old(config).authority && *final(config) == (PlatformConfig {
                paused: true,
                ..*old(config)
            }),
            Err(e) => {
                &&& e == P2PError::NotAuthorized
                &&& caller != old(config).authority
                &&& *final(config) == *old(config)
            },
        },
{
    if caller != config.authority {
        return Err(P2PError::NotAuthorized);
    }
    config.paused = true;
    Ok(())
}

/// Resumes trading. Only the platform authority may do so.
pub fn resume(config: &mut PlatformConfig, caller: u64) -> (result: Result<(), P2PError>)
    ensures
        match result {
            Ok(_) => caller == old(config).authority && *final(config) == (PlatformConfig {
                paused: false,
                ..*old(config)
            }),
            Err(e) => {
                &&& e == P2PError::NotAuthorized
                &&& caller != old(config).authority
                &&& *final(config) == *old(config)
            },
        },
{
    if caller != config.authority {
        return Err(P2PError::NotAuthorized);
    }
    config.paused = false;
    Ok(())
}

/// The rejection an order creation meets, if any: the input-validation
/// checks in order, then the platform pause gate.
pub open spec fn create_order_check(
    config: PlatformConfig,
    amount: u64,
    price: u64,
    payment_method: Seq<char>,
    min_limit: u64,
    max_limit: u64,
) -> Option<P2PError> {
    if amount == 0 {
        Some(P2PError::InvalidAmount)
    } else if price == 0 {
        Some(P2PError::InvalidPrice)
    } else if min_limit > max_limit {
        Some(P2PError::InvalidLimit)
    } else if str_byte_len(payment_method) > 50 {
        Some(P2PError::PaymentMethodTooLong)
    } else if config.paused {
        Some(P2PError::PlatformPaused)
    } else {
        None
    }
}

/// The order record a successful creation produces.
pub open spec fn new_order(
    order_type: OrderType,
    maker: u64,
    token_mint: u64,
    order_id: u64,
    amount: u64,
    price: u64,
    payment_method: String,
    min_limit: u64,
    max_limit: u64,
    now: i64,
) -> Order {
    Order {
        order_id,
        maker,
        taker: None,
        order_type,
        token_mint,
        amount,
        price,
        total_value: (amount * price) as u64,
        payment_method,
        status: OrderStatus::Pending,
        created_at: now,
        expires_at: (now + ORDER_LIFETIME) as i64,
        payment_time: None,
        completed_at: None,
        cancelled_at: None,
        payment_proof: None,
        cancel_reason: None,
        min_limit,
        max_limit,
    }
}

/// The custody record a successful sell-order creation produces: the
/// maker's deposit locked under the order's key, with no buyer yet.
pub open spec fn new_sell_escrow(
    maker: u64,
    token_mint: u64,
    order_id: u64,
    amount: u64,
    now: i64,
) -> EscrowAccount {
    EscrowAccount {
        order_id,
        seller: maker,
        buyer: None,
        token_mint,
        amount,
        status: EscrowStatus::Locked,
        created_at: now,
    }
}

/// The profile after its owner created or took one more order.
pub open spec fn ordered_profile(profile: UserProfile) -> UserProfile {
    UserProfile { total_orders: (profile.total_orders + 1) as u32, ..profile }
}

/// Creates a buy order in `Pending`. No funds move: the taker will deposit
/// into custody when the order is matched. Increments the maker's order
/// count.
pub fn create_buy_order(
    config: &PlatformConfig,
    maker_profile: &mut UserProfile,
    maker: u64,
    token_mint: u64,
    order_id: u64,
    amount: u64,
    price: u64,
    payment_method: String,
    min_limit: u64,
    max_limit: u64,
    now: i64,
) -> (result: Result<Order, P2PError>)
    requires
        old(maker_profile).total_orders < u32::MAX,
        now + ORDER_LIFETIME <= i64::MAX,
        amount * price <= u64::MAX,
        max_limit * price <= u64::MAX,
    ensures
        match result {
            Ok(order) => {
                &&& create_order_check(*config, amount, price, payment_method@, min_limit, max_limit) is None
                &&& order == new_order(OrderType::Buy, maker, token_mint, order_id, amount, price, payment_method, min_limit, max_limit, now)
                &&& order.wf()
                &&& custody_matches_order(order, None)
                &&& *final(maker_profile) == ordered_profile(*old(maker_profile))
            },
            Err(e) => {
                &&& create_order_check(*config, amount, price, payment_method@, min_limit, max_limit) == Some(e)
                &&& *final(maker_profile) == *old(maker_profile)
            },
        },
{
    if amount == 0 {
        return Err(P2PError::InvalidAmount);
    }
    if price == 0 {
        return Err(P2PError::InvalidPrice);
    }
    if min_limit > max_limit {
        return Err(P2PError::InvalidLimit);
    }
    if payment_method.as_str().as_bytes().len() > 50 {
        return Err(P2PError::PaymentMethodTooLong);
    }
    if config.paused {
        return Err(P2PError::PlatformPaused);
    }
    maker_profile.total_orders = maker_profile.total_orders + 1;
    Ok(
        Order {
            order_id,
            maker,
            taker: None,
            order_type: OrderType::Buy,
            token_mint,
            amount,
            price,
            total_value: amount * price,
            payment_method,
            status: OrderStatus::Pending,
            created_at: now,
            expires_at: now + ORDER_LIFETIME,
            payment_time: None,
            completed_at: None,
            cancelled_at: None,
            payment_proof: None,
            cancel_reason: None,
            min_limit,
            max_limit,
        },
    )
}

/// Creates a sell order in `Pending` and locks the maker's deposit: the
/// returned directive moves `amount` from the maker's wallet into the
/// order's vault, atomically with storing the two records. Increments the
/// maker's order count.
pub fn create_sell_order(
    config: &PlatformConfig,
    maker_profile: &mut UserProfile,
    maker: u64,
    token_mint: u64,
    order_id: u64,
    amount: u64,
    price: u64,
    payment_method: String,
    min_limit: u64,
    max_limit: u64,
    now: i64,
) -> (result: Result<(Order, EscrowAccount, TokenTransfer), P2PError>)
    requires
        old(maker_profile).total_orders < u32::MAX,
        now + ORDER_LIFETIME <= i64::MAX,
        amount * price <= u64::MAX,
    ensures
        match result {
            Ok((order, escrow, lock)) => {
                &&& create_order_check(*config, amount, price, payment_method@, min_limit, max_limit) is None
                &&& order == new_order(OrderType::Sell, maker, token_mint, order_id, amount, price, payment_method, min_limit, max_limit, now)
                &&& order.wf()
                &&& escrow == new_sell_escrow(maker, token_mint, order_id, amount, now)
                &&& custody_matches_order(order, Some(escrow))
                &&& lock == TokenTransfer::lock(order_id, maker, amount)
                &&& *final(maker_profile) == ordered_profile(*old(maker_profile))
            },
            Err(e) => {
                &&& create_order_check(*config, amount, price, payment_method@, min_limit, max_limit) == Some(e)
                &&& *final(maker_profile) == *old(maker_profile)
            },
        },
{
    if amount == 0 {
        return Err(P2PError::InvalidAmount);
    }
    if price == 0 {
        return Err(P2PError::InvalidPrice);
    }
    if min_limit > max_limit {
        return Err(P2PError::InvalidLimit);
    }
    if payment_method.as_str().as_bytes().len() > 50 {
        return Err(P2PError::PaymentMethodTooLong);
    }
    if config.paused {
        return Err(P2PError::PlatformPaused);
    }
    maker_profile.total_orders = maker_profile.total_orders + 1;
    let order = Order {
        order_id,
        maker,
        taker: None,
        order_type: OrderType::Sell,
        token_mint,
        amount,
        price,
        total_value: amount * price,
        payment_method,
        status: OrderStatus::Pending,
        created_at: now,
        expires_at: now + ORDER_LIFETIME,
        payment_time: None,
        completed_at: None,
        cancelled_at: None,
        payment_proof: None,
        cancel_reason: None,
        min_limit,
        max_limit,
    };
    let escrow = EscrowAccount {
        order_id,
        seller: maker,
        buyer: None,
        token_mint,
        amount,
        status: EscrowStatus::Locked,
        created_at: now,
    };
    let lock = TokenTransfer {
        from: TransferEndpoint::Wallet { owner: maker },
        to: TransferEndpoint::EscrowVault { order_id },
        amount,
    };
    Ok((order, escrow, lock))
}

/// Whether `amount` is an acceptable matched amount: within the limits for a
/// buy order, whose final amount the taker picks, and exactly the deposited
/// amount for a sell order, whose amount was fixed at creation.
pub open spec fn take_amount_ok(order: Order, amount: u64) -> bool {
    match order.order_type {
        OrderType::Buy => amount > 0 && order.min_limit <= amount && amount <= order.max_limit,
        OrderType::Sell => amount == order.amount,
    }
}

/// The rejection a take attempt meets, if any: the order must still be
/// pending and untaken, not yet expired, and the amount acceptable.
pub open spec fn take_order_check(order: Order, amount: u64, now: i64) -> Option<P2PError> {
    if !(order.status is Pending) {
        Some(P2PError::OrderNotPending)
    } else if order.taker is Some {
        Some(P2PError::OrderAlreadyTaken)
    } else if now >= order.expires_at {
        Some(P2PError::OrderExpired)
    } else if !take_amount_ok(order, amount) {
        Some(P2PError::InvalidAmount)
    } else {
        None
    }
}

/// The order record after a successful take: the taker bound, the final
/// amount set, and the status moved to `Matched`.
pub open spec fn taken_order(order: Order, taker: u64, amount: u64) -> Order {
    Order {
        taker: Some(taker),
        status: OrderStatus::Matched,
        amount,
        total_value: (amount * order.price) as u64,
        ..order
    }
}

/// The custody record a successful take of a buy order produces: the taker's
/// deposit locked under the order's key.
pub open spec fn buy_take_escrow(order: Order, taker: u64, amount: u64, now: i64) -> EscrowAccount {
    EscrowAccount {
        order_id: order.order_id,
        seller: taker,
        buyer: Some(order.maker),
        token_mint: order.token_mint,
        amount,
        status: EscrowStatus::Locked,
        created_at: now,
    }
}

/// Matches a pending order: binds `taker` as counterparty, fixes the final
/// amount, and moves the order to `Matched`. Taking a buy order locks the
/// taker's deposit — the returned directive moves `amount` from the taker's
/// wallet into the order's vault; taking a sell order moves no funds, the
/// maker's deposit being locked already, and records the taker as the
/// custody's buyer. Increments the taker's order count.
pub fn take_order(
    order: &mut Order,
    escrow: &mut Option<EscrowAccount>,
    taker_profile: &mut UserProfile,
    taker: u64,
    amount: u64,
    now: i64,
) -> (result: Result<Option<TokenTransfer>, P2PError>)
    requires
        old(order).wf(),
        custody_matches_order(*old(order), *old(escrow)),
        taker != old(order).maker,
        old(taker_profile).total_orders < u32::MAX,
    ensures
        match result {
            Ok(lock) => {
                &&& take_order_check(*old(order), amount, now) is None
                &&& *final(order) == taken_order(*old(order), taker, amount)
                &&& final(order).wf()
                &&& custody_matches_order(*final(order), *final(escrow))
                &&& *final(taker_profile) == ordered_profile(*old(taker_profile))
                &&& match old(order).order_type {
                    OrderType::Buy => {
                        &&& *final(escrow) == Some(buy_take_escrow(*old(order), taker, amount, now))
                        &&& lock == Some(TokenTransfer::lock(old(order).order_id, taker, amount))
                    },
                    OrderType::Sell => {
                        &&& *final(escrow) == Some(EscrowAccount {
                            buyer: Some(taker),
                            ..(*old(escrow))->0
                        })
                        &&& lock is None
                    },
                }
            },
            Err(e) => {
                &&& take_order_check(*old(order), amount, now) == Some(e)
                &&& *final(order) == *old(order)
                &&& *final(escrow) == *old(escrow)
                &&& *final(taker_profile) == *old(taker_profile)
            },
        },
{
    if order.status != OrderStatus::Pending {
        return Err(P2PError::OrderNotPending);
    }
    if order.taker.is_some() {
        return Err(P2PError::OrderAlreadyTaken);
    }
    if now >= order.expires_at {
        return Err(P2PError::OrderExpired);
    }
    let amount_ok = match order.order_type {
        OrderType::Buy => amount > 0 && order.min_limit <= amount && amount <= order.max_limit,
        OrderType::Sell => amount == order.amount,
    };
    if !amount_ok {
        return Err(P2PError::InvalidAmount);
    }
    taker_profile.total_orders = taker_profile.total_orders + 1;
    if order.order_type == OrderType::Buy {
        proof {
            let a = amount;
            let m = order.max_limit;
            let p = order.price;
            assert(a * p <= m * p) by (nonlinear_arith)
                requires
                    a <= m,
            ;
        }
        order.taker = Some(taker);
        order.status = OrderStatus::Matched;
        order.amount = amount;
        order.total_value = amount * order.price;
        *escrow = Some(
            EscrowAccount {
                order_id: order.order_id,
                seller: taker,
                buyer: Some(order.maker),
                token_mint: order.token_mint,
                amount,
                status: EscrowStatus::Locked,
                created_at: now,
            },
        );
        Ok(
            Some(
                TokenTransfer {
                    from: TransferEndpoint::Wallet { owner: taker },
                    to: TransferEndpoint::EscrowVault { order_id: order.order_id },
                    amount,
                },
            ),
        )
    } else {
        let held = (*escrow).unwrap();
        order.taker = Some(taker);
        order.status = OrderStatus::Matched;
        *escrow = Some(EscrowAccount { buyer: Some(taker), ..held });
        Ok(None)
    }
}

/// The rejection a payment confirmation meets, if any: the order must be
/// matched and the caller its buyer-role party.
pub open spec fn confirm_payment_check(order: Order, payer: u64) -> Option<P2PError> {
    if !(order.status is Matched) {
        Some(P2PError::OrderNotMatched)
    } else if payer != order.buyer() {
        Some(P2PError::NotBuyer)
    } else {
        None
    }
}

/// The order record after the buyer confirmed the off-band payment.
pub open spec fn paid_order(order: Order, payment_proof: String, now: i64) -> Order {
    Order {
        status: OrderStatus::Paid,
        payment_proof: Some(payment_proof),
        payment_time: Some(now),
        ..order
    }
}

/// Records the buyer-role party's confirmation that the off-band payment was
/// made, together with its evidence reference, and moves the order to
/// `Paid`. No funds move.
pub fn confirm_payment(
    order: &mut Order,
    payer: u64,
    payment_proof: String,
    now: i64,
) -> (result: Result<(), P2PError>)
    requires
        old(order).wf(),
    ensures
        match result {
            Ok(_) => {
                &&& confirm_payment_check(*old(order), payer) is None
                &&& *final(order) == paid_order(*old(order), payment_proof, now)
                &&& final(order).wf()
            },
            Err(e) => {
                &&& confirm_payment_check(*old(order), payer) == Some(e)
                &&& *final(order) == *old(order)
            },
        },
{
    if order.status != OrderStatus::Matched {
        return Err(P2PError::OrderNotMatched);
    }
    let is_buyer = match order.order_type {
        OrderType::Buy => order.maker == payer,
        OrderType::Sell => order.taker.unwrap() == payer,
    };
    if !is_buyer {
        return Err(P2PError::NotBuyer);
    }
    order.status = OrderStatus::Paid;
    order.payment_proof = Some(payment_proof);
    order.payment_time = Some(now);
    Ok(())
}

/// The rejection a token release meets, if any: the order must be paid and
/// the caller its seller-role party.
pub open spec fn release_tokens_check(order: Order, seller: u64) -> Option<P2PError> {
    if !(order.status is Paid) {
        Some(P2PError::OrderNotPaid)
    } else if seller != order.seller() {
        Some(P2PError::NotSeller)
    } else {
        None
    }
}

/// The order record after its trade settled.
pub open spec fn completed_order(order: Order, now: i64) -> Order {
    Order { status: OrderStatus::Completed, completed_at: Some(now), ..order }
}

/// The profile after its owner settled one more trade: both trade counters
/// up by one, ten reputation points awarded, and the completion rate
/// recomputed over the new counters.
pub open spec fn traded_profile(profile: UserProfile) -> UserProfile {
    UserProfile {
        total_trades: (profile.total_trades + 1) as u32,
        completed_trades: (profile.completed_trades + 1) as u32,
        reputation: reputation_add_spec(profile.reputation, 10),
        completion_rate: (((profile.completed_trades + 1) * 10000) / (profile.total_trades
            + 1)) as u32,
        ..profile
    }
}

/// Settles a paid order: the seller releases custody. The buyer receives the
/// escrowed amount less the platform fee, the fee goes to the platform's fee
/// account, and the two directives together pay out exactly the escrowed
/// amount — both are executed against the order's vault in one atomic unit.
/// Moves the order to `Completed`, the custody to `Released`, and credits
/// both parties' profiles with a completed trade.
pub fn release_tokens(
    config: &PlatformConfig,
    order: &mut Order,
    escrow: &mut EscrowAccount,
    maker_profile: &mut UserProfile,
    taker_profile: &mut UserProfile,
    seller: u64,
    now: i64,
) -> (result: Result<(TokenTransfer, Option<TokenTransfer>), P2PError>)
    requires
        config.wf(),
        old(order).wf(),
        custody_matches_order(*old(order), Some(*old(escrow))),
        old(maker_profile).wf(),
        old(taker_profile).wf(),
        old(maker_profile).total_trades < u32::MAX,
        old(taker_profile).total_trades < u32::MAX,
    ensures
        match result {
            Ok((payout, fee_transfer)) => {
                &&& release_tokens_check(*old(order), seller) is None
                &&& payout == TokenTransfer::payout(
                    old(order).order_id,
                    old(order).buyer(),
                    (old(order).amount - fee_spec(old(order).amount, config.platform_fee)) as u64,
                )
                &&& fee_transfer == (if fee_spec(old(order).amount, config.platform_fee) > 0 {
                    Some(
                        TokenTransfer::fee(
                            old(order).order_id,
                            fee_spec(old(order).amount, config.platform_fee) as u64,
                        ),
                    )
                } else {
                    None
                })
                &&& payout.amount + fee_spec(old(order).amount, config.platform_fee) == old(
                    order,
                ).amount
                &&& *final(order) == completed_order(*old(order), now)
                &&& final(order).wf()
                &&& *final(escrow) == (EscrowAccount {
                    status: EscrowStatus::Released,
                    ..*old(escrow)
                })
                &&& custody_matches_order(*final(order), Some(*final(escrow)))
                &&& *final(maker_profile) == traded_profile(*old(maker_profile))
                &&& *final(taker_profile) == traded_profile(*old(taker_profile))
                &&& final(maker_profile).wf()
                &&& final(taker_profile).wf()
            },
            Err(e) => {
                &&& release_tokens_check(*old(order), seller) == Some(e)
                &&& *final(order) == *old(order)
                &&& *final(escrow) == *old(escrow)
                &&& *final(maker_profile) == *old(maker_profile)
                &&& *final(taker_profile) == *old(taker_profile)
            },
        },
{
    if order.status != OrderStatus::Paid {
        return Err(P2PError::OrderNotPaid);
    }
    let is_seller = match order.order_type {
        OrderType::Buy => order.taker.unwrap() == seller,
        OrderType::Sell => order.maker == seller,
    };
    if !is_seller {
        return Err(P2PError::NotSeller);
    }
    let fee = calculate_fee(order.amount, config.platform_fee);
    let release_amount = order.amount - fee;
    let buyer = match order.order_type {
        OrderType::Buy => order.maker,
        OrderType::Sell => order.taker.unwrap(),
    };
    order.status = OrderStatus::Completed;
    order.completed_at = Some(now);
    escrow.status = EscrowStatus::Released;
    maker_profile.total_trades = maker_profile.total_trades + 1;
    maker_profile.completed_trades = maker_profile.completed_trades + 1;
    maker_profile.add_reputation(10);
    maker_profile.update_completion_rate();
    taker_profile.total_trades = taker_profile.total_trades + 1;
    taker_profile.completed_trades = taker_profile.completed_trades + 1;
    taker_profile.add_reputation(10);
    taker_profile.update_completion_rate();
    let payout = TokenTransfer {
        from: TransferEndpoint::EscrowVault { order_id: order.order_id },
        to: TransferEndpoint::Wallet { owner: buyer },
        amount: release_amount,
    };
    let fee_transfer = if fee > 0 {
        Some(
            TokenTransfer {
                from: TransferEndpoint::EscrowVault { order_id: order.order_id },
                to: TransferEndpoint::PlatformFees,
                amount: fee,
            },
        )
    } else {
        None
    };
    Ok((payout, fee_transfer))
}

/// The rejection a cancellation meets, if any: the order must still be
/// pending or matched, and the caller one of its parties.
pub open spec fn cancel_order_check(order: Order, canceler: u64) -> Option<P2PError> {
    if !(order.status is Pending || order.status is Matched) {
        Some(P2PError::OrderCannotCancel)
    } else if !order.is_participant(canceler) {
        Some(P2PError::NotAuthorized)
    } else {
        None
    }
}

/// The order record after a cancellation.
pub open spec fn cancelled_order(order: Order, reason: String, now: i64) -> Order {
    Order {
        status: OrderStatus::Cancelled,
        cancelled_at: Some(now),
        cancel_reason: Some(reason),
        ..order
    }
}

/// The profile after its owner cancelled an order: one more cancelled trade
/// and a five-point reputation penalty.
pub open spec fn cancelled_profile(profile: UserProfile) -> UserProfile {
    UserProfile {
        cancelled_trades: (profile.cancelled_trades + 1) as u32,
        reputation: reputation_sub_spec(profile.reputation, 5),
        ..profile
    }
}

/// Cancels a pending or matched order. Whatever custody exists is refunded
/// in full to its depositor — no fee is charged — and marked `Refunded`;
/// a buy order cancelled before it was taken holds no custody and moves no
/// funds. The canceler's profile takes the reputation penalty.
pub fn cancel_order(
    order: &mut Order,
    escrow: &mut Option<EscrowAccount>,
    canceler_profile: &mut UserProfile,
    canceler: u64,
    reason: String,
    now: i64,
) -> (result: Result<Option<TokenTransfer>, P2PError>)
    requires
        old(order).wf(),
        custody_matches_order(*old(order), *old(escrow)),
        old(canceler_profile).cancelled_trades < u32::MAX,
    ensures
        match result {
            Ok(refund) => {
                &&& cancel_order_check(*old(order), canceler) is None
                &&& *final(order) == cancelled_order(*old(order), reason, now)
                &&& final(order).wf()
                &&& custody_matches_order(*final(order), *final(escrow))
                &&& *final(canceler_profile) == cancelled_profile(*old(canceler_profile))
                &&& match *old(escrow) {
                    Some(held) => {
                        &&& *final(escrow) == Some(EscrowAccount {
                            status: EscrowStatus::Refunded,
                            ..held
                        })
                        &&& refund == Some(TokenTransfer::payout(held.order_id, held.seller, held.amount))
                        &&& held.amount == old(order).amount
                    },
                    None => *final(escrow) is None && refund is None,
                }
            },
            Err(e) => {
                &&& cancel_order_check(*old(order), canceler) == Some(e)
                &&& *final(order) == *old(order)
                &&& *final(escrow) == *old(escrow)
                &&& *final(canceler_profile) == *old(canceler_profile)
            },
        },
{
    let cancellable = order.status == OrderStatus::Pending || order.status
        == OrderStatus::Matched;
    if !cancellable {
        return Err(P2PError::OrderCannotCancel);
    }
    let is_maker = order.maker == canceler;
    let is_taker = match order.taker {
        Some(t) => t == canceler,
        None => false,
    };
    if !is_maker && !is_taker {
        return Err(P2PError::NotAuthorized);
    }
    order.status = OrderStatus::Cancelled;
    order.cancelled_at = Some(now);
    order.cancel_reason = Some(reason);
    canceler_profile.cancelled_trades = canceler_profile.cancelled_trades + 1;
    canceler_profile.subtract_reputation(5);
    match *escrow {
        Some(held) => {
            *escrow = Some(EscrowAccount { status: EscrowStatus::Refunded, ..held });
            Ok(
                Some(
                    TokenTransfer {
                        from: TransferEndpoint::EscrowVault { order_id: held.order_id },
                        to: TransferEndpoint::Wallet { owner: held.seller },
                        amount: held.amount,
                    },
                ),
            )
        },
        None => Ok(None),
    }
}

/// The rejection a dispute opening meets, if any: the order must be matched
/// or paid, the platform live, and the caller one of the order's parties.
pub open spec fn open_dispute_check(
    config: PlatformConfig,
    order: Order,
    disputer: u64,
) -> Option<P2PError> {
    if !(order.status is Matched || order.status is Paid) {
        Some(P2PError::OrderNotMatched)
    } else if config.paused {
        Some(P2PError::PlatformPaused)
    } else if !order.is_participant(disputer) {
        Some(P2PError::NotParticipant)
    } else {
        None
    }
}

/// The dispute record a successful opening produces: the caller as
/// plaintiff, the order's other party as defendant, and the platform
/// authority as arbitrator.
pub open spec fn new_dispute(
    order: Order,
    plaintiff: u64,
    arbitrator: u64,
    reason: String,
    evidence_hashes: Vec<[u8; 32]>,
    now: i64,
) -> Dispute {
    Dispute {
        order_id: order.order_id,
        plaintiff,
        defendant: if plaintiff == order.maker {
            order.taker->0
        } else {
            order.maker
        },
        arbitrator,
        reason,
        evidence_hashes,
        status: DisputeStatus::Opened,
        ruling: None,
        created_at: now,
        resolved_at: None,
    }
}

/// The order record while its dispute runs.
pub open spec fn disputed_order(order: Order) -> Order {
    Order { status: OrderStatus::Disputed, ..order }
}

/// Opens a dispute against a matched or paid order on behalf of one of its
/// parties, suspending normal progress: the order moves to `Disputed` and
/// its custody stays locked until the arbitrator rules. No funds move.
pub fn open_dispute(
    config: &PlatformConfig,
    order: &mut Order,
    disputer: u64,
    reason: String,
    evidence_hashes: Vec<[u8; 32]>,
    now: i64,
) -> (result: Result<Dispute, P2PError>)
    requires
        old(order).wf(),
        evidence_hashes@.len() <= 10,
    ensures
        match result {
            Ok(dispute) => {
                &&& open_dispute_check(*config, *old(order), disputer) is None
                &&& dispute == new_dispute(*old(order), disputer, config.authority, reason, evidence_hashes, now)
                &&& dispute.wf()
                &&& *final(order) == disputed_order(*old(order))
                &&& final(order).wf()
                &&& dispute_matches_order(*final(order), dispute)
            },
            Err(e) => {
                &&& open_dispute_check(*config, *old(order), disputer) == Some(e)
                &&& *final(order) == *old(order)
            },
        },
{
    let in_scope = order.status == OrderStatus::Matched || order.status == OrderStatus::Paid;
    if !in_scope {
        return Err(P2PError::OrderNotMatched);
    }
    if config.paused {
        return Err(P2PError::PlatformPaused);
    }
    let is_maker = order.maker == disputer;
    let is_taker = match order.taker {
        Some(t) => t == disputer,
        None => false,
    };
    if !is_maker && !is_taker {
        return Err(P2PError::NotParticipant);
    }
    let defendant = if is_maker {
        order.taker.unwrap()
    } else {
        order.maker
    };
    order.status = OrderStatus::Disputed;
    Ok(
        Dispute {
            order_id: order.order_id,
            plaintiff: disputer,
            defendant,
            arbitrator: config.authority,
            reason,
            evidence_hashes,
            status: DisputeStatus::Opened,
            ruling: None,
            created_at: now,
            resolved_at: None,
        },
    )
}

/// The rejection a dispute resolution meets, if any: the caller must be the
/// arbitrator, and the dispute still open against a disputed order.
pub open spec fn resolve_dispute_check(
    config: PlatformConfig,
    order: Order,
    dispute: Dispute,
    arbitrator: u64,
) -> Option<P2PError> {
    if arbitrator != config.authority {
        Some(P2PError::NotArbitrator)
    } else if !(dispute.status is Opened) || !(order.status is Disputed) {
        Some(P2PError::DisputeNotOpen)
    } else {
        None
    }
}

/// The dispute record after resolution: the ruling recorded, immutable
/// thereafter.
pub open spec fn resolved_dispute(dispute: Dispute, ruling: Ruling, now: i64) -> Dispute {
    Dispute {
        status: DisputeStatus::Resolved,
        ruling: Some(ruling),
        resolved_at: Some(now),
        ..dispute
    }
}

/// The order record after its dispute was resolved.
pub open spec fn arbitrated_order(order: Order, now: i64) -> Order {
    Order { status: OrderStatus::Arbitrated, completed_at: Some(now), ..order }
}

/// Resolves an open dispute with the arbitrator's ruling and performs the
/// final custody disposition: the full escrowed amount to the buyer
/// (`FavorBuyer`), the full amount back to the seller (`FavorSeller`), or
/// half to the buyer and the rest — the other half plus any odd remainder —
/// back to the seller (`Split`). The directives together pay out exactly the
/// escrowed amount. The dispute moves to `Resolved`, the order to
/// `Arbitrated`, both terminal; reputation is left untouched.
pub fn resolve_dispute(
    config: &PlatformConfig,
    order: &mut Order,
    dispute: &mut Dispute,
    escrow: &mut EscrowAccount,
    arbitrator: u64,
    ruling: Ruling,
    now: i64,
) -> (result: Result<(TokenTransfer, Option<TokenTransfer>), P2PError>)
    requires
        old(order).wf(),
        custody_matches_order(*old(order), Some(*old(escrow))),
        dispute_matches_order(*old(order), *old(dispute)),
        old(dispute).wf(),
    ensures
        match result {
            Ok((first, second)) => {
                &&& resolve_dispute_check(*config, *old(order), *old(dispute), arbitrator) is None
                &&& *final(dispute) == resolved_dispute(*old(dispute), ruling, now)
                &&& final(dispute).wf()
                &&& *final(order) == arbitrated_order(*old(order), now)
                &&& final(order).wf()
                &&& dispute_matches_order(*final(order), *final(dispute))
                &&& custody_matches_order(*final(order), Some(*final(escrow)))
                &&& match ruling {
                    Ruling::FavorBuyer => {
                        &&& first == TokenTransfer::payout(old(order).order_id, old(order).buyer(), old(escrow).amount)
                        &&& second is None
                        &&& *final(escrow) == (EscrowAccount {
                            status: EscrowStatus::Released,
                            ..*old(escrow)
                        })
                    },
                    Ruling::FavorSeller => {
                        &&& first == TokenTransfer::payout(old(order).order_id, old(order).seller(), old(escrow).amount)
                        &&& second is None
                        &&& *final(escrow) == (EscrowAccount {
                            status: EscrowStatus::Refunded,
                            ..*old(escrow)
                        })
                    },
                    Ruling::Split => {
                        &&& first == TokenTransfer::payout(old(order).order_id, old(order).buyer(), (old(escrow).amount / 2) as u64)
                        &&& second == Some(
                            TokenTransfer::payout(
                                old(order).order_id,
                                old(order).seller(),
                                (old(escrow).amount - old(escrow).amount / 2) as u64,
                            ),
                        )
                        &&& *final(escrow) == (EscrowAccount {
                            status: EscrowStatus::Released,
                            ..*old(escrow)
                        })
                    },
                }
                &&& first.amount + (match second {
                    Some(t) => t.amount,
                    None => 0u64,
                }) == old(escrow).amount
            },
            Err(e) => {
                &&& resolve_dispute_check(*config, *old(order), *old(dispute), arbitrator) == Some(e)
                &&& *final(order) == *old(order)
                &&& *final(dispute) == *old(dispute)
                &&& *final(escrow) == *old(escrow)
            },
        },
{
    if arbitrator != config.authority {
        return Err(P2PError::NotArbitrator);
    }
    if dispute.status != DisputeStatus::Opened || order.status != OrderStatus::Disputed {
        return Err(P2PError::DisputeNotOpen);
    }
    let order_id = order.order_id;
    let buyer = match order.order_type {
        OrderType::Buy => order.maker,
        OrderType::Sell => order.taker.unwrap(),
    };
    let seller = match order.order_type {
        OrderType::Buy => order.taker.unwrap(),
        OrderType::Sell => order.maker,
    };
    let amount = escrow.amount;
    dispute.status = DisputeStatus::Resolved;
    dispute.ruling = Some(ruling);
    dispute.resolved_at = Some(now);
    order.status = OrderStatus::Arbitrated;
    order.completed_at = Some(now);
    match ruling {
        Ruling::FavorBuyer => {
            escrow.status = EscrowStatus::Released;
            Ok(
                (
                    TokenTransfer {
                        from: TransferEndpoint::EscrowVault { order_id },
                        to: TransferEndpoint::Wallet { owner: buyer },
                        amount,
                    },
                    None,
                ),
            )
        },
        Ruling::FavorSeller => {
            escrow.status = EscrowStatus::Refunded;
            Ok(
                (
                    TokenTransfer {
                        from: TransferEndpoint::EscrowVault { order_id },
                        to: TransferEndpoint::Wallet { owner: seller },
                        amount,
                    },
                    None,
                ),
            )
        },
        Ruling::Split => {
            let half = amount / 2;
            escrow.status = EscrowStatus::Released;
            Ok(
                (
                    TokenTransfer {
                        from: TransferEndpoint::EscrowVault { order_id },
                        to: TransferEndpoint::Wallet { owner: buyer },
                        amount: half,
                    },
                    Some(
                        TokenTransfer {
                            from: TransferEndpoint::EscrowVault { order_id },
                            to: TransferEndpoint::Wallet { owner: seller },
                            amount: amount - half,
                        },
                    ),
                ),
            )
        },
    }
}

} // verus!
