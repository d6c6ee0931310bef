use tpot_p2p::dispute::{DisputeStatus, Ruling};
use tpot_p2p::escrow::{EscrowAccount, EscrowStatus, TokenTransfer, TransferEndpoint};
use tpot_p2p::instructions::{
    cancel_order, confirm_payment, create_buy_order, create_sell_order, initialize, open_dispute,
    pause, release_tokens, resolve_dispute, resume, take_order,
};
use tpot_p2p::order::{Order, OrderStatus, OrderType};
use tpot_p2p::reputation::UserProfile;
use tpot_p2p::utils::P2PError;

const AUTHORITY: u64 = 1;
const MAKER: u64 = 10;
const TAKER: u64 = 20;
const STRANGER: u64 = 30;
const MINT: u64 = 7;

fn profile(wallet: u64) -> UserProfile {
    UserProfile {
        wallet,
        username: None,
        avatar: None,
        kyc_level: 0,
        reputation: 0,
        total_trades: 0,
        total_orders: 0,
        completed_trades: 0,
        cancelled_trades: 0,
        disputed_trades: 0,
        completion_rate: 0,
        created_at: 0,
        updated_at: 0,
        is_verified: false,
        is_banned: false,
    }
}

/// A sell order of 1000 units at price 5, limits 100..=2000, created at time 0.
fn sell_order_setup() -> (tpot_p2p::escrow::PlatformConfig, UserProfile, Order, Option<EscrowAccount>) {
    let config = initialize(AUTHORITY, 50, 100);
    let mut maker_profile = profile(MAKER);
    let (order, escrow, lock) = create_sell_order(
        &config,
        &mut maker_profile,
        MAKER,
        MINT,
        1,
        1000,
        5,
        "BANK".to_string(),
        100,
        2000,
        0,
    )
    .unwrap();
    assert_eq!(
        lock,
        TokenTransfer {
            from: TransferEndpoint::Wallet { owner: MAKER },
            to: TransferEndpoint::EscrowVault { order_id: 1 },
            amount: 1000,
        }
    );
    (config, maker_profile, order, Some(escrow))
}

#[test]
fn sell_order_creation_locks_escrow() {
    let (_, maker_profile, order, escrow) = sell_order_setup();
    assert_eq!(maker_profile.total_orders, 1);
    assert_eq!(order.status, OrderStatus::Pending);
    assert_eq!(order.order_type, OrderType::Sell);
    assert_eq!(order.taker, None);
    assert_eq!(order.total_value, 5000);
    assert_eq!(order.expires_at, 86400);
    let escrow = escrow.unwrap();
    assert_eq!(escrow.order_id, 1);
    assert_eq!(escrow.seller, MAKER);
    assert_eq!(escrow.buyer, None);
    assert_eq!(escrow.amount, 1000);
    assert_eq!(escrow.status, EscrowStatus::Locked);
}

#[test]
fn release_pays_exact_fee() {
    // Scenario: order_id 1, sell order of 1000 at price 5, platform fee 50
    // basis points: on release the fee is 5 and the buyer receives 995.
    let (config, mut maker_profile, mut order, mut escrow) = sell_order_setup();
    let mut taker_profile = profile(TAKER);
    let lock = take_order(&mut order, &mut escrow, &mut taker_profile, TAKER, 1000, 10).unwrap();
    assert_eq!(lock, None);
    assert_eq!(order.status, OrderStatus::Matched);
    assert_eq!(order.taker, Some(TAKER));
    assert_eq!(escrow.unwrap().buyer, Some(TAKER));

    // In a sell order the taker holds the buyer role.
    confirm_payment(&mut order, TAKER, "receipt".to_string(), 20).unwrap();
    assert_eq!(order.status, OrderStatus::Paid);

    let mut held = escrow.unwrap();
    let (payout, fee_transfer) = release_tokens(
        &config,
        &mut order,
        &mut held,
        &mut maker_profile,
        &mut taker_profile,
        MAKER,
        30,
    )
    .unwrap();
    assert_eq!(
        payout,
        TokenTransfer {
            from: TransferEndpoint::EscrowVault { order_id: 1 },
            to: TransferEndpoint::Wallet { owner: TAKER },
            amount: 995,
        }
    );
    assert_eq!(
        fee_transfer,
        Some(TokenTransfer {
            from: TransferEndpoint::EscrowVault { order_id: 1 },
            to: TransferEndpoint::PlatformFees,
            amount: 5,
        })
    );
    assert_eq!(payout.amount + fee_transfer.unwrap().amount, 1000);
    assert_eq!(order.status, OrderStatus::Completed);
    assert_eq!(held.status, EscrowStatus::Released);
    for p in [&maker_profile, &taker_profile] {
        assert_eq!(p.total_trades, 1);
        assert_eq!(p.completed_trades, 1);
        assert_eq!(p.reputation, 10);
        assert_eq!(p.completion_rate, 10000);
    }
}

#[test]
fn zero_fee_release_has_no_fee_transfer() {
    let config = initialize(AUTHORITY, 0, 0);
    let mut maker_profile = profile(MAKER);
    let (mut order, escrow, _) = create_sell_order(
        &config,
        &mut maker_profile,
        MAKER,
        MINT,
        4,
        1000,
        5,
        "BANK".to_string(),
        100,
        2000,
        0,
    )
    .unwrap();
    let mut escrow = Some(escrow);
    let mut taker_profile = profile(TAKER);
    take_order(&mut order, &mut escrow, &mut taker_profile, TAKER, 1000, 10).unwrap();
    confirm_payment(&mut order, TAKER, "receipt".to_string(), 20).unwrap();
    let mut held = escrow.unwrap();
    let (payout, fee_transfer) = release_tokens(
        &config,
        &mut order,
        &mut held,
        &mut maker_profile,
        &mut taker_profile,
        MAKER,
        30,
    )
    .unwrap();
    assert_eq!(payout.amount, 1000);
    assert_eq!(fee_transfer, None);
}

#[test]
fn cancel_before_take_refunds_fully() {
    // A valid sell order cancelled before any take: the locked amount is
    // fully refunded to the maker, the escrow ends Refunded, the order ends
    // Cancelled, and no fee is charged.
    let (_, mut maker_profile, mut order, mut escrow) = sell_order_setup();
    let refund = cancel_order(
        &mut order,
        &mut escrow,
        &mut maker_profile,
        MAKER,
        "changed my mind".to_string(),
        50,
    )
    .unwrap();
    assert_eq!(
        refund,
        Some(TokenTransfer {
            from: TransferEndpoint::EscrowVault { order_id: 1 },
            to: TransferEndpoint::Wallet { owner: MAKER },
            amount: 1000,
        })
    );
    assert_eq!(order.status, OrderStatus::Cancelled);
    assert_eq!(order.cancel_reason.as_deref(), Some("changed my mind"));
    assert_eq!(escrow.unwrap().status, EscrowStatus::Refunded);
    assert_eq!(maker_profile.cancelled_trades, 1);
    // The penalty saturates at zero.
    assert_eq!(maker_profile.reputation, 0);
}

#[test]
fn cancel_pending_buy_order_moves_no_funds() {
    let config = initialize(AUTHORITY, 50, 100);
    let mut maker_profile = profile(MAKER);
    let mut order = create_buy_order(
        &config,
        &mut maker_profile,
        MAKER,
        MINT,
        2,
        500,
        3,
        "ALIPAY".to_string(),
        100,
        800,
        0,
    )
    .unwrap();
    let mut escrow: Option<EscrowAccount> = None;
    let refund = cancel_order(
        &mut order,
        &mut escrow,
        &mut maker_profile,
        MAKER,
        "no longer needed".to_string(),
        10,
    )
    .unwrap();
    assert_eq!(refund, None);
    assert_eq!(escrow, None);
    assert_eq!(order.status, OrderStatus::Cancelled);
}

#[test]
fn take_order_is_exclusive() {
    // Two attempts on the same pending order: exactly one succeeds, the
    // loser observes a stale-state rejection.
    let (_, _, mut order, mut escrow) = sell_order_setup();
    let mut first_profile = profile(TAKER);
    take_order(&mut order, &mut escrow, &mut first_profile, TAKER, 1000, 10).unwrap();
    let mut second_profile = profile(STRANGER);
    let second = take_order(&mut order, &mut escrow, &mut second_profile, STRANGER, 1000, 11);
    assert_eq!(second, Err(P2PError::OrderNotPending));
    assert_eq!(order.taker, Some(TAKER));
    assert_eq!(second_profile.total_orders, 0);
}

#[test]
fn take_after_expiry_fails() {
    // now >= expires_at at take time: the take fails with OrderExpired and
    // the order remains Pending.
    let (_, _, mut order, mut escrow) = sell_order_setup();
    let mut taker_profile = profile(TAKER);
    let expired = take_order(&mut order, &mut escrow, &mut taker_profile, TAKER, 1000, 86400);
    assert_eq!(expired, Err(P2PError::OrderExpired));
    assert_eq!(order.status, OrderStatus::Pending);
    assert_eq!(order.taker, None);
    assert_eq!(escrow.unwrap().status, EscrowStatus::Locked);
}

#[test]
fn buy_order_take_locks_taker_deposit() {
    let config = initialize(AUTHORITY, 50, 100);
    let mut maker_profile = profile(MAKER);
    let mut order = create_buy_order(
        &config,
        &mut maker_profile,
        MAKER,
        MINT,
        3,
        500,
        3,
        "PAYPAL".to_string(),
        100,
        800,
        0,
    )
    .unwrap();
    let mut escrow: Option<EscrowAccount> = None;
    let mut taker_profile = profile(TAKER);
    // The taker picks the final amount within the limits.
    let lock = take_order(&mut order, &mut escrow, &mut taker_profile, TAKER, 600, 10).unwrap();
    assert_eq!(
        lock,
        Some(TokenTransfer {
            from: TransferEndpoint::Wallet { owner: TAKER },
            to: TransferEndpoint::EscrowVault { order_id: 3 },
            amount: 600,
        })
    );
    assert_eq!(order.amount, 600);
    assert_eq!(order.total_value, 1800);
    let held = escrow.unwrap();
    assert_eq!(held.seller, TAKER);
    assert_eq!(held.buyer, Some(MAKER));
    assert_eq!(held.amount, 600);

    // In a buy order the maker holds the buyer role and the taker the
    // seller role.
    confirm_payment(&mut order, MAKER, "wire ref".to_string(), 20).unwrap();
    let mut held = held;
    let mut escrow_taker_profile = taker_profile.clone();
    let (payout, fee_transfer) = release_tokens(
        &config,
        &mut order,
        &mut held,
        &mut maker_profile,
        &mut escrow_taker_profile,
        TAKER,
        30,
    )
    .unwrap();
    // fee = floor(600 * 50 / 10000) = 3
    assert_eq!(payout.amount, 597);
    assert_eq!(payout.to, TransferEndpoint::Wallet { owner: MAKER });
    assert_eq!(fee_transfer.unwrap().amount, 3);
}

#[test]
fn buy_order_take_outside_limits_fails() {
    let config = initialize(AUTHORITY, 50, 100);
    let mut maker_profile = profile(MAKER);
    let mut order = create_buy_order(
        &config,
        &mut maker_profile,
        MAKER,
        MINT,
        3,
        500,
        3,
        "PAYPAL".to_string(),
        100,
        800,
        0,
    )
    .unwrap();
    let mut escrow: Option<EscrowAccount> = None;
    let mut taker_profile = profile(TAKER);
    let too_much = take_order(&mut order, &mut escrow, &mut taker_profile, TAKER, 900, 10);
    assert_eq!(too_much, Err(P2PError::InvalidAmount));
    let too_little = take_order(&mut order, &mut escrow, &mut taker_profile, TAKER, 99, 10);
    assert_eq!(too_little, Err(P2PError::InvalidAmount));
    assert_eq!(order.status, OrderStatus::Pending);
}

#[test]
fn dispute_favor_seller_returns_full_amount() {
    // A matched order is disputed and ruled FavorSeller: the full amount
    // goes back to the seller, the order ends Arbitrated, the dispute ends
    // Resolved, and resolving again fails with DisputeNotOpen.
    let (config, _, mut order, mut escrow) = sell_order_setup();
    let mut taker_profile = profile(TAKER);
    take_order(&mut order, &mut escrow, &mut taker_profile, TAKER, 1000, 10).unwrap();

    let mut dispute = open_dispute(
        &config,
        &mut order,
        MAKER,
        "buyer never paid".to_string(),
        vec![[7u8; 32]],
        20,
    )
    .unwrap();
    assert_eq!(order.status, OrderStatus::Disputed);
    assert_eq!(dispute.status, DisputeStatus::Opened);
    assert_eq!(dispute.plaintiff, MAKER);
    assert_eq!(dispute.defendant, TAKER);
    assert_eq!(dispute.arbitrator, AUTHORITY);
    assert_eq!(dispute.evidence_hashes.len(), 1);

    let mut held = escrow.unwrap();
    let (first, second) = resolve_dispute(
        &config,
        &mut order,
        &mut dispute,
        &mut held,
        AUTHORITY,
        Ruling::FavorSeller,
        30,
    )
    .unwrap();
    assert_eq!(
        first,
        TokenTransfer {
            from: TransferEndpoint::EscrowVault { order_id: 1 },
            to: TransferEndpoint::Wallet { owner: MAKER },
            amount: 1000,
        }
    );
    assert_eq!(second, None);
    assert_eq!(order.status, OrderStatus::Arbitrated);
    assert_eq!(dispute.status, DisputeStatus::Resolved);
    assert_eq!(dispute.ruling, Some(Ruling::FavorSeller));
    assert_eq!(held.status, EscrowStatus::Refunded);

    let again = resolve_dispute(
        &config,
        &mut order,
        &mut dispute,
        &mut held,
        AUTHORITY,
        Ruling::FavorBuyer,
        40,
    );
    assert_eq!(again, Err(P2PError::DisputeNotOpen));
    assert_eq!(dispute.ruling, Some(Ruling::FavorSeller));
}

#[test]
fn dispute_split_floors_buyer_half_on_odd_amount() {
    // Split ruling on an odd amount: the buyer receives the integer floor of
    // half, the seller the other half plus the odd remainder, and the two
    // payouts together drain exactly the escrowed amount.
    let config = initialize(AUTHORITY, 50, 100);
    let mut maker_profile = profile(MAKER);
    let (mut order, escrow, _) = create_sell_order(
        &config,
        &mut maker_profile,
        MAKER,
        MINT,
        9,
        1001,
        5,
        "BANK".to_string(),
        100,
        2000,
        0,
    )
    .unwrap();
    let mut escrow = Some(escrow);
    let mut taker_profile = profile(TAKER);
    take_order(&mut order, &mut escrow, &mut taker_profile, TAKER, 1001, 10).unwrap();
    confirm_payment(&mut order, TAKER, "receipt".to_string(), 20).unwrap();
    let mut dispute = open_dispute(
        &config,
        &mut order,
        TAKER,
        "wrong item".to_string(),
        vec![],
        30,
    )
    .unwrap();
    assert_eq!(dispute.plaintiff, TAKER);
    assert_eq!(dispute.defendant, MAKER);

    let mut held = escrow.unwrap();
    let (first, second) = resolve_dispute(
        &config,
        &mut order,
        &mut dispute,
        &mut held,
        AUTHORITY,
        Ruling::Split,
        40,
    )
    .unwrap();
    // The taker is the buyer of a sell order; the maker its seller.
    assert_eq!(first.to, TransferEndpoint::Wallet { owner: TAKER });
    assert_eq!(first.amount, 500);
    let second = second.unwrap();
    assert_eq!(second.to, TransferEndpoint::Wallet { owner: MAKER });
    assert_eq!(second.amount, 501);
    assert_eq!(first.amount + second.amount, 1001);
    assert_eq!(held.status, EscrowStatus::Released);
    assert_eq!(order.status, OrderStatus::Arbitrated);
}

#[test]
fn dispute_favor_buyer_releases_full_amount() {
    let (config, _, mut order, mut escrow) = sell_order_setup();
    let mut taker_profile = profile(TAKER);
    take_order(&mut order, &mut escrow, &mut taker_profile, TAKER, 1000, 10).unwrap();
    let mut dispute = open_dispute(
        &config,
        &mut order,
        TAKER,
        "paid but nothing released".to_string(),
        vec![],
        20,
    )
    .unwrap();
    let mut held = escrow.unwrap();
    let (first, second) = resolve_dispute(
        &config,
        &mut order,
        &mut dispute,
        &mut held,
        AUTHORITY,
        Ruling::FavorBuyer,
        30,
    )
    .unwrap();
    assert_eq!(first.to, TransferEndpoint::Wallet { owner: TAKER });
    assert_eq!(first.amount, 1000);
    assert_eq!(second, None);
    assert_eq!(held.status, EscrowStatus::Released);
}

#[test]
fn input_validation_errors() {
    let config = initialize(AUTHORITY, 50, 100);
    let mut maker_profile = profile(MAKER);
    let zero_amount = create_buy_order(
        &config,
        &mut maker_profile,
        MAKER,
        MINT,
        1,
        0,
        5,
        "BANK".to_string(),
        1,
        10,
        0,
    );
    assert_eq!(zero_amount, Err(P2PError::InvalidAmount));
    let zero_price = create_buy_order(
        &config,
        &mut maker_profile,
        MAKER,
        MINT,
        1,
        100,
        0,
        "BANK".to_string(),
        1,
        10,
        0,
    );
    assert_eq!(zero_price, Err(P2PError::InvalidPrice));
    let bad_limits = create_buy_order(
        &config,
        &mut maker_profile,
        MAKER,
        MINT,
        1,
        100,
        5,
        "BANK".to_string(),
        10,
        1,
        0,
    );
    assert_eq!(bad_limits, Err(P2PError::InvalidLimit));
    let long_method = create_buy_order(
        &config,
        &mut maker_profile,
        MAKER,
        MINT,
        1,
        100,
        5,
        "X".repeat(51),
        1,
        200,
        0,
    );
    assert_eq!(long_method, Err(P2PError::PaymentMethodTooLong));
    assert_eq!(maker_profile.total_orders, 0);
}

#[test]
fn paused_platform_rejects_orders_and_disputes() {
    let mut config = initialize(AUTHORITY, 50, 100);
    assert_eq!(pause(&mut config, STRANGER), Err(P2PError::NotAuthorized));
    pause(&mut config, AUTHORITY).unwrap();
    assert!(config.paused);

    let mut maker_profile = profile(MAKER);
    let rejected = create_sell_order(
        &config,
        &mut maker_profile,
        MAKER,
        MINT,
        1,
        1000,
        5,
        "BANK".to_string(),
        100,
        2000,
        0,
    );
    assert!(matches!(rejected, Err(P2PError::PlatformPaused)));

    resume(&mut config, AUTHORITY).unwrap();
    assert!(!config.paused);
    let accepted = create_sell_order(
        &config,
        &mut maker_profile,
        MAKER,
        MINT,
        1,
        1000,
        5,
        "BANK".to_string(),
        100,
        2000,
        0,
    );
    assert!(accepted.is_ok());
}

#[test]
fn role_checks_reject_wrong_callers() {
    let (config, mut maker_profile, mut order, mut escrow) = sell_order_setup();
    // Confirming before any match is a stale-state error.
    assert_eq!(
        confirm_payment(&mut order, TAKER, "r".to_string(), 5),
        Err(P2PError::OrderNotMatched)
    );
    let mut taker_profile = profile(TAKER);
    take_order(&mut order, &mut escrow, &mut taker_profile, TAKER, 1000, 10).unwrap();
    // The maker of a sell order is its seller, not its buyer.
    assert_eq!(
        confirm_payment(&mut order, MAKER, "r".to_string(), 20),
        Err(P2PError::NotBuyer)
    );
    // Releasing before the buyer confirmed is a stale-state error.
    let mut held = escrow.unwrap();
    let not_paid = release_tokens(
        &config,
        &mut order,
        &mut held,
        &mut maker_profile,
        &mut taker_profile,
        MAKER,
        20,
    );
    assert_eq!(not_paid, Err(P2PError::OrderNotPaid));
    confirm_payment(&mut order, TAKER, "r".to_string(), 20).unwrap();
    // The taker of a sell order is its buyer, not its seller.
    let not_seller = release_tokens(
        &config,
        &mut order,
        &mut held,
        &mut maker_profile,
        &mut taker_profile,
        TAKER,
        30,
    );
    assert_eq!(not_seller, Err(P2PError::NotSeller));
    // A paid order cannot be cancelled, and a stranger cannot dispute it.
    let mut escrow_opt = Some(held);
    let cannot_cancel = cancel_order(
        &mut order,
        &mut escrow_opt,
        &mut maker_profile,
        MAKER,
        "too late".to_string(),
        40,
    );
    assert_eq!(cannot_cancel, Err(P2PError::OrderCannotCancel));
    let not_participant = open_dispute(
        &config,
        &mut order,
        STRANGER,
        "unrelated".to_string(),
        vec![],
        40,
    );
    assert!(matches!(not_participant, Err(P2PError::NotParticipant)));
    assert_eq!(order.status, OrderStatus::Paid);
}

#[test]
fn stranger_cannot_cancel() {
    let (_, _, mut order, mut escrow) = sell_order_setup();
    let mut stranger_profile = profile(STRANGER);
    let refused = cancel_order(
        &mut order,
        &mut escrow,
        &mut stranger_profile,
        STRANGER,
        "not mine".to_string(),
        5,
    );
    assert_eq!(refused, Err(P2PError::NotAuthorized));
    assert_eq!(order.status, OrderStatus::Pending);
}

#[test]
fn dispute_requires_matched_or_paid_order() {
    let (config, _, mut order, _) = sell_order_setup();
    let premature = open_dispute(
        &config,
        &mut order,
        MAKER,
        "nothing happened yet".to_string(),
        vec![],
        5,
    );
    assert!(matches!(premature, Err(P2PError::OrderNotMatched)));
    assert_eq!(order.status, OrderStatus::Pending);
}

#[test]
fn only_arbitrator_resolves() {
    let (config, _, mut order, mut escrow) = sell_order_setup();
    let mut taker_profile = profile(TAKER);
    take_order(&mut order, &mut escrow, &mut taker_profile, TAKER, 1000, 10).unwrap();
    let mut dispute = open_dispute(
        &config,
        &mut order,
        MAKER,
        "buyer never paid".to_string(),
        vec![],
        20,
    )
    .unwrap();
    let mut held = escrow.unwrap();
    let refused = resolve_dispute(
        &config,
        &mut order,
        &mut dispute,
        &mut held,
        MAKER,
        Ruling::FavorSeller,
        30,
    );
    assert_eq!(refused, Err(P2PError::NotArbitrator));
    assert_eq!(dispute.status, DisputeStatus::Opened);
    assert_eq!(order.status, OrderStatus::Disputed);
}

#[test]
fn taker_may_cancel_matched_order() {
    let (_, _, mut order, mut escrow) = sell_order_setup();
    let mut taker_profile = profile(TAKER);
    take_order(&mut order, &mut escrow, &mut taker_profile, TAKER, 1000, 10).unwrap();
    let refund = cancel_order(
        &mut order,
        &mut escrow,
        &mut taker_profile,
        TAKER,
        "cannot pay".to_string(),
        20,
    )
    .unwrap();
    // The deposit goes back to its depositor, the maker of the sell order.
    assert_eq!(
        refund,
        Some(TokenTransfer {
            from: TransferEndpoint::EscrowVault { order_id: 1 },
            to: TransferEndpoint::Wallet { owner: MAKER },
            amount: 1000,
        })
    );
    assert_eq!(taker_profile.cancelled_trades, 1);
    assert_eq!(order.status, OrderStatus::Cancelled);
}
