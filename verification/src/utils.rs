//! Error taxonomy, notification events, and the pure fee, expiry and
//! reputation-level utilities.

use vstd::prelude::*;

use vstd::utf8::encode_utf8;

use crate::dispute::Ruling;
use crate::order::OrderType;

verus! {

/// Every way an operation of the engine can be rejected.
///
/// Rejections are detected before any custody transfer is issued, so a
/// returned error always means that no record changed.
#[derive(Clone, Copy, Debug, PartialEq, Eq, Structural)]
pub enum P2PError {
    /// The amount is zero or outside the order's limits.
    InvalidAmount,
    /// The price is zero.
    InvalidPrice,
    /// `min_limit` exceeds `max_limit`.
    InvalidLimit,
    /// The payment-method string exceeds the stored bound.
    PaymentMethodTooLong,
    /// Trading is suspended by the platform authority.
    PlatformPaused,
    /// The order is past the Pending status.
    OrderNotPending,
    /// The order already has a taker.
    OrderAlreadyTaken,
    /// The order's expiry time has passed.
    OrderExpired,
    /// The order is not in a status a dispute can be opened from.
    OrderNotMatched,
    /// The order is not in the Paid status.
    OrderNotPaid,
    /// The order is past the point where it can be cancelled.
    OrderCannotCancel,
    /// The caller holds no role that permits the operation.
    NotAuthorized,
    /// The caller is not the buyer-role party of the order.
    NotBuyer,
    /// The caller is not the seller-role party of the order.
    NotSeller,
    /// The caller is not the dispute's arbitrator.
    NotArbitrator,
    /// The caller is neither maker nor taker of the order.
    NotParticipant,
    /// The dispute is not open.
    DisputeNotOpen,
    /// A custody balance is too small for the requested transfer.
    InsufficientBalance,
    /// The caller's reputation is below a required threshold.
    InsufficientReputation,
    /// The caller's profile is banned.
    UserBanned,
    /// No order exists under the given id.
    OrderNotFound,
    /// No escrow custody exists under the given id.
    EscrowNotFound,
}

/// The fee charged on `amount` at `fee_rate` basis points, as unbounded
/// integer arithmetic: `floor(amount * fee_rate / 10000)`.
pub open spec fn fee_spec(amount: u64, fee_rate: u64) -> int {
    (amount * fee_rate) / 10000
}

/// `floor(amount * fee_rate / 10000)`, computed in a widened domain so the
/// intermediate product cannot overflow. A rate of at most 10000 basis
/// points keeps the fee within the amount itself.
pub fn calculate_fee(amount: u64, fee_rate: u64) -> (fee: u64)
    requires
        fee_rate <= 10000,
    ensures
        fee == fee_spec(amount, fee_rate),
        fee <= amount,
{
    proof {
        assert((amount * fee_rate) / 10000 <= amount) by (nonlinear_arith)
            requires
                fee_rate <= 10000,
        ;
    }
    (((amount as u128) * (fee_rate as u128)) / 10000) as u64
}

/// An order is expired exactly when the clock has reached `expires_at`.
pub fn is_order_expired(expires_at: i64, current_time: i64) -> (expired: bool)
    ensures
        expired == (current_time >= expires_at),
{
    current_time >= expires_at
}

/// The reputation band a score falls in.
pub open spec fn reputation_level_spec(reputation: u32) -> u8 {
    if reputation <= 50 {
        1
    } else if reputation <= 100 {
        2
    } else if reputation <= 200 {
        3
    } else if reputation <= 500 {
        4
    } else {
        5
    }
}

/// Maps a reputation score to its display level: the bands 0-50, 51-100,
/// 101-200, 201-500 and above 500 give levels 1 through 5.
pub fn calculate_reputation_level(reputation: u32) -> (level: u8)
    ensures
        level == reputation_level_spec(reputation),
        1 <= level <= 5,
{
    if reputation <= 50 {
        1
    } else if reputation <= 100 {
        2
    } else if reputation <= 200 {
        3
    } else if reputation <= 500 {
        4
    } else {
        5
    }
}

/// Display name of a reputation level.
pub fn get_level_name(level: u8) -> (name: &'static str)
    ensures
        level == 1 ==> name@ == "新手"@,
        level == 2 ==> name@ == "普通"@,
        level == 3 ==> name@ == "优秀"@,
        level == 4 ==> name@ == "卓越"@,
        level == 5 ==> name@ == "大神"@,
        !(1 <= level <= 5) ==> name@ == "未知"@,
{
    match level {
        1 => "新手",
        2 => "普通",
        3 => "优秀",
        4 => "卓越",
        5 => "大神",
        _ => "未知",
    }
}

/// Display icon of a reputation level.
pub fn get_level_icon(level: u8) -> (icon: &'static str)
    ensures
        level == 1 ==> icon@ == "🌱"@,
        level == 2 ==> icon@ == "🌿"@,
        level == 3 ==> icon@ == "⭐"@,
        level == 4 ==> icon@ == "💎"@,
        level == 5 ==> icon@ == "👑"@,
        !(1 <= level <= 5) ==> icon@ == "❓"@,
{
    match level {
        1 => "🌱",
        2 => "🌿",
        3 => "⭐",
        4 => "💎",
        5 => "👑",
        _ => "❓",
    }
}

/// A byte mapped to upper case where it is an ASCII lower-case letter, and
/// kept as it is everywhere else.
pub open spec fn ascii_upper_byte(b: u8) -> u8 {
    if 97 <= b && b <= 122 {
        (b - 32) as u8
    } else {
        b
    }
}

/// A byte string with every ASCII lower-case letter mapped to upper case.
pub open spec fn ascii_upper(s: Seq<u8>) -> Seq<u8> {
    s.map(|i: int, b: u8| ascii_upper_byte(b))
}

/// Whether a payment-method string, compared without regard to ASCII case,
/// is one the platform accepts.
pub open spec fn is_valid_payment_method(m: Seq<u8>) -> bool {
    ||| ascii_upper(m) == encode_utf8("SOL"@)
    ||| ascii_upper(m) == encode_utf8("USDT"@)
    ||| ascii_upper(m) == encode_utf8("USDC"@)
    ||| ascii_upper(m) == encode_utf8("ALIPAY"@)
    ||| ascii_upper(m) == encode_utf8("WECHAT"@)
    ||| ascii_upper(m) == encode_utf8("BANK"@)
    ||| ascii_upper(m) == encode_utf8("PAYPAL"@)
    ||| ascii_upper(m) == encode_utf8("REVOLUT"@)
}

/// Whether a vector holds exactly the bytes of a slice.
fn vec_eq_slice(v: &Vec<u8>, s: &[u8]) -> (eq: bool)
    ensures
        eq == (v@ == s@),
{
    if v.len() != s.len() {
        return false;
    }
    let mut i: usize = 0;
    while i < v.len()
        invariant
            i <= v@.len(),
            v@.len() == s@.len(),
            forall|j: int| 0 <= j < i ==> v@[j] == s@[j],
        decreases v@.len() - i,
    {
        if v[i] != s[i] {
            return false;
        }
        i += 1;
    }
    proof {
        assert(v@ =~= s@);
    }
    true
}

/// Checks a payment-method string against the accepted list, without regard
/// to ASCII case.
pub fn validate_payment_method(method: &str) -> (valid: bool)
    ensures
        valid == is_valid_payment_method(encode_utf8(method@)),
{
    let bytes = method.as_bytes();
    let mut upper: Vec<u8> = Vec::new();
    let mut i: usize = 0;
    while i < bytes.len()
        invariant
            i <= bytes@.len(),
            upper@ == ascii_upper(bytes@.take(i as int)),
        decreases bytes@.len() - i,
    {
        let b = bytes[i];
        let u = if 97 <= b && b <= 122 {
            b - 32
        } else {
            b
        };
        upper.push(u);
        proof {
            let t = bytes@.take(i as int);
            let t1 = bytes@.take(i as int + 1);
            assert(t1 =~= t.push(bytes@[i as int]));
            assert(ascii_upper(t1) =~= upper@);
        }
        i += 1;
    }
    proof {
        assert(bytes@.take(bytes@.len() as int) =~= bytes@);
    }
    vec_eq_slice(&upper, "SOL".as_bytes()) || vec_eq_slice(&upper, "USDT".as_bytes())
        || vec_eq_slice(&upper, "USDC".as_bytes()) || vec_eq_slice(&upper, "ALIPAY".as_bytes())
        || vec_eq_slice(&upper, "WECHAT".as_bytes()) || vec_eq_slice(&upper, "BANK".as_bytes())
        || vec_eq_slice(&upper, "PAYPAL".as_bytes()) || vec_eq_slice(
        &upper,
        "REVOLUT".as_bytes(),
    )
}

/// Notification that the platform configuration was created.
#[derive(Clone, Copy, Debug, PartialEq, Eq, Structural)]
pub struct PlatformInitialized {
    pub authority: u64,
    pub platform_fee: u64,
}

/// Notification that an order was created.
#[derive(Clone, Copy, Debug, PartialEq, Eq, Structural)]
pub struct OrderCreated {
    pub order_id: u64,
    pub maker: u64,
    pub order_type: OrderType,
    pub amount: u64,
    pub price: u64,
}

/// Notification that an order was taken.
#[derive(Clone, Copy, Debug, PartialEq, Eq, Structural)]
pub struct OrderTaken {
    pub order_id: u64,
    pub taker: u64,
}

/// Notification that the buyer confirmed the off-band payment.
#[derive(Clone, Copy, Debug, PartialEq, Eq, Structural)]
pub struct PaymentConfirmed {
    pub order_id: u64,
    pub payer: u64,
}

/// Notification that escrowed funds were released to the buyer.
#[derive(Clone, Copy, Debug, PartialEq, Eq, Structural)]
pub struct TokensReleased {
    pub order_id: u64,
    pub buyer: u64,
    pub amount: u64,
}

/// Notification that a trade settled.
#[derive(Clone, Copy, Debug, PartialEq, Eq, Structural)]
pub struct OrderCompleted {
    pub order_id: u64,
    pub buyer: u64,
    pub seller: u64,
}

/// Notification that an order was cancelled.
#[derive(Clone, Copy, Debug, PartialEq, Eq, Structural)]
pub struct OrderCancelled {
    pub order_id: u64,
    pub canceler: u64,
}

/// Notification that a deposit was locked into an order's vault.
#[derive(Clone, Copy, Debug, PartialEq, Eq, Structural)]
pub struct EscrowLocked {
    pub order_id: u64,
    pub amount: u64,
    pub seller: u64,
}

/// Notification that an order's vault paid out.
#[derive(Clone, Copy, Debug, PartialEq, Eq, Structural)]
pub struct EscrowReleased {
    pub order_id: u64,
    pub amount: u64,
    pub buyer: u64,
}

/// Notification that a dispute was opened.
#[derive(Clone, Debug, PartialEq, Eq)]
pub struct DisputeOpened {
    pub order_id: u64,
    pub plaintiff: u64,
    pub reason: String,
}

/// Notification that a dispute was resolved.
#[derive(Clone, Copy, Debug, PartialEq, Eq, Structural)]
pub struct DisputeResolved {
    pub order_id: u64,
    pub ruling: Ruling,
}

/// Notification that a profile's reputation score changed.
#[derive(Clone, Copy, Debug, PartialEq, Eq, Structural)]
pub struct ReputationUpdated {
    pub user: u64,
    pub change: i32,
    pub new_score: u32,
}

} // verus!
