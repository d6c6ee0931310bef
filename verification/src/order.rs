//! The order record: a maker's trade intent for a fungible asset, its
//! lifecycle status, and the buyer/seller roles its two parties hold.

use vstd::prelude::*;

verus! {

/// Whether the maker wants to buy or to sell the asset.
#[derive(Clone, Copy, Debug, PartialEq, Eq, Structural)]
pub enum OrderType {
    Buy,
    Sell,
}

/// Lifecycle status of an order.
///
/// `Pending -> Matched -> Paid -> Completed` is the happy path; `Pending` and
/// `Matched` orders can be cancelled, `Matched` and `Paid` orders can be
/// disputed, and a resolved dispute ends in `Arbitrated`. `Completed`,
/// `Cancelled` and `Arbitrated` are terminal. `Released` is reserved; no
/// transition produces it.
#[derive(Clone, Copy, Debug, PartialEq, Eq, Structural)]
pub enum OrderStatus {
    Pending,
    Matched,
    Paid,
    Released,
    Completed,
    Cancelled,
    Disputed,
    Arbitrated,
}

/// The byte length of a string under UTF-8, the form in which the record
/// store persists it.
pub open spec fn str_byte_len(s: Seq<char>) -> nat {
    vstd::utf8::encode_utf8(s).len()
}

/// The primary transaction record.
///
/// Identities (`maker`, `taker`, `token_mint`) are the plain values the
/// authentication and address substrate hands the engine; the engine never
/// derives or verifies them itself.
#[derive(Clone, Debug, PartialEq, Eq)]
pub struct Order {
    /// Unique key of the order; also the key its escrow custody is bound to.
    pub order_id: u64,
    /// Identity of the creator.
    pub maker: u64,
    /// Identity of the counterparty; `None` until the order is matched, and
    /// never changed after it is set.
    pub taker: Option<u64>,
    pub order_type: OrderType,
    /// Identity of the asset being traded.
    pub token_mint: u64,
    /// Asset amount; fixed at creation for sell orders, final from match
    /// time for buy orders.
    pub amount: u64,
    /// Unit price in the off-band payment currency.
    pub price: u64,
    /// `amount * price`, kept in step with `amount`.
    pub total_value: u64,
    /// Off-band payment method, at most 50 bytes.
    pub payment_method: String,
    pub status: OrderStatus,
    pub created_at: i64,
    /// Advisory expiry, checked only when the order is taken.
    pub expires_at: i64,
    pub payment_time: Option<i64>,
    pub completed_at: Option<i64>,
    pub cancelled_at: Option<i64>,
    /// Reference to the buyer's off-band payment evidence.
    pub payment_proof: Option<String>,
    pub cancel_reason: Option<String>,
    /// Smallest amount a taker may match, for buy orders.
    pub min_limit: u64,
    /// Largest amount a taker may match, for buy orders.
    pub max_limit: u64,
}

impl Order {
    /// Statuses in which the order has a taker bound to it.
    pub open spec fn has_counterparty(self) -> bool {
        ||| self.status is Matched
        ||| self.status is Paid
        ||| self.status is Disputed
        ||| self.status is Completed
        ||| self.status is Arbitrated
    }

    /// Well-formedness of a stored order. Creation establishes it and every
    /// transition preserves it.
    pub open spec fn wf(self) -> bool {
        &&& self.amount > 0
        &&& self.price > 0
        &&& self.min_limit <= self.max_limit
        &&& self.total_value == self.amount * self.price
        &&& str_byte_len(self.payment_method@) <= 50
        &&& self.status is Pending ==> self.taker is None
        &&& self.has_counterparty() ==> self.taker is Some
        &&& self.taker matches Some(t) ==> t != self.maker
        &&& self.order_type is Buy ==> self.max_limit * self.price <= u64::MAX
    }

    /// The buyer-role party: the maker of a buy order, the taker of a sell
    /// order.
    pub open spec fn buyer(self) -> u64
        recommends
            self.taker is Some,
    {
        match self.order_type {
            OrderType::Buy => self.maker,
            OrderType::Sell => self.taker->0,
        }
    }

    /// The seller-role party: the taker of a buy order, the maker of a sell
    /// order.
    pub open spec fn seller(self) -> u64
        recommends
            self.taker is Some,
    {
        match self.order_type {
            OrderType::Buy => self.taker->0,
            OrderType::Sell => self.maker,
        }
    }

    /// Whether `who` is the maker or the bound taker.
    pub open spec fn is_participant(self, who: u64) -> bool {
        self.maker == who || self.taker == Some(who)
    }
}

} // verus!
