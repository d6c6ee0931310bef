//! Disputes: opened against a matched or paid order by one of its parties,
//! resolved by the arbitrator with a ruling that drives the final custody
//! transfer.

use vstd::prelude::*;

use crate::order::Order;

verus! {

/// Lifecycle status of a dispute. The engine opens a dispute in `Opened`
/// and moves it to `Resolved` exactly once; `EvidencePhase` and
/// `Arbitrating` are reserved intermediate phases no transition produces.
#[derive(Clone, Copy, Debug, PartialEq, Eq, Structural)]
pub enum DisputeStatus {
    Opened,
    EvidencePhase,
    Arbitrating,
    Resolved,
}

/// The arbitrator's decision on where the escrowed funds go.
#[derive(Clone, Copy, Debug, PartialEq, Eq, Structural)]
pub enum Ruling {
    /// The full escrowed amount goes to the buyer-role party.
    FavorBuyer,
    /// The full escrowed amount goes back to the seller-role party.
    FavorSeller,
    /// Half the escrowed amount (integer floor) goes to the buyer, the rest
    /// — the other half plus any odd remainder — back to the seller.
    Split,
}

/// The dispute record, 1:1 with the order it is opened against. Once
/// resolved it is immutable.
#[derive(Clone, Debug, PartialEq, Eq)]
pub struct Dispute {
    /// Key of the disputed order.
    pub order_id: u64,
    /// Identity of the party that opened the dispute.
    pub plaintiff: u64,
    /// Identity of the order's other party.
    pub defendant: u64,
    /// Identity entitled to resolve the dispute; the platform authority.
    pub arbitrator: u64,
    pub reason: String,
    /// Content-addressed references to off-band evidence, at most 10.
    pub evidence_hashes: Vec<[u8; 32]>,
    pub status: DisputeStatus,
    /// The recorded decision; `None` until the dispute is resolved.
    pub ruling: Option<Ruling>,
    pub created_at: i64,
    pub resolved_at: Option<i64>,
}

impl Dispute {
    /// Well-formedness of a stored dispute: the bounded evidence list, and
    /// ruling and resolution time recorded exactly when it is resolved.
    pub open spec fn wf(self) -> bool {
        &&& self.evidence_hashes@.len() <= 10
        &&& (self.status is Resolved <==> self.ruling is Some)
        &&& (self.status is Resolved <==> self.resolved_at is Some)
    }
}

/// Coherence between an order and the dispute stored under its key: they
/// share the key, the dispute is between the order's two parties, and the
/// dispute is open exactly while the order sits in `Disputed`.
pub open spec fn dispute_matches_order(order: Order, dispute: Dispute) -> bool {
    &&& dispute.order_id == order.order_id
    &&& (dispute.status is Opened <==> order.status is Disputed)
    &&& order.is_participant(dispute.plaintiff)
    &&& order.is_participant(dispute.defendant)
    &&& dispute.plaintiff != dispute.defendant
}

} // verus!
