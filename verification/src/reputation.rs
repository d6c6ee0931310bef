//! Per-participant profiles: trade counters and the saturating reputation
//! score with its display level.

use vstd::prelude::*;

use crate::utils::reputation_level_spec;

verus! {

/// The reputation score after adding `points`, saturating at the top of the
/// representable range.
pub open spec fn reputation_add_spec(score: u32, points: u32) -> u32 {
    if score + points <= u32::MAX {
        (score + points) as u32
    } else {
        u32::MAX
    }
}

/// The reputation score after subtracting `points`, saturating at zero.
pub open spec fn reputation_sub_spec(score: u32, points: u32) -> u32 {
    if points <= score {
        (score - points) as u32
    } else {
        0
    }
}

/// Per-participant record, created lazily on an identity's first order and
/// never destroyed. Every component that completes a transition updates the
/// counters named in its contract, and nothing else.
#[derive(Clone, Debug, PartialEq, Eq)]
pub struct UserProfile {
    /// The participant's identity.
    pub wallet: u64,
    pub username: Option<String>,
    pub avatar: Option<String>,
    /// KYC level flag supplied by an external verification process.
    pub kyc_level: u8,
    /// Saturating reputation score.
    pub reputation: u32,
    /// Trades that reached a completed settlement.
    pub total_trades: u32,
    /// Orders the participant created or took.
    pub total_orders: u32,
    pub completed_trades: u32,
    pub cancelled_trades: u32,
    pub disputed_trades: u32,
    /// `completed_trades * 10000 / total_trades`, in basis points.
    pub completion_rate: u32,
    pub created_at: i64,
    pub updated_at: i64,
    pub is_verified: bool,
    pub is_banned: bool,
}

impl UserProfile {
    /// Well-formedness of a stored profile.
    pub open spec fn wf(self) -> bool {
        &&& self.completed_trades <= self.total_trades
        &&& self.completion_rate <= 10000
    }

    /// The profile's display level for its reputation score.
    pub fn get_level(&self) -> (level: u8)
        ensures
            level == reputation_level_spec(self.reputation),
            1 <= level <= 5,
    {
        if self.reputation <= 50 {
            1
        } else if self.reputation <= 100 {
            2
        } else if self.reputation <= 200 {
            3
        } else if self.reputation <= 500 {
            4
        } else {
            5
        }
    }

    /// Recomputes the completion rate from the counters, in a widened domain
    /// so the product cannot overflow. A profile with no trades keeps its
    /// rate.
    pub fn update_completion_rate(&mut self)
        requires
            old(self).completed_trades <= old(self).total_trades,
        ensures
            *final(self) == (UserProfile {
                completion_rate: final(self).completion_rate,
                ..*old(self)
            }),
            old(self).total_trades > 0 ==> final(self).completion_rate == (old(
                self,
            ).completed_trades * 10000) / (old(self).total_trades as int),
            old(self).total_trades == 0 ==> final(self).completion_rate == old(
                self,
            ).completion_rate,
            final(self).completion_rate <= 10000 || final(self).completion_rate == old(
                self,
            ).completion_rate,
    {
        if self.total_trades > 0 {
            proof {
                let completed = self.completed_trades;
                let total = self.total_trades;
                assert((completed * 10000) / (total as int) <= 10000) by (nonlinear_arith)
                    requires
                        completed <= total,
                        total > 0,
                ;
            }
            self.completion_rate = ((self.completed_trades as u64) * 10000 / (
            self.total_trades as u64)) as u32;
        }
    }

    /// Adds reputation points, saturating at the top of the range.
    pub fn add_reputation(&mut self, points: u32)
        ensures
            *final(self) == (UserProfile {
                reputation: reputation_add_spec(old(self).reputation, points),
                ..*old(self)
            }),
    {
        self.reputation = self.reputation.saturating_add(points);
    }

    /// Subtracts reputation points, saturating at zero.
    pub fn subtract_reputation(&mut self, points: u32)
        ensures
            *final(self) == (UserProfile {
                reputation: reputation_sub_spec(old(self).reputation, points),
                ..*old(self)
            }),
    {
        self.reputation = self.reputation.saturating_sub(points);
    }
}

/// An append-only note of one reputation change, for external observers.
#[derive(Clone, Debug, PartialEq, Eq)]
pub struct ReputationRecord {
    pub user: u64,
    /// Signed change: positive for an award, negative for a penalty.
    pub change: i32,
    pub reason: String,
    pub order_id: Option<u64>,
    pub created_at: i64,
}

} // verus!
