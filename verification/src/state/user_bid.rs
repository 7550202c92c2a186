//! A bidder's bid on one campaign.

use vstd::prelude::*;
use crate::state::address::Address;

verus! {

/// Where a bid stands. `Approved` and `Rejected` are final.
#[derive(Clone, Copy, Debug, PartialEq, Eq, Structural)]
pub enum BidStatus {
    Pending,
    Approved,
    Rejected,
}

/// One bidder's bid on one campaign.
#[derive(Clone, Copy, Debug, PartialEq, Eq)]
pub struct UserBid {
    /// The bidder.
    pub user: Address,
    /// The campaign that the bid is on.
    pub product: Address,
    /// The capital in escrow.
    pub amount: u64,
    /// The allocation, fixed when the bid was placed.
    pub token_amount: u64,
    /// The slots asked for.
    pub slots_requested: u32,
    /// Where the bid stands.
    pub status: BidStatus,
    /// Whether the allocation has been handed out.
    pub tokens_claimed: bool,
    /// Whether the escrowed capital has been refunded.
    pub funds_claimed: bool,
    /// When the bid was placed.
    pub created_at: i64,
    /// The nonce that proves the bid's address unique.
    pub bump: u8,
}

impl UserBid {
    /// The bytes that a bid takes in storage.
    pub const INIT_SPACE: usize = 8 + 32 + 32 + 8 + 8 + 4 + 1 + 1 + 1 + 8 + 1;

    /// Tokens are handed out on approved bids only, and capital is refunded on rejected
    /// bids only.
    pub open spec fn wf(&self) -> bool {
        &&& self.tokens_claimed ==> self.status == BidStatus::Approved
        &&& self.funds_claimed ==> self.status == BidStatus::Rejected
    }

    /// Whether the bid has been decided, one way or the other.
    pub open spec fn is_final(&self) -> bool {
        self.status != BidStatus::Pending
    }

    /// What every operation keeps of a bid that it is handed: whose it is and what it is
    /// worth; its status once that is decided; each claim flag once it is set; and that it
    /// is well-formed.
    pub open spec fn evolves_to(&self, after: UserBid) -> bool {
        &&& after.user == self.user
        &&& after.product == self.product
        &&& after.amount == self.amount
        &&& after.token_amount == self.token_amount
        &&& after.slots_requested == self.slots_requested
        &&& self.is_final() ==> after.status == self.status
        &&& self.tokens_claimed ==> after.tokens_claimed
        &&& self.funds_claimed ==> after.funds_claimed
        &&& self.wf() ==> after.wf()
    }
}

} // verus!
