//! The owner approves a bid.
//!
//! Approval is the one gate to an allocation. It moves neither capital nor tokens: it
//! entitles the bidder to claim tokens after the launch, and it cannot be taken back.

use vstd::prelude::*;
use crate::errors::ContractError;
use crate::state::address::Address;
use crate::state::product::Product;
use crate::state::user_bid::{BidStatus, UserBid};

verus! {

/// The accounts of an approval.
#[derive(Clone, Debug, PartialEq, Eq)]
pub struct ApproveBid {
    /// Who asks for the approval.
    pub product_owner: Address,
    /// The address of the campaign.
    pub product_key: Address,
    pub product: Product,
    /// The bid to approve.
    pub user_bid: UserBid,
}

impl ApproveBid {
    /// Why the approval is refused, if it is: the caller is not the owner of the campaign
    /// or the bid is on another campaign; else the bid is decided already; else no slot is
    /// left.
    pub open spec fn refusal(&self) -> Option<ContractError> {
        if self.product.maker != self.product_owner || self.user_bid.product != self.product_key {
            Some(ContractError::UnauthorizedAccess)
        } else if self.user_bid.status != BidStatus::Pending {
            Some(ContractError::BidAlreadyProcessed)
        } else if self.product.approved_bids >= self.product.ipo_slots {
            Some(ContractError::AllSlotsFilled)
        } else {
            None
        }
    }

    /// The accounts after the approval: the bid is approved and takes one slot.
    pub open spec fn approved(&self) -> ApproveBid {
        ApproveBid {
            product: Product {
                approved_bids: (self.product.approved_bids + 1) as u32,
                ..self.product
            },
            user_bid: UserBid { status: BidStatus::Approved, ..self.user_bid },
            ..*self
        }
    }
}

/// The campaign after approval has been asked for each of `bids` in turn, by `owner` for the
/// campaign at `product_key`: each approval that is not refused takes a slot.
pub open spec fn after_approvals(
    product: Product,
    owner: Address,
    product_key: Address,
    bids: Seq<UserBid>,
) -> Product
    decreases bids.len(),
{
    if bids.len() == 0 {
        product
    } else {
        let before = after_approvals(product, owner, product_key, bids.drop_last());
        let ctx = ApproveBid {
            product_owner: owner,
            product_key,
            product: before,
            user_bid: bids.last(),
        };
        if ctx.refusal() is None {
            ctx.approved().product
        } else {
            before
        }
    }
}

/// No run of approvals, whoever asks and whatever the bids, takes a campaign beyond its
/// slots; and the campaign that comes out of it is one that the first evolves to.
pub proof fn lemma_approval_run_stays_within_slots(
    product: Product,
    owner: Address,
    product_key: Address,
    bids: Seq<UserBid>,
)
    requires
        product.approved_bids <= product.ipo_slots,
    ensures
        after_approvals(product, owner, product_key, bids).approved_bids <= product.ipo_slots,
        after_approvals(product, owner, product_key, bids).approved_bids
            <= product.approved_bids + bids.len(),
        product.evolves_to(after_approvals(product, owner, product_key, bids)),
    decreases bids.len(),
{
    if bids.len() > 0 {
        lemma_approval_run_stays_within_slots(product, owner, product_key, bids.drop_last());
    }
}

/// However many approvals are asked for, a campaign never has more approved bids than
/// slots: an approval that goes through leaves the count within the slots, and one asked of
/// a campaign whose slots are taken is refused, for want of a slot where nothing else is
/// wrong with it.
pub proof fn lemma_approvals_stay_within_slots(ctx: ApproveBid)
    ensures
        ctx.refusal() is None ==> ctx.approved().product.approved_bids
            <= ctx.product.ipo_slots,
        ctx.product.approved_bids >= ctx.product.ipo_slots ==> ctx.refusal() is Some,
        ctx.product.approved_bids >= ctx.product.ipo_slots && ctx.product.maker
            == ctx.product_owner && ctx.user_bid.product == ctx.product_key
            && ctx.user_bid.status == BidStatus::Pending ==> ctx.refusal() == Some(
            ContractError::AllSlotsFilled,
        ),
{
}

/// Approves the bid, or refuses and changes nothing.
///
/// A campaign never has more approved bids than slots, and a bid that is decided stays as
/// it is.
pub fn handler(ctx: &mut ApproveBid) -> (res: Result<(), ContractError>)
    ensures
        match res {
            Ok(_) => old(ctx).refusal() is None && *final(ctx) == old(ctx).approved(),
            Err(e) => old(ctx).refusal() == Some(e) && *final(ctx) == *old(ctx),
        },
        old(ctx).product.evolves_to(final(ctx).product),
        old(ctx).user_bid.evolves_to(final(ctx).user_bid),
        old(ctx).user_bid.is_final() ==> res is Err,
        old(ctx).product.approved_bids >= old(ctx).product.ipo_slots ==> res is Err,
{
    if ctx.product.maker != ctx.product_owner || ctx.user_bid.product != ctx.product_key {
        return Err(ContractError::UnauthorizedAccess);
    }
    match ctx.user_bid.status {
        BidStatus::Pending => {},
        _ => {
            return Err(ContractError::BidAlreadyProcessed);
        },
    }
    if !ctx.product.can_approve_more_bids() {
        return Err(ContractError::AllSlotsFilled);
    }
    ctx.user_bid.status = BidStatus::Approved;
    ctx.product.approved_bids = ctx.product.approved_bids + 1;
    Ok(())
}

} // verus!
