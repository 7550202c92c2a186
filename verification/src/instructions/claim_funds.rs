//! The owner claims the funds of a campaign.
//!
//! The owner is due the deposit and the amounts of the approved bids. The amounts of
//! pending bids stay in the treasury.
//!
//! The approved bids are handed in with the claim and held against the campaign's own
//! count: no bidder twice, and as many approved bids as the campaign has approved.

use vstd::prelude::*;
use crate::errors::ContractError;
use crate::state::address::Address;
use crate::state::custody::{Treasury, Wallet};
use crate::state::product::{Product, ProductPhase};
use crate::state::user_bid::{BidStatus, UserBid};

verus! {

/// The accounts of a claim of funds.
#[derive(Clone, Debug, PartialEq, Eq)]
pub struct ClaimFunds {
    /// The owner's account, which receives the funds.
    pub product_owner: Wallet,
    /// The address of the campaign.
    pub product_key: Address,
    pub product: Product,
    /// The campaign's treasury, which pays.
    pub treasury: Treasury,
    /// The bids of the campaign. Bids that are not approved, and bids on other campaigns,
    /// are passed over.
    pub bids: Vec<UserBid>,
}

/// Whether `bid` is an approved bid on the campaign at `product_key`.
pub open spec fn counts_for(bid: UserBid, product_key: Address) -> bool {
    bid.status == BidStatus::Approved && bid.product == product_key
}

/// The sum of the amounts of the approved bids on the campaign at `product_key`.
pub open spec fn approved_total(bids: Seq<UserBid>, product_key: Address) -> nat
    decreases bids.len(),
{
    if bids.len() == 0 {
        0
    } else {
        approved_total(bids.drop_last(), product_key) + if counts_for(bids.last(), product_key) {
            bids.last().amount as nat
        } else {
            0
        }
    }
}

/// How many of `bids` are approved bids on the campaign at `product_key`.
pub open spec fn approved_count(bids: Seq<UserBid>, product_key: Address) -> nat
    decreases bids.len(),
{
    if bids.len() == 0 {
        0
    } else {
        approved_count(bids.drop_last(), product_key) + if counts_for(bids.last(), product_key) {
            1nat
        } else {
            0
        }
    }
}

/// Whether no bidder has two approved bids on the campaign at `product_key` among `bids`.
pub open spec fn distinct_bidders(bids: Seq<UserBid>, product_key: Address) -> bool {
    forall|i: int, j: int|
        0 <= i < j < bids.len() && counts_for(bids[i], product_key) && counts_for(
            bids[j],
            product_key,
        ) ==> bids[i].user != bids[j].user
}

/// The sum over the first `n` bids is at most the sum over all of them.
pub proof fn lemma_approved_total_prefix(bids: Seq<UserBid>, n: int, product_key: Address)
    requires
        0 <= n <= bids.len(),
    ensures
        approved_total(bids.take(n), product_key) <= approved_total(bids, product_key),
    decreases bids.len(),
{
    if n == bids.len() {
        assert(bids.take(n) =~= bids);
    } else {
        lemma_approved_total_prefix(bids.drop_last(), n, product_key);
        assert(bids.drop_last().take(n) =~= bids.take(n));
    }
}

/// Whether `bid` is an approved bid on the campaign at `product_key`.
pub fn is_counted(bid: &UserBid, product_key: &Address) -> (counted: bool)
    ensures
        counted == counts_for(*bid, *product_key),
{
    match bid.status {
        BidStatus::Approved => bid.product == *product_key,
        _ => false,
    }
}

/// How many of `bids` are approved bids on the campaign at `product_key`.
pub fn count_approved(bids: &Vec<UserBid>, product_key: &Address) -> (count: usize)
    ensures
        count == approved_count(bids@, *product_key),
{
    let mut count: usize = 0;
    let mut i: usize = 0;
    while i < bids.len()
        invariant
            i <= bids.len(),
            count <= i,
            count == approved_count(bids@.take(i as int), *product_key),
        decreases bids.len() - i,
    {
        proof {
            assert(bids@.take(i + 1).drop_last() =~= bids@.take(i as int));
        }
        if is_counted(&bids[i], product_key) {
            count = count + 1;
        }
        i = i + 1;
    }
    proof {
        assert(bids@.take(i as int) =~= bids@);
    }
    count
}

/// Whether no bidder has two approved bids on the campaign at `product_key` among `bids`.
pub fn bidders_distinct(bids: &Vec<UserBid>, product_key: &Address) -> (distinct: bool)
    ensures
        distinct == distinct_bidders(bids@, *product_key),
{
    let mut j: usize = 0;
    while j < bids.len()
        invariant
            j <= bids.len(),
            forall|a: int, b: int|
                0 <= a < b < j && counts_for(bids@[a], *product_key) && counts_for(
                    bids@[b],
                    *product_key,
                ) ==> bids@[a].user != bids@[b].user,
        decreases bids.len() - j,
    {
        if is_counted(&bids[j], product_key) {
            let mut i: usize = 0;
            while i < j
                invariant
                    i <= j < bids.len(),
                    counts_for(bids@[j as int], *product_key),
                    forall|a: int|
                        0 <= a < i && counts_for(bids@[a], *product_key) ==> bids@[a].user
                            != bids@[j as int].user,
                decreases j - i,
            {
                if is_counted(&bids[i], product_key) && bids[i].user == bids[j].user {
                    return false;
                }
                i = i + 1;
            }
        }
        j = j + 1;
    }
    true
}

/// The sum of the amounts of the approved bids on the campaign at `product_key`, or `None`
/// where that sum is more than a `u64` holds.
pub fn sum_approved(bids: &Vec<UserBid>, product_key: &Address) -> (total: Option<u64>)
    ensures
        match total {
            Some(sum) => sum == approved_total(bids@, *product_key),
            None => approved_total(bids@, *product_key) > u64::MAX,
        },
{
    let mut sum: u64 = 0;
    let mut i: usize = 0;
    while i < bids.len()
        invariant
            i <= bids.len(),
            sum == approved_total(bids@.take(i as int), *product_key),
        decreases bids.len() - i,
    {
        let bid = &bids[i];
        proof {
            assert(bids@.take(i + 1).drop_last() =~= bids@.take(i as int));
        }
        if is_counted(bid, product_key) {
            if sum > u64::MAX - bid.amount {
                proof {
                    lemma_approved_total_prefix(bids@, i + 1, *product_key);
                }
                return None;
            }
            sum = sum + bid.amount;
        }
        i = i + 1;
    }
    proof {
        assert(bids@.take(i as int) =~= bids@);
    }
    Some(sum)
}

impl ClaimFunds {
    /// Whether the bids handed in agree with the campaign's count: no bidder has two
    /// approved bids among them, and there are as many approved bids as the campaign has
    /// approved.
    pub open spec fn bids_of_record(&self) -> bool {
        &&& distinct_bidders(self.bids@, self.product_key)
        &&& approved_count(self.bids@, self.product_key) == self.product.approved_bids
    }

    /// What the owner is due: the deposit and the amounts of the approved bids.
    pub open spec fn entitlement(&self) -> nat {
        approved_total(self.bids@, self.product_key) + self.product.initial_deposit as nat
    }

    /// Why a claim made at `now` is refused, if it is. The reasons are tried in this order:
    /// the claimant is not the owner or the treasury is not the campaign's; the funds were
    /// claimed before; the launch date has not come; the bids handed in are not the
    /// campaign's approved bids; the entitlement is more than a `u64` holds; the treasury
    /// holds less than the entitlement; the owner's account cannot take it.
    pub open spec fn refusal(&self, now: i64) -> Option<ContractError> {
        if self.product.maker != self.product_owner.owner || self.treasury.product
            != self.product_key {
            Some(ContractError::UnauthorizedAccess)
        } else if self.product.funds_claimed {
            Some(ContractError::FundsAlreadyClaimed)
        } else if now < self.product.launch_date {
            Some(ContractError::LaunchDateNotReached)
        } else if !self.bids_of_record() {
            Some(ContractError::UnauthorizedAccess)
        } else if self.entitlement() > u64::MAX {
            Some(ContractError::ArithmeticOverflow)
        } else if self.treasury.lamports < self.entitlement() {
            Some(ContractError::InsufficientFunds)
        } else if self.product_owner.lamports + self.entitlement() > u64::MAX {
            Some(ContractError::ArithmeticOverflow)
        } else {
            None
        }
    }

    /// The accounts after the claim: the entitlement has gone from the treasury to the
    /// owner, the funds count as claimed and the campaign is launched.
    pub open spec fn claimed(&self) -> ClaimFunds {
        ClaimFunds {
            product_owner: Wallet {
                lamports: (self.product_owner.lamports + self.entitlement()) as u64,
                ..self.product_owner
            },
            product: Product {
                funds_claimed: true,
                phase: ProductPhase::Launched,
                ..self.product
            },
            treasury: Treasury {
                lamports: (self.treasury.lamports - self.entitlement()) as u64,
                ..self.treasury
            },
            ..*self
        }
    }
}

/// Pays the owner the entitlement out of the treasury, or refuses and changes nothing.
///
/// The funds are claimed once: a campaign whose funds were claimed is refused. No capital
/// appears or is lost.
pub fn handler(ctx: &mut ClaimFunds, now: i64) -> (res: Result<(), ContractError>)
    ensures
        match res {
            Ok(_) => old(ctx).refusal(now) is None && *final(ctx) == old(ctx).claimed(),
            Err(e) => old(ctx).refusal(now) == Some(e) && *final(ctx) == *old(ctx),
        },
        old(ctx).product.evolves_to(final(ctx).product),
        old(ctx).product.funds_claimed ==> res is Err,
        now < old(ctx).product.launch_date ==> res is Err,
        final(ctx).treasury.lamports + final(ctx).product_owner.lamports == old(
            ctx,
        ).treasury.lamports + old(ctx).product_owner.lamports,
{
    if ctx.product.maker != ctx.product_owner.owner || ctx.treasury.product != ctx.product_key {
        return Err(ContractError::UnauthorizedAccess);
    }
    if ctx.product.funds_claimed {
        return Err(ContractError::FundsAlreadyClaimed);
    }
    if !ctx.product.is_launched(now) {
        return Err(ContractError::LaunchDateNotReached);
    }
    if !bidders_distinct(&ctx.bids, &ctx.product_key) || count_approved(
        &ctx.bids,
        &ctx.product_key,
    ) != ctx.product.approved_bids as usize {
        return Err(ContractError::UnauthorizedAccess);
    }
    let approved: u64 = match sum_approved(&ctx.bids, &ctx.product_key) {
        Some(sum) => sum,
        None => {
            return Err(ContractError::ArithmeticOverflow);
        },
    };
    if approved > u64::MAX - ctx.product.initial_deposit {
        return Err(ContractError::ArithmeticOverflow);
    }
    let payout: u64 = approved + ctx.product.initial_deposit;
    if ctx.treasury.lamports < payout {
        return Err(ContractError::InsufficientFunds);
    }
    if ctx.product_owner.lamports > u64::MAX - payout {
        return Err(ContractError::ArithmeticOverflow);
    }
    ctx.treasury.lamports = ctx.treasury.lamports - payout;
    ctx.product_owner.lamports = ctx.product_owner.lamports + payout;
    ctx.product.funds_claimed = true;
    ctx.product.phase = ProductPhase::Launched;
    Ok(())
}

} // verus!
