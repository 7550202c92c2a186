//! A bidder places a bid and puts its amount in escrow.

use vstd::prelude::*;
use crate::errors::ContractError;
use crate::state::address::Address;
use crate::state::custody::{Treasury, Wallet};
use crate::state::product::{token_amount, Product, ProductPhase};
use crate::state::user_bid::{BidStatus, UserBid};

verus! {

/// The most slots that one bid may ask for.
pub const MAX_SLOTS_PER_BID: u32 = 5;

/// The accounts of a bid.
#[derive(Clone, Debug, PartialEq, Eq)]
pub struct UserBidProduct {
    /// The bidder's account, which pays the amount.
    pub user: Wallet,
    /// The address of the campaign.
    pub product_key: Address,
    pub product: Product,
    /// The bidder's bid on this campaign: `None` as long as the bidder has placed none.
    pub user_bid: Option<UserBid>,
    /// The campaign's treasury, which holds the amount in escrow.
    pub treasury: Treasury,
    /// The nonce that proves the bid's address unique.
    pub user_bid_bump: u8,
}

impl UserBidProduct {
    /// Why a bid of `amount` for `slots_requested` slots, placed at `now`, is refused, if
    /// it is. The reasons are tried in this order: the bidder has a bid on the campaign
    /// already; the treasury is not the campaign's; the campaign is not in its bidding
    /// phase; bidding has closed; the slots asked for are none or too many; the amount is
    /// zero; the campaign has no price above zero; the bidder holds less than the amount;
    /// the treasury cannot take it.
    pub open spec fn refusal(&self, amount: u64, slots_requested: u32, now: i64) -> Option<
        ContractError,
    > {
        if self.user_bid is Some {
            Some(ContractError::AlreadyInitialized)
        } else if self.treasury.product != self.product_key {
            Some(ContractError::UnauthorizedAccess)
        } else if self.product.phase != ProductPhase::Bidding {
            Some(ContractError::NotInBiddingPhase)
        } else if now >= self.product.bid_close_date {
            Some(ContractError::BiddingPeriodEnded)
        } else if slots_requested == 0 || slots_requested > MAX_SLOTS_PER_BID {
            Some(ContractError::InvalidSlotCount)
        } else if amount == 0 {
            Some(ContractError::ZeroBidAmount)
        } else if !self.product.has_price() {
            Some(ContractError::ArithmeticOverflow)
        } else if self.user.lamports < amount {
            Some(ContractError::InsufficientFunds)
        } else if self.treasury.lamports + amount > u64::MAX {
            Some(ContractError::ArithmeticOverflow)
        } else {
            None
        }
    }

    /// Whether nothing but the time can stand in the way of a bid of `amount` for
    /// `slots_requested` slots: the bidder has no bid yet, the treasury is the campaign's,
    /// the campaign is in its bidding phase and has a price above zero, slots and amount
    /// are in range, the bidder holds the amount and the treasury can take it.
    pub open spec fn valid_bid(&self, amount: u64, slots_requested: u32) -> bool {
        &&& self.user_bid is None
        &&& self.treasury.product == self.product_key
        &&& self.product.phase == ProductPhase::Bidding
        &&& 0 < slots_requested <= MAX_SLOTS_PER_BID
        &&& amount > 0
        &&& self.product.has_price()
        &&& self.user.lamports >= amount
        &&& self.treasury.lamports + amount <= u64::MAX
    }

    /// The bid as it is written: pending, nothing claimed, its allocation fixed at the
    /// campaign's price.
    pub open spec fn placed_bid(&self, amount: u64, slots_requested: u32, now: i64) -> UserBid {
        UserBid {
            user: self.user.owner,
            product: self.product_key,
            amount,
            token_amount: token_amount(
                self.product.initial_deposit,
                self.product.total_token_supply,
                amount,
            ) as u64,
            slots_requested,
            status: BidStatus::Pending,
            tokens_claimed: false,
            funds_claimed: false,
            created_at: now,
            bump: self.user_bid_bump,
        }
    }

    /// The accounts after the bid: the bid is written and its amount has gone from the
    /// bidder to the treasury.
    pub open spec fn placed(&self, amount: u64, slots_requested: u32, now: i64) -> UserBidProduct {
        UserBidProduct {
            user: Wallet { lamports: (self.user.lamports - amount) as u64, ..self.user },
            user_bid: Some(self.placed_bid(amount, slots_requested, now)),
            treasury: Treasury {
                lamports: (self.treasury.lamports + amount) as u64,
                ..self.treasury
            },
            ..*self
        }
    }
}

/// A valid bid goes through exactly when it is placed before bidding closes, and no bid
/// goes through after that.
pub proof fn lemma_bid_in_time(ctx: UserBidProduct, amount: u64, slots_requested: u32, now: i64)
    ensures
        now >= ctx.product.bid_close_date ==> ctx.refusal(amount, slots_requested, now) is Some,
        ctx.valid_bid(amount, slots_requested) ==> (ctx.refusal(amount, slots_requested, now)
            is None <==> now < ctx.product.bid_close_date),
{
}

/// Places the bid, or refuses and changes nothing.
///
/// A bid placed when bidding has closed is refused, and so is a second bid of one bidder:
/// a bid that exists is never written over. The new bid is pending and well-formed, and
/// its allocation is the amount divided by the token price, rounded down. No capital
/// appears or is lost.
pub fn handler(ctx: &mut UserBidProduct, amount: u64, slots_requested: u32, now: i64) -> (res:
    Result<(), ContractError>)
    ensures
        match res {
            Ok(_) => old(ctx).refusal(amount, slots_requested, now) is None && *final(ctx) == old(
                ctx,
            ).placed(amount, slots_requested, now),
            Err(e) => old(ctx).refusal(amount, slots_requested, now) == Some(e) && *final(ctx)
                == *old(ctx),
        },
        old(ctx).product.evolves_to(final(ctx).product),
        now >= old(ctx).product.bid_close_date ==> res is Err,
        old(ctx).user_bid is Some ==> res is Err,
        res is Ok ==> final(ctx).user_bid is Some && final(ctx).user_bid->0.wf(),
        res is Ok ==> !final(ctx).user_bid->0.is_final(),
        res is Ok ==> final(ctx).user_bid->0.token_amount == token_amount(
            old(ctx).product.initial_deposit,
            old(ctx).product.total_token_supply,
            amount,
        ),
        final(ctx).treasury.lamports + final(ctx).user.lamports == old(ctx).treasury.lamports
            + old(ctx).user.lamports,
{
    if ctx.user_bid.is_some() {
        return Err(ContractError::AlreadyInitialized);
    }
    if ctx.treasury.product != ctx.product_key {
        return Err(ContractError::UnauthorizedAccess);
    }
    if ctx.product.phase != ProductPhase::Bidding {
        return Err(ContractError::NotInBiddingPhase);
    }
    if now >= ctx.product.bid_close_date {
        return Err(ContractError::BiddingPeriodEnded);
    }
    if slots_requested == 0 || slots_requested > MAX_SLOTS_PER_BID {
        return Err(ContractError::InvalidSlotCount);
    }
    if amount == 0 {
        return Err(ContractError::ZeroBidAmount);
    }
    let tokens: u64 = match ctx.product.calculate_token_amount(amount) {
        Ok(tokens) => tokens,
        Err(e) => {
            return Err(e);
        },
    };
    if ctx.user.lamports < amount {
        return Err(ContractError::InsufficientFunds);
    }
    if ctx.treasury.lamports > u64::MAX - amount {
        return Err(ContractError::ArithmeticOverflow);
    }
    ctx.user_bid = Some(UserBid {
        user: ctx.user.owner,
        product: ctx.product_key,
        amount,
        token_amount: tokens,
        slots_requested,
        status: BidStatus::Pending,
        tokens_claimed: false,
        funds_claimed: false,
        created_at: now,
        bump: ctx.user_bid_bump,
    });
    ctx.user.lamports = ctx.user.lamports - amount;
    ctx.treasury.lamports = ctx.treasury.lamports + amount;
    Ok(())
}

} // verus!
