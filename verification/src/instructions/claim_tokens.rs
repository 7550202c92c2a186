//! A bidder claims the tokens of an approved bid.

use vstd::prelude::*;
use crate::errors::ContractError;
use crate::state::address::Address;
use crate::state::custody::{TokenHolding, TokenPool};
use crate::state::product::Product;
use crate::state::user_bid::{BidStatus, UserBid};

verus! {

/// The accounts of a token claim.
#[derive(Clone, Debug, PartialEq, Eq)]
pub struct ClaimTokens {
    /// Who claims.
    pub user: Address,
    /// The address of the campaign.
    pub product_key: Address,
    pub product: Product,
    /// The claimant's bid.
    pub user_bid: UserBid,
    /// The campaign's token pool, which hands the tokens out.
    pub token_pool: TokenPool,
    /// The claimant's holding of the campaign's token, which receives them.
    pub user_token_account: TokenHolding,
}

impl ClaimTokens {
    /// Whether each account is the one of record: the bid is the claimant's and on this
    /// campaign, the pool is this campaign's, and pool and holding are of its token.
    pub open spec fn authorized(&self) -> bool {
        &&& self.user_bid.user == self.user
        &&& self.user_bid.product == self.product_key
        &&& self.token_pool.product == self.product_key
        &&& self.token_pool.mint == self.product.token_mint
        &&& self.user_token_account.owner == self.user
        &&& self.user_token_account.mint == self.product.token_mint
    }

    /// Why a claim made at `now` is refused, if it is. The reasons are tried in this order:
    /// an account is not the one of record; the bid is not approved; its tokens were
    /// claimed before; the launch date has not come; the pool holds too little; the holding
    /// cannot take the tokens.
    pub open spec fn refusal(&self, now: i64) -> Option<ContractError> {
        if !self.authorized() {
            Some(ContractError::UnauthorizedAccess)
        } else if self.user_bid.status != BidStatus::Approved {
            Some(ContractError::BidNotApproved)
        } else if self.user_bid.tokens_claimed {
            Some(ContractError::TokensAlreadyClaimed)
        } else if now < self.product.launch_date {
            Some(ContractError::LaunchDateNotReached)
        } else if self.token_pool.amount < self.user_bid.token_amount {
            Some(ContractError::InsufficientTokens)
        } else if self.user_token_account.amount + self.user_bid.token_amount > u64::MAX {
            Some(ContractError::ArithmeticOverflow)
        } else {
            None
        }
    }

    /// The accounts after the claim: the allocation has gone from the pool to the
    /// claimant's holding, and the bid says so.
    pub open spec fn claimed(&self) -> ClaimTokens {
        ClaimTokens {
            user_bid: UserBid { tokens_claimed: true, ..self.user_bid },
            token_pool: TokenPool {
                amount: (self.token_pool.amount - self.user_bid.token_amount) as u64,
                ..self.token_pool
            },
            user_token_account: TokenHolding {
                amount: (self.user_token_account.amount + self.user_bid.token_amount) as u64,
                ..self.user_token_account
            },
            ..*self
        }
    }
}

/// Hands the bid's allocation out of the pool, or refuses and changes nothing.
///
/// Tokens are claimed once: a bid whose tokens were claimed is refused. No token appears
/// or is lost.
pub fn handler(ctx: &mut ClaimTokens, now: i64) -> (res: Result<(), ContractError>)
    ensures
        match res {
            Ok(_) => old(ctx).refusal(now) is None && *final(ctx) == old(ctx).claimed(),
            Err(e) => old(ctx).refusal(now) == Some(e) && *final(ctx) == *old(ctx),
        },
        old(ctx).product.evolves_to(final(ctx).product),
        old(ctx).user_bid.evolves_to(final(ctx).user_bid),
        old(ctx).user_bid.tokens_claimed ==> res is Err,
        old(ctx).user_bid.status != BidStatus::Approved ==> res is Err,
        now < old(ctx).product.launch_date ==> res is Err,
        final(ctx).token_pool.amount + final(ctx).user_token_account.amount == old(
            ctx,
        ).token_pool.amount + old(ctx).user_token_account.amount,
{
    if ctx.user_bid.user != ctx.user || ctx.user_bid.product != ctx.product_key
        || ctx.token_pool.product != ctx.product_key || ctx.token_pool.mint
        != ctx.product.token_mint || ctx.user_token_account.owner != ctx.user
        || ctx.user_token_account.mint != ctx.product.token_mint {
        return Err(ContractError::UnauthorizedAccess);
    }
    match ctx.user_bid.status {
        BidStatus::Approved => {},
        _ => {
            return Err(ContractError::BidNotApproved);
        },
    }
    if ctx.user_bid.tokens_claimed {
        return Err(ContractError::TokensAlreadyClaimed);
    }
    if !ctx.product.is_launched(now) {
        return Err(ContractError::LaunchDateNotReached);
    }
    let token_amount: u64 = ctx.user_bid.token_amount;
    if ctx.token_pool.amount < token_amount {
        return Err(ContractError::InsufficientTokens);
    }
    if ctx.user_token_account.amount > u64::MAX - token_amount {
        return Err(ContractError::ArithmeticOverflow);
    }
    ctx.token_pool.amount = ctx.token_pool.amount - token_amount;
    ctx.user_token_account.amount = ctx.user_token_account.amount + token_amount;
    ctx.user_bid.tokens_claimed = true;
    Ok(())
}

} // verus!
