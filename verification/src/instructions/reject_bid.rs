//! The owner rejects a bid, and the bidder has the escrowed capital back at once.

use vstd::prelude::*;
use crate::errors::ContractError;
use crate::state::address::Address;
use crate::state::custody::{Treasury, Wallet};
use crate::state::product::Product;
use crate::state::user_bid::{BidStatus, UserBid};

verus! {

/// The accounts of a rejection.
#[derive(Clone, Debug, PartialEq, Eq)]
pub struct RejectBid {
    /// Who asks for the rejection.
    pub product_owner: Address,
    /// The address of the campaign.
    pub product_key: Address,
    pub product: Product,
    /// The bid to reject.
    pub user_bid: UserBid,
    /// The campaign's treasury, which pays the refund.
    pub treasury: Treasury,
    /// The bidder's account, which receives it.
    pub user_account: Wallet,
}

/// An order to move capital from one account to another.
#[derive(Clone, Copy, Debug, PartialEq, Eq)]
pub struct Refund {
    /// The campaign whose treasury pays.
    pub from_treasury_of: Address,
    /// Who is paid.
    pub to: Address,
    /// How much.
    pub lamports: u64,
}

impl RejectBid {
    /// Why a rejection is refused before any capital is looked at, if it is: the caller is
    /// not the owner of the campaign, or the bid, the treasury or the receiving account is
    /// not the one of record; else the bid is decided already.
    pub open spec fn guard(&self) -> Option<ContractError> {
        if self.product.maker != self.product_owner || self.user_bid.product != self.product_key
            || self.treasury.product != self.product_key || self.user_account.owner
            != self.user_bid.user {
            Some(ContractError::UnauthorizedAccess)
        } else if self.user_bid.status != BidStatus::Pending {
            Some(ContractError::BidAlreadyProcessed)
        } else if self.treasury.lamports < self.user_bid.amount {
            Some(ContractError::InsufficientFunds)
        } else {
            None
        }
    }

    /// Why a rejection that pays the refund itself is refused, if it is: for the reasons
    /// of [`RejectBid::guard`]; else the receiving account cannot hold the refund.
    pub open spec fn refusal(&self) -> Option<ContractError> {
        if self.guard() is Some {
            self.guard()
        } else if self.user_account.lamports + self.user_bid.amount > u64::MAX {
            Some(ContractError::ArithmeticOverflow)
        } else {
            None
        }
    }

    /// The bid once it is rejected: the refund counts as claimed from that moment.
    pub open spec fn rejected_bid(&self) -> UserBid {
        UserBid { status: BidStatus::Rejected, funds_claimed: true, ..self.user_bid }
    }

    /// The accounts after a rejection that paid the refund.
    pub open spec fn rejected(&self) -> RejectBid {
        RejectBid {
            user_bid: self.rejected_bid(),
            treasury: Treasury {
                lamports: (self.treasury.lamports - self.user_bid.amount) as u64,
                ..self.treasury
            },
            user_account: Wallet {
                lamports: (self.user_account.lamports + self.user_bid.amount) as u64,
                ..self.user_account
            },
            ..*self
        }
    }

    /// The refund that is due on the bid.
    pub open spec fn refund(&self) -> Refund {
        Refund {
            from_treasury_of: self.product_key,
            to: self.user_bid.user,
            lamports: self.user_bid.amount,
        }
    }
}

/// Rejects the bid and moves the escrowed amount from the treasury to the bidder's
/// account, or refuses and changes nothing.
///
/// A treasury that holds less than the refund is an integrity error. No capital appears
/// or is lost, and a bid that is decided, or refunded, is refused.
pub fn handler(ctx: &mut RejectBid) -> (res: Result<(), ContractError>)
    ensures
        match res {
            Ok(_) => old(ctx).refusal() is None && *final(ctx) == old(ctx).rejected(),
            Err(e) => old(ctx).refusal() == Some(e) && *final(ctx) == *old(ctx),
        },
        old(ctx).product.evolves_to(final(ctx).product),
        old(ctx).user_bid.evolves_to(final(ctx).user_bid),
        old(ctx).user_bid.is_final() ==> res is Err,
        old(ctx).user_bid.wf() && old(ctx).user_bid.funds_claimed ==> res is Err,
        final(ctx).treasury.lamports + final(ctx).user_account.lamports == old(
            ctx,
        ).treasury.lamports + old(ctx).user_account.lamports,
{
    if ctx.product.maker != ctx.product_owner || ctx.user_bid.product != ctx.product_key
        || ctx.treasury.product != ctx.product_key || ctx.user_account.owner != ctx.user_bid.user {
        return Err(ContractError::UnauthorizedAccess);
    }
    match ctx.user_bid.status {
        BidStatus::Pending => {},
        _ => {
            return Err(ContractError::BidAlreadyProcessed);
        },
    }
    let refund_amount: u64 = ctx.user_bid.amount;
    if ctx.treasury.lamports < refund_amount {
        return Err(ContractError::InsufficientFunds);
    }
    if ctx.user_account.lamports > u64::MAX - refund_amount {
        return Err(ContractError::ArithmeticOverflow);
    }
    ctx.user_bid.status = BidStatus::Rejected;
    ctx.user_bid.funds_claimed = true;
    ctx.treasury.lamports = ctx.treasury.lamports - refund_amount;
    ctx.user_account.lamports = ctx.user_account.lamports + refund_amount;
    Ok(())
}

/// Rejects the bid and hands back the order for the refund, for a ledger that moves the
/// capital itself; or refuses and changes nothing.
///
/// The balances are left as they are: the caller carries the order out.
pub fn handler_alternative(ctx: &mut RejectBid) -> (res: Result<Refund, ContractError>)
    ensures
        match res {
            Ok(order) => old(ctx).guard() is None && order == old(ctx).refund() && *final(ctx) == (
            RejectBid { user_bid: old(ctx).rejected_bid(), ..*old(ctx) }),
            Err(e) => old(ctx).guard() == Some(e) && *final(ctx) == *old(ctx),
        },
        old(ctx).product.evolves_to(final(ctx).product),
        old(ctx).user_bid.evolves_to(final(ctx).user_bid),
        old(ctx).user_bid.is_final() ==> res is Err,
        old(ctx).user_bid.wf() && old(ctx).user_bid.funds_claimed ==> res is Err,
{
    if ctx.product.maker != ctx.product_owner || ctx.user_bid.product != ctx.product_key
        || ctx.treasury.product != ctx.product_key || ctx.user_account.owner != ctx.user_bid.user {
        return Err(ContractError::UnauthorizedAccess);
    }
    match ctx.user_bid.status {
        BidStatus::Pending => {},
        _ => {
            return Err(ContractError::BidAlreadyProcessed);
        },
    }
    if ctx.treasury.lamports < ctx.user_bid.amount {
        return Err(ContractError::InsufficientFunds);
    }
    ctx.user_bid.status = BidStatus::Rejected;
    ctx.user_bid.funds_claimed = true;
    Ok(
        Refund {
            from_treasury_of: ctx.product_key,
            to: ctx.user_bid.user,
            lamports: ctx.user_bid.amount,
        },
    )
}

} // verus!
