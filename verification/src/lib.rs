//! Fixed-supply token launch: the campaign and bid lifecycle with its escrow accounting.
//!
//! A campaign owner deposits capital and a token supply, bidders escrow capital during a
//! bidding window, the owner approves or rejects each bid up to a slot limit, and after the
//! launch date approved bidders claim tokens while the owner claims the escrowed funds.
//!
//! Every operation is a single all-or-nothing transition on the accounts it is handed:
//! when it returns an error, nothing has changed. The current time is an argument, and the
//! accounts that hold value are plain balances, so that whoever runs the ledger reads the
//! clock, calls an operation, and carries out what the accounts then say.

use vstd::prelude::*;

pub mod errors;
pub mod instructions;
pub mod state;

use crate::errors::ContractError;
use crate::instructions::approve_user_bid::ApproveBid;
use crate::instructions::claim_funds::ClaimFunds;
use crate::instructions::claim_tokens::ClaimTokens;
use crate::instructions::init_protocol::InitProtocol;
use crate::instructions::launch_product::{LaunchProduct, LaunchProductArgs};
use crate::instructions::reject_bid::RejectBid;
use crate::instructions::user_bid_product::UserBidProduct;
use crate::state::global_config::GlobalConfig;

verus! {

/// Creates the protocol's configuration record, once: the signer administers the protocol.
pub fn init_protocol(ctx: &mut InitProtocol) -> (res: Result<(), ContractError>)
    ensures
        match res {
            Ok(_) => old(ctx).global_config is None && *final(ctx) == (InitProtocol {
                global_config: Some(
                    GlobalConfig { protocol_admin: old(ctx).signer, bump: old(ctx).bump },
                ),
                ..*old(ctx)
            }),
            Err(e) => old(ctx).global_config is Some && e == ContractError::AlreadyInitialized
                && *final(ctx) == *old(ctx),
        },
{
    instructions::init_protocol::handler(ctx)
}

/// Launches a campaign at `now`: see [`LaunchProduct::refusal`] for when it is refused and
/// [`LaunchProduct::launched`] for what it leaves.
pub fn launch_product(ctx: &mut LaunchProduct, args: LaunchProductArgs, now: i64) -> (res: Result<
    (),
    ContractError,
>)
    ensures
        match res {
            Ok(_) => old(ctx).refusal(args, now) is None && *final(ctx) == old(ctx).launched(
                args,
                now,
            ),
            Err(e) => old(ctx).refusal(args, now) == Some(e) && *final(ctx) == *old(ctx),
        },
        res is Ok ==> final(ctx).product is Some && final(ctx).product->0.wf(),
{
    instructions::launch_product::handler(ctx, args, now)
}

/// Places a bid at `now`: see [`UserBidProduct::refusal`] for when it is refused and
/// [`UserBidProduct::placed`] for what it leaves.
pub fn user_bid_product(
    ctx: &mut UserBidProduct,
    amount: u64,
    slots_requested: u32,
    now: i64,
) -> (res: Result<(), ContractError>)
    ensures
        match res {
            Ok(_) => old(ctx).refusal(amount, slots_requested, now) is None && *final(ctx) == old(
                ctx,
            ).placed(amount, slots_requested, now),
            Err(e) => old(ctx).refusal(amount, slots_requested, now) == Some(e) && *final(ctx)
                == *old(ctx),
        },
        old(ctx).product.evolves_to(final(ctx).product),
        now >= old(ctx).product.bid_close_date ==> res is Err,
{
    instructions::user_bid_product::handler(ctx, amount, slots_requested, now)
}

/// Approves a bid: see [`ApproveBid::refusal`] for when it is refused and
/// [`ApproveBid::approved`] for what it leaves.
pub fn approve_bid(ctx: &mut ApproveBid) -> (res: Result<(), ContractError>)
    ensures
        match res {
            Ok(_) => old(ctx).refusal() is None && *final(ctx) == old(ctx).approved(),
            Err(e) => old(ctx).refusal() == Some(e) && *final(ctx) == *old(ctx),
        },
        old(ctx).product.evolves_to(final(ctx).product),
        old(ctx).user_bid.evolves_to(final(ctx).user_bid),
{
    instructions::approve_user_bid::handler(ctx)
}

/// Rejects a bid and refunds it: see [`RejectBid::refusal`] for when it is refused and
/// [`RejectBid::rejected`] for what it leaves.
pub fn reject_bid(ctx: &mut RejectBid) -> (res: Result<(), ContractError>)
    ensures
        match res {
            Ok(_) => old(ctx).refusal() is None && *final(ctx) == old(ctx).rejected(),
            Err(e) => old(ctx).refusal() == Some(e) && *final(ctx) == *old(ctx),
        },
        old(ctx).product.evolves_to(final(ctx).product),
        old(ctx).user_bid.evolves_to(final(ctx).user_bid),
{
    instructions::reject_bid::handler(ctx)
}

/// Pays the owner at `now`: see [`ClaimFunds::refusal`] for when it is refused and
/// [`ClaimFunds::claimed`] for what it leaves.
pub fn claim_funds(ctx: &mut ClaimFunds, now: i64) -> (res: Result<(), ContractError>)
    ensures
        match res {
            Ok(_) => old(ctx).refusal(now) is None && *final(ctx) == old(ctx).claimed(),
            Err(e) => old(ctx).refusal(now) == Some(e) && *final(ctx) == *old(ctx),
        },
        old(ctx).product.evolves_to(final(ctx).product),
{
    instructions::claim_funds::handler(ctx, now)
}

/// Hands out a bid's tokens at `now`: see [`ClaimTokens::refusal`] for when it is refused
/// and [`ClaimTokens::claimed`] for what it leaves.
pub fn claim_tokens(ctx: &mut ClaimTokens, now: i64) -> (res: Result<(), ContractError>)
    ensures
        match res {
            Ok(_) => old(ctx).refusal(now) is None && *final(ctx) == old(ctx).claimed(),
            Err(e) => old(ctx).refusal(now) == Some(e) && *final(ctx) == *old(ctx),
        },
        old(ctx).product.evolves_to(final(ctx).product),
        old(ctx).user_bid.evolves_to(final(ctx).user_bid),
{
    instructions::claim_tokens::handler(ctx, now)
}

} // verus!
