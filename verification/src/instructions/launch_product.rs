//! An owner launches a campaign.
//!
//! This is the one moment at which the price of a token is fixed: the deposit divided by
//! the supply.

use vstd::prelude::*;
use crate::errors::ContractError;
use crate::state::address::Address;
use crate::state::custody::{TokenPool, Treasury, Wallet};
use crate::state::product::{
    Product,
    ProductPhase,
    BID_CLOSE_LEAD_SECONDS,
    MAX_DESCRIPTION_LEN,
    MAX_NAME_LEN,
    MAX_SYMBOL_LEN,
};

verus! {

/// What the owner decides at launch.
#[derive(Clone, Debug, PartialEq, Eq)]
pub struct LaunchProductArgs {
    pub name: String,
    pub description: String,
    pub token_symbol: String,
    /// The capital that the owner puts in.
    pub initial_deposit: u64,
    /// How many bids may be approved.
    pub ipo_slots: u32,
    /// The tokens to mint into the pool.
    pub initial_token_supply: u64,
    /// From when on tokens and funds can be claimed.
    pub launch_date: i64,
}

/// The accounts of a launch.
#[derive(Clone, Debug, PartialEq, Eq)]
pub struct LaunchProduct {
    /// The owner's account, which pays the deposit.
    pub maker: Wallet,
    /// The address of the campaign.
    pub product_key: Address,
    /// The campaign: `None` as long as it is not launched.
    pub product: Option<Product>,
    /// The campaign's treasury: `None` as long as the campaign is not launched.
    pub treasury: Option<Treasury>,
    /// The token that is minted.
    pub token_mint: Address,
    /// The address of the campaign's token pool.
    pub token_pool_key: Address,
    /// The campaign's token pool: `None` as long as the campaign is not launched.
    pub token_pool: Option<TokenPool>,
    /// The nonce that proves the campaign's address unique.
    pub product_bump: u8,
}

impl LaunchProductArgs {
    /// Whether deposit, slots and supply are all above zero.
    pub open spec fn amounts_valid(&self) -> bool {
        self.initial_deposit > 0 && self.ipo_slots > 0 && self.initial_token_supply > 0
    }

    /// Whether name, description and symbol each keep to their length, in characters.
    pub open spec fn texts_valid(&self) -> bool {
        &&& self.name@.len() <= MAX_NAME_LEN
        &&& self.description@.len() <= MAX_DESCRIPTION_LEN
        &&& self.token_symbol@.len() <= MAX_SYMBOL_LEN
    }
}

impl LaunchProduct {
    /// Whether neither the campaign nor its treasury nor its token pool exists yet.
    pub open spec fn vacant(&self) -> bool {
        self.product is None && self.treasury is None && self.token_pool is None
    }

    /// Why a launch asked for at `now` is refused, if it is. The reasons are tried in
    /// this order: the campaign, its treasury or its pool exists already; an amount is
    /// zero; the launch date is not in the future; a text is too long; the date seven days
    /// before the launch cannot be represented; the owner holds less than the deposit.
    pub open spec fn refusal(&self, args: LaunchProductArgs, now: i64) -> Option<ContractError> {
        if !self.vacant() {
            Some(ContractError::AlreadyInitialized)
        } else if !args.amounts_valid() {
            Some(ContractError::ZeroBidAmount)
        } else if args.launch_date <= now {
            Some(ContractError::InvalidLaunchDate)
        } else if !args.texts_valid() {
            Some(ContractError::ZeroBidAmount)
        } else if args.launch_date - BID_CLOSE_LEAD_SECONDS < i64::MIN {
            Some(ContractError::ArithmeticOverflow)
        } else if self.maker.lamports < args.initial_deposit {
            Some(ContractError::InsufficientFunds)
        } else {
            None
        }
    }

    /// The campaign as it is written: in its bidding phase, no bid approved, the funds
    /// unclaimed, bidding open until seven days before the launch.
    pub open spec fn launched_product(&self, args: LaunchProductArgs, now: i64) -> Product {
        Product {
            maker: self.maker.owner,
            name: args.name,
            description: args.description,
            token_symbol: args.token_symbol,
            initial_deposit: args.initial_deposit,
            ipo_slots: args.ipo_slots,
            approved_bids: 0,
            total_token_supply: args.initial_token_supply,
            token_mint: self.token_mint,
            token_pool: self.token_pool_key,
            launch_date: args.launch_date,
            bid_close_date: (args.launch_date - BID_CLOSE_LEAD_SECONDS) as i64,
            phase: ProductPhase::Bidding,
            created_at: now,
            funds_claimed: false,
            bump: self.product_bump,
        }
    }

    /// The accounts after the launch: the campaign is written, the deposit has gone from
    /// the owner to the new treasury, and the whole supply stands in the new pool.
    pub open spec fn launched(&self, args: LaunchProductArgs, now: i64) -> LaunchProduct {
        LaunchProduct {
            maker: Wallet {
                lamports: (self.maker.lamports - args.initial_deposit) as u64,
                ..self.maker
            },
            product: Some(self.launched_product(args, now)),
            treasury: Some(
                Treasury { product: self.product_key, lamports: args.initial_deposit },
            ),
            token_pool: Some(
                TokenPool {
                    product: self.product_key,
                    mint: self.token_mint,
                    amount: args.initial_token_supply,
                },
            ),
            ..*self
        }
    }
}

/// Launches the campaign, or refuses and changes nothing.
///
/// A campaign is launched once: one that exists is never written over. The new campaign
/// is well-formed, and its treasury holds what the owner paid.
pub fn handler(ctx: &mut LaunchProduct, args: LaunchProductArgs, now: i64) -> (res: Result<
    (),
    ContractError,
>)
    ensures
        match res {
            Ok(_) => old(ctx).refusal(args, now) is None && *final(ctx) == old(ctx).launched(
                args,
                now,
            ),
            Err(e) => old(ctx).refusal(args, now) == Some(e) && *final(ctx) == *old(ctx),
        },
        !old(ctx).vacant() ==> res is Err,
        res is Ok ==> final(ctx).product is Some && final(ctx).product->0.wf(),
        res is Ok ==> final(ctx).product->0.bid_close_date < final(ctx).product->0.launch_date,
        res is Ok ==> final(ctx).treasury is Some,
        res is Ok ==> final(ctx).treasury->0.lamports + final(ctx).maker.lamports
            == old(ctx).maker.lamports,
{
    if ctx.product.is_some() || ctx.treasury.is_some() || ctx.token_pool.is_some() {
        return Err(ContractError::AlreadyInitialized);
    }
    if args.initial_deposit == 0 || args.ipo_slots == 0 || args.initial_token_supply == 0 {
        return Err(ContractError::ZeroBidAmount);
    }
    if args.launch_date <= now {
        return Err(ContractError::InvalidLaunchDate);
    }
    if args.name.as_str().unicode_len() > MAX_NAME_LEN
        || args.description.as_str().unicode_len() > MAX_DESCRIPTION_LEN
        || args.token_symbol.as_str().unicode_len() > MAX_SYMBOL_LEN {
        return Err(ContractError::ZeroBidAmount);
    }
    if args.launch_date < i64::MIN + BID_CLOSE_LEAD_SECONDS {
        return Err(ContractError::ArithmeticOverflow);
    }
    if ctx.maker.lamports < args.initial_deposit {
        return Err(ContractError::InsufficientFunds);
    }
    let bid_close_date: i64 = args.launch_date - BID_CLOSE_LEAD_SECONDS;
    ctx.product = Some(Product {
        maker: ctx.maker.owner,
        name: args.name,
        description: args.description,
        token_symbol: args.token_symbol,
        initial_deposit: args.initial_deposit,
        ipo_slots: args.ipo_slots,
        approved_bids: 0,
        total_token_supply: args.initial_token_supply,
        token_mint: ctx.token_mint,
        token_pool: ctx.token_pool_key,
        launch_date: args.launch_date,
        bid_close_date,
        phase: ProductPhase::Bidding,
        created_at: now,
        funds_claimed: false,
        bump: ctx.product_bump,
    });
    ctx.maker.lamports = ctx.maker.lamports - args.initial_deposit;
    ctx.treasury = Some(Treasury { product: ctx.product_key, lamports: args.initial_deposit });
    ctx.token_pool = Some(
        TokenPool {
            product: ctx.product_key,
            mint: ctx.token_mint,
            amount: args.initial_token_supply,
        },
    );
    Ok(())
}

} // verus!
