//! A campaign: its configuration, its phase and its counters.

use vstd::prelude::*;
use crate::errors::ContractError;
use crate::state::address::Address;

verus! {

/// The most characters that a campaign's name may have.
pub const MAX_NAME_LEN: usize = 50;

/// The most characters that a campaign's description may have.
pub const MAX_DESCRIPTION_LEN: usize = 200;

/// The most characters that a token symbol may have.
pub const MAX_SYMBOL_LEN: usize = 10;

/// The seconds between the end of bidding and the launch: seven days.
pub const BID_CLOSE_LEAD_SECONDS: i64 = 604800;

/// The phase of a campaign. It only ever advances.
#[derive(Clone, Copy, Debug, PartialEq, Eq, Structural)]
pub enum ProductPhase {
    Bidding,
    Launched,
    Completed,
}

impl ProductPhase {
    /// The place of a phase in the order in which phases follow each other.
    pub open spec fn rank(self) -> nat {
        match self {
            ProductPhase::Bidding => 0,
            ProductPhase::Launched => 1,
            ProductPhase::Completed => 2,
        }
    }
}

/// One campaign.
#[derive(Clone, Debug, PartialEq, Eq)]
pub struct Product {
    /// The owner of the campaign.
    pub maker: Address,
    pub name: String,
    pub description: String,
    pub token_symbol: String,
    /// The capital that the owner put in.
    pub initial_deposit: u64,
    /// How many bids may be approved.
    pub ipo_slots: u32,
    /// How many bids have been approved.
    pub approved_bids: u32,
    /// The token supply, fixed at launch.
    pub total_token_supply: u64,
    pub token_mint: Address,
    pub token_pool: Address,
    /// From when on tokens and funds can be claimed.
    pub launch_date: i64,
    /// From when on no bid is taken.
    pub bid_close_date: i64,
    pub phase: ProductPhase,
    pub created_at: i64,
    /// Whether the owner has taken the funds.
    pub funds_claimed: bool,
    /// The nonce that proves the campaign's address unique.
    pub bump: u8,
}

/// The price of one token: the deposit divided by the supply, rounded down.
pub open spec fn token_price(initial_deposit: u64, total_token_supply: u64) -> int
    recommends
        total_token_supply > 0,
{
    initial_deposit as int / total_token_supply as int
}

/// The tokens that `amount` buys at the price that deposit and supply fix, rounded down.
pub open spec fn token_amount(initial_deposit: u64, total_token_supply: u64, amount: u64) -> int
    recommends
        total_token_supply > 0,
        token_price(initial_deposit, total_token_supply) > 0,
{
    amount as int / token_price(initial_deposit, total_token_supply)
}

impl Product {
    /// The bytes that a campaign takes in storage.
    pub const INIT_SPACE: usize = 32 + 4 + 50 + 4 + 200 + 4 + 10 + 8 + 4 + 4 + 8 + 32 + 32 + 8
        + 8 + 1 + 8 + 1 + 1;

    /// What holds of a campaign from its launch on: no more bids are approved than there
    /// are slots, bidding closes seven days before the launch, and the funds are claimed
    /// exactly when the bidding phase is over.
    pub open spec fn wf(&self) -> bool {
        &&& self.approved_bids <= self.ipo_slots
        &&& self.bid_close_date + BID_CLOSE_LEAD_SECONDS == self.launch_date
        &&& self.funds_claimed == (self.phase != ProductPhase::Bidding)
    }

    /// What every operation keeps of a campaign that it is handed: its owner, its
    /// economics and its dates, so that the price of a token never changes; that its phase
    /// does not go back; that the funds, once claimed, stay claimed; that the count of
    /// approved bids does not fall; and that it is well-formed.
    pub open spec fn evolves_to(&self, after: Product) -> bool {
        &&& after.maker == self.maker
        &&& after.initial_deposit == self.initial_deposit
        &&& after.total_token_supply == self.total_token_supply
        &&& after.ipo_slots == self.ipo_slots
        &&& after.launch_date == self.launch_date
        &&& after.bid_close_date == self.bid_close_date
        &&& after.token_mint == self.token_mint
        &&& after.approved_bids >= self.approved_bids
        &&& self.funds_claimed ==> after.funds_claimed
        &&& self.wf() ==> after.wf() && after.phase.rank() >= self.phase.rank()
    }

    /// Whether a price is defined and not zero, so that an allocation can be computed.
    pub open spec fn has_price(&self) -> bool {
        self.total_token_supply > 0 && token_price(self.initial_deposit, self.total_token_supply)
            > 0
    }

    /// The price of one token.
    pub fn get_token_price(&self) -> (res: Result<u64, ContractError>)
        ensures
            self.total_token_supply == 0 ==> res == Err::<u64, ContractError>(
                ContractError::ArithmeticOverflow,
            ),
            self.total_token_supply > 0 ==> res is Ok && res->Ok_0 == token_price(
                self.initial_deposit,
                self.total_token_supply,
            ),
    {
        if self.total_token_supply == 0 {
            return Err(ContractError::ArithmeticOverflow);
        }
        Ok(self.initial_deposit / self.total_token_supply)
    }

    /// The tokens that `sol_amount` buys. There is no allocation without a price above zero.
    pub fn calculate_token_amount(&self, sol_amount: u64) -> (res: Result<u64, ContractError>)
        ensures
            !self.has_price() ==> res == Err::<u64, ContractError>(
                ContractError::ArithmeticOverflow,
            ),
            self.has_price() ==> res is Ok && res->Ok_0 == token_amount(
                self.initial_deposit,
                self.total_token_supply,
                sol_amount,
            ),
    {
        let price: u64 = match self.get_token_price() {
            Ok(price) => price,
            Err(e) => {
                return Err(e);
            },
        };
        if price == 0 {
            return Err(ContractError::ArithmeticOverflow);
        }
        Ok(sol_amount / price)
    }

    /// Whether a bid placed at `now` is in time.
    pub fn is_bidding_open(&self, now: i64) -> (open: bool)
        ensures
            open == (self.phase == ProductPhase::Bidding && now < self.bid_close_date),
    {
        self.phase == ProductPhase::Bidding && now < self.bid_close_date
    }

    /// Whether the launch date has come at `now`.
    pub fn is_launched(&self, now: i64) -> (launched: bool)
        ensures
            launched == (now >= self.launch_date),
    {
        now >= self.launch_date
    }

    /// Whether a slot is left.
    pub fn can_approve_more_bids(&self) -> (free: bool)
        ensures
            free == (self.approved_bids < self.ipo_slots),
    {
        self.approved_bids < self.ipo_slots
    }
}

} // verus!
