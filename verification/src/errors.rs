//! The errors with which an operation is refused.

use vstd::prelude::*;

verus! {

/// Why an operation was refused. A refused operation changes nothing.
#[derive(Clone, Copy, Debug, PartialEq, Eq, Structural)]
pub enum ContractError {
    /// An amount, a slot count or a supply was zero, or a text field was too long.
    ZeroBidAmount,
    /// The campaign has left its bidding phase.
    NotInBiddingPhase,
    /// The bidding window has closed.
    BiddingPeriodEnded,
    /// Settlement is not unlocked before the launch date.
    LaunchDateNotReached,
    /// The bid has already been approved or rejected.
    BidAlreadyProcessed,
    /// Tokens are claimable on approved bids only.
    BidNotApproved,
    /// Refunds are due on rejected bids only.
    BidNotRejected,
    /// The caller, or an account handed in, is not the one of record.
    UnauthorizedAccess,
    /// Every approval slot of the campaign is taken.
    AllSlotsFilled,
    /// The launch date does not lie in the future.
    InvalidLaunchDate,
    /// A division by zero, a zero price, or a sum out of range.
    ArithmeticOverflow,
    /// The bid's tokens were claimed before.
    TokensAlreadyClaimed,
    /// The funds were claimed before.
    FundsAlreadyClaimed,
    /// The token pool holds less than the allocation due.
    InsufficientTokens,
    /// A capital account holds less than the amount due from it.
    InsufficientFunds,
    /// A bid asked for no slot or for more slots than a bid may ask for.
    InvalidSlotCount,
    /// The record to create exists already.
    AlreadyInitialized,
}

impl ContractError {
    /// The text of the message, as a sequence of characters.
    pub open spec fn spec_message(self) -> Seq<char> {
        match self {
            ContractError::ZeroBidAmount => "Bid amount must be greater than zero"@,
            ContractError::NotInBiddingPhase => "Product is not in bidding phase"@,
            ContractError::BiddingPeriodEnded => "Bidding period has ended"@,
            ContractError::LaunchDateNotReached => "Launch date has not arrived yet"@,
            ContractError::BidAlreadyProcessed => "Bid has already been processed"@,
            ContractError::BidNotApproved => "Bid is not approved"@,
            ContractError::BidNotRejected => "Bid is not rejected"@,
            ContractError::UnauthorizedAccess => "Only product owner can perform this action"@,
            ContractError::AllSlotsFilled => "All IPO slots are filled"@,
            ContractError::InvalidLaunchDate => "Invalid launch date"@,
            ContractError::ArithmeticOverflow => "Arithmetic overflow"@,
            ContractError::TokensAlreadyClaimed => "Tokens already claimed"@,
            ContractError::FundsAlreadyClaimed => "Funds already claimed"@,
            ContractError::InsufficientTokens => "Insufficient tokens in pool"@,
            ContractError::InsufficientFunds => "Insufficient funds in treasury"@,
            ContractError::InvalidSlotCount => "Invalid number of slots requested"@,
            ContractError::AlreadyInitialized => "Account is already initialized"@,
        }
    }

    /// The human-readable message of this error.
    pub fn message(&self) -> (text: &'static str)
        ensures
            text@ == self.spec_message(),
    {
        match self {
            ContractError::ZeroBidAmount => "Bid amount must be greater than zero",
            ContractError::NotInBiddingPhase => "Product is not in bidding phase",
            ContractError::BiddingPeriodEnded => "Bidding period has ended",
            ContractError::LaunchDateNotReached => "Launch date has not arrived yet",
            ContractError::BidAlreadyProcessed => "Bid has already been processed",
            ContractError::BidNotApproved => "Bid is not approved",
            ContractError::BidNotRejected => "Bid is not rejected",
            ContractError::UnauthorizedAccess => "Only product owner can perform this action",
            ContractError::AllSlotsFilled => "All IPO slots are filled",
            ContractError::InvalidLaunchDate => "Invalid launch date",
            ContractError::ArithmeticOverflow => "Arithmetic overflow",
            ContractError::TokensAlreadyClaimed => "Tokens already claimed",
            ContractError::FundsAlreadyClaimed => "Funds already claimed",
            ContractError::InsufficientTokens => "Insufficient tokens in pool",
            ContractError::InsufficientFunds => "Insufficient funds in treasury",
            ContractError::InvalidSlotCount => "Invalid number of slots requested",
            ContractError::AlreadyInitialized => "Account is already initialized",
        }
    }
}

} // verus!
