//! The accounts that hold value: capital and tokens.
//!
//! The treasury and the token pool of a campaign are bound to it by the campaign's
//! address. Only the operations of this library debit them.

use vstd::prelude::*;
use crate::state::address::Address;

verus! {

/// The escrow that holds the capital of one campaign: the owner's deposit and the bids.
#[derive(Clone, Copy, Debug, PartialEq, Eq)]
pub struct Treasury {
    /// The campaign that this treasury belongs to.
    pub product: Address,
    /// The capital held.
    pub lamports: u64,
}

/// The escrow that holds the token supply of one campaign until it is claimed.
#[derive(Clone, Copy, Debug, PartialEq, Eq)]
pub struct TokenPool {
    /// The campaign that this pool belongs to.
    pub product: Address,
    /// The token that the pool holds.
    pub mint: Address,
    /// The tokens held.
    pub amount: u64,
}

/// The capital account of an owner or a bidder.
#[derive(Clone, Copy, Debug, PartialEq, Eq)]
pub struct Wallet {
    /// Whose account it is.
    pub owner: Address,
    /// The capital held.
    pub lamports: u64,
}

/// A bidder's holding of one token.
#[derive(Clone, Copy, Debug, PartialEq, Eq)]
pub struct TokenHolding {
    /// Whose holding it is.
    pub owner: Address,
    /// The token held.
    pub mint: Address,
    /// The tokens held.
    pub amount: u64,
}

} // verus!
