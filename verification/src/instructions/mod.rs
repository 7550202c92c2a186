//! The operations that drive a campaign and its bids through their lives.

pub mod approve_user_bid;
pub mod claim_funds;
pub mod claim_tokens;
pub mod init_protocol;
pub mod launch_product;
pub mod reject_bid;
pub mod user_bid_product;

pub use approve_user_bid::ApproveBid;
pub use claim_funds::ClaimFunds;
pub use claim_tokens::ClaimTokens;
pub use init_protocol::InitProtocol;
pub use launch_product::{LaunchProduct, LaunchProductArgs};
pub use reject_bid::{Refund, RejectBid};
pub use user_bid_product::UserBidProduct;
