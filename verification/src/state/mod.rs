//! The entities that the operations read and change.

pub mod address;
pub mod custody;
pub mod global_config;
pub mod product;
pub mod user_bid;

pub use address::Address;
pub use custody::{TokenHolding, TokenPool, Treasury, Wallet};
pub use global_config::GlobalConfig;
pub use product::{Product, ProductPhase};
pub use user_bid::{BidStatus, UserBid};
