//! The protocol's configuration record.

use vstd::prelude::*;
use crate::state::address::Address;

verus! {

/// The one configuration record of the protocol, created once and handed to whoever needs it.
#[derive(Clone, Copy, Debug, PartialEq, Eq)]
pub struct GlobalConfig {
    /// Who administers the protocol.
    pub protocol_admin: Address,
    /// The nonce that proves the record's address unique.
    pub bump: u8,
}

impl GlobalConfig {
    /// The bytes that the record takes in storage.
    pub const INIT_SPACE: usize = 32 + 1;
}

} // verus!
