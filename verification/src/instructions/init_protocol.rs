//! The protocol's configuration record is written.

use vstd::prelude::*;
use crate::errors::ContractError;
use crate::state::address::Address;
use crate::state::global_config::GlobalConfig;

verus! {

/// The accounts of the initialisation.
#[derive(Clone, Copy, Debug, PartialEq, Eq)]
pub struct InitProtocol {
    /// The record to create: `None` as long as the protocol is not initialised.
    pub global_config: Option<GlobalConfig>,
    /// Who initialises the protocol, and administers it from then on.
    pub signer: Address,
    /// The nonce that proves the record's address unique.
    pub bump: u8,
}

/// Creates the configuration record, with the signer as the administrator of the protocol.
/// The record is created once: where it exists, the call is refused and changes nothing.
pub fn handler(ctx: &mut InitProtocol) -> (res: Result<(), ContractError>)
    ensures
        match res {
            Ok(_) => old(ctx).global_config is None && *final(ctx) == (InitProtocol {
                global_config: Some(
                    GlobalConfig { protocol_admin: old(ctx).signer, bump: old(ctx).bump },
                ),
                ..*old(ctx)
            }),
            Err(e) => old(ctx).global_config is Some && e == ContractError::AlreadyInitialized
                && *final(ctx) == *old(ctx),
        },
{
    if ctx.global_config.is_some() {
        return Err(ContractError::AlreadyInitialized);
    }
    ctx.global_config = Some(GlobalConfig { protocol_admin: ctx.signer, bump: ctx.bump });
    Ok(())
}

} // verus!
