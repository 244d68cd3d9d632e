//! Launching a token: validates the protocol guard and the metadata
//! lengths, derives the starting virtual asset reserve from the configured
//! asset rate, and creates the token record. Minting the supply and funding
//! the accounts are the caller's external steps around this.

use vstd::prelude::*;

use vstd::string::StringSliceAdditionalSpecFns;

use crate::config::LaunchPadConfig;
use crate::constants::{
    MAX_TOKEN_NAME_LENGTH, MAX_TOKEN_SYMBOL_LENGTH, MAX_TOKEN_URI_LENGTH, MIN_TOKEN_NAME_LENGTH,
    MIN_TOKEN_SYMBOL_LENGTH, MIN_TOKEN_URI_LENGTH, TOKEN_TOTAL_SUPPLY,
};
use crate::errors::LaunchPadErrorCode;
use crate::events::LaunchPadTokenCreated;
use crate::keys::Pubkey;
use crate::math::initial_virtual_asset_reserve;
use crate::math::initial_virtual_asset_reserve_spec;
use crate::math::lemma_initial_virtual_asset_reserve_fits_u64;
use crate::statuses::ProtocolStatus;
use crate::token::{create_spec, LaunchPadToken};

verus! {

/// What launching a token does to record `t` under config `cfg`: metadata
/// validation, then creation with the full supply against the derived
/// starting asset reserve.
pub open spec fn launch_spec(
    cfg: LaunchPadConfig,
    t: LaunchPadToken,
    creator: Pubkey,
    mint: Pubkey,
    name: Seq<u8>,
    symbol: Seq<u8>,
    uri: Seq<u8>,
    bump: u8,
    vault_bump: u8,
    now: i64,
) -> Result<(LaunchPadToken, LaunchPadTokenCreated), LaunchPadErrorCode> {
    if cfg.status != ProtocolStatus::Active {
        Err(LaunchPadErrorCode::ProtocolConfigNotActive)
    } else if !(MIN_TOKEN_NAME_LENGTH <= name.len() <= MAX_TOKEN_NAME_LENGTH) {
        Err(LaunchPadErrorCode::InvalidTokenNameLength)
    } else if !(MIN_TOKEN_SYMBOL_LENGTH <= symbol.len() <= MAX_TOKEN_SYMBOL_LENGTH) {
        Err(LaunchPadErrorCode::InvalidTokenSymbolLength)
    } else if !(MIN_TOKEN_URI_LENGTH <= uri.len() <= MAX_TOKEN_URI_LENGTH) {
        Err(LaunchPadErrorCode::InvalidTokenUriLength)
    } else {
        create_spec(
            t,
            creator,
            mint,
            TOKEN_TOTAL_SUPPLY as u64,
            initial_virtual_asset_reserve_spec(cfg.asset_rate) as u64,
            bump,
            vault_bump,
            now,
        )
    }
}

/// Launch a token under an active configuration. On success the record
/// holds the full supply against the derived asset reserve, trading is
/// enabled, and the caller receives the notification to emit.
pub fn create_token(
    config: &LaunchPadConfig,
    token: &mut LaunchPadToken,
    creator: Pubkey,
    mint: Pubkey,
    name: &str,
    symbol: &str,
    uri: &str,
    bump: u8,
    vault_bump: u8,
    now: i64,
) -> (r: Result<LaunchPadTokenCreated, LaunchPadErrorCode>)
    requires
        config.wf(),
        name.spec_bytes().len() <= usize::MAX,
        symbol.spec_bytes().len() <= usize::MAX,
        uri.spec_bytes().len() <= usize::MAX,
    ensures
        r is Err ==> *final(token) == *old(token),
        r is Ok ==> final(token).curve_wf(),
        match launch_spec(
            *config,
            *old(token),
            creator,
            mint,
            name.spec_bytes(),
            symbol.spec_bytes(),
            uri.spec_bytes(),
            bump,
            vault_bump,
            now,
        ) {
            Ok((new_state, event)) => r == Ok::<_, LaunchPadErrorCode>(event) && *final(token)
                == new_state,
            Err(e) => r == Err::<LaunchPadTokenCreated, _>(e),
        },
{
    if !matches!(config.status, ProtocolStatus::Active) {
        return Err(LaunchPadErrorCode::ProtocolConfigNotActive);
    }
    if name.len() < MIN_TOKEN_NAME_LENGTH || name.len() > MAX_TOKEN_NAME_LENGTH {
        return Err(LaunchPadErrorCode::InvalidTokenNameLength);
    }
    if symbol.len() < MIN_TOKEN_SYMBOL_LENGTH || symbol.len() > MAX_TOKEN_SYMBOL_LENGTH {
        return Err(LaunchPadErrorCode::InvalidTokenSymbolLength);
    }
    if uri.len() < MIN_TOKEN_URI_LENGTH || uri.len() > MAX_TOKEN_URI_LENGTH {
        return Err(LaunchPadErrorCode::InvalidTokenUriLength);
    }
    let initial_asset_reserve = initial_virtual_asset_reserve(config.asset_rate);
    proof {
        lemma_initial_virtual_asset_reserve_fits_u64(config.asset_rate);
    }
    token.create(
        creator,
        mint,
        TOKEN_TOTAL_SUPPLY as u64,
        initial_asset_reserve as u64,
        bump,
        vault_bump,
        now,
    )
}

} // verus!
