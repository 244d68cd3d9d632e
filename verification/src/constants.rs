//! Protocol-wide constants: token supply, curve scaling, fee and
//! configuration bounds.

use vstd::prelude::*;

verus! {

/// Total (virtual) token supply minted per launch: 1 billion tokens with
/// 9 decimals.
pub const TOKEN_TOTAL_SUPPLY: u128 = 1_000_000_000_000_000_000;

/// Token liquidity reserved for the eventual pool seed: 200 million tokens
/// with 9 decimals. Buys may never sell the token reserve down below this.
pub const TOKEN_GRADUATION_AMOUNT: u128 = 200_000_000_000_000_000;

/// Curve constant from which the initial virtual asset reserve is derived.
pub const K: u64 = 3_000_000_000_000;

/// Default asset-rate parameter.
pub const ASSET_RATE: u64 = 7;

pub const MAX_TOKEN_NAME_LENGTH: usize = 32;
pub const MIN_TOKEN_NAME_LENGTH: usize = 3;
pub const MAX_TOKEN_SYMBOL_LENGTH: usize = 10;
pub const MIN_TOKEN_SYMBOL_LENGTH: usize = 3;
pub const MAX_TOKEN_URI_LENGTH: usize = 200;
pub const MIN_TOKEN_URI_LENGTH: usize = 10;

/// Fee bounds, interpreted as parts-per-million in the fee formula.
pub const MIN_PROTOCOL_FEE: u32 = 5_000;
pub const MAX_PROTOCOL_FEE: u32 = 10_000;

pub const MIN_ASSET_RATE: u64 = 1;
pub const MIN_GRADUATE_THRESHOLD: u64 = 1;
pub const MIN_CREATOR_SELL_DELAY: u64 = 1;

} // verus!
