//! Constant-product pricing over virtual reserves.
//!
//! All arithmetic is checked; integer division truncates toward zero, so a
//! computed output amount is never above the continuous-curve value: the
//! curve systematically favors the reserve, never the trader.

use vstd::prelude::*;

use vstd::arithmetic::div_mod::{
    lemma_div_is_ordered, lemma_div_is_ordered_by_denominator, lemma_div_pos_is_pos,
};

use crate::constants::{K, MIN_ASSET_RATE, TOKEN_TOTAL_SUPPLY};
use crate::errors::LaunchPadErrorCode;

verus! {

/// The starting virtual asset reserve for a given asset rate, derived from
/// the protocol constant `K` and the total supply with two rounds of
/// fixed-point scaling that preserve 9-decimal precision.
pub open spec fn initial_virtual_asset_reserve_spec(asset_rate: u64) -> int
    recommends
        1 <= asset_rate,
{
    let kq = (K * 10000) / (asset_rate as int);
    let scaled = kq * 10000 * 1_000_000_000;
    let per_supply = scaled / (TOKEN_TOTAL_SUPPLY as int);
    (per_supply * 1_000_000_000) / 10000
}

pub fn initial_virtual_asset_reserve(asset_rate: u64) -> (r: u128)
    requires
        1 <= asset_rate,
    ensures
        r == initial_virtual_asset_reserve_spec(asset_rate),
{
    let k: u64 = (K * 10000) / asset_rate;
    assert(k <= K * 10000) by (nonlinear_arith)
        requires
            1 <= asset_rate,
            k == (K * 10000) as u64 / asset_rate,
    ;
    let a: u128 = (k as u128) * 10000 * 1_000_000_000;
    let b: u128 = a / TOKEN_TOTAL_SUPPLY;
    (b * 1_000_000_000) / 10000
}

/// The starting virtual asset reserve never exceeds `K * 10000`, so it
/// always fits the `u64` reserve field of a token record.
pub proof fn lemma_initial_virtual_asset_reserve_fits_u64(asset_rate: u64)
    requires
        1 <= asset_rate,
    ensures
        0 <= initial_virtual_asset_reserve_spec(asset_rate) <= K * 10000,
{
    let kq = (K * 10000) / (asset_rate as int);
    let scaled = kq * 10000 * 1_000_000_000;
    let per_supply = scaled / (TOKEN_TOTAL_SUPPLY as int);
    lemma_div_pos_is_pos(K * 10000, asset_rate as int);
    assert(kq <= K * 10000) by (nonlinear_arith)
        requires
            1 <= asset_rate,
            kq == (K * 10000) / (asset_rate as int),
    ;
    assert(scaled <= 300_000_000_000_000_000_000_000_000_000);
    lemma_div_pos_is_pos(scaled, TOKEN_TOTAL_SUPPLY as int);
    lemma_div_is_ordered(
        scaled,
        300_000_000_000_000_000_000_000_000_000,
        TOKEN_TOTAL_SUPPLY as int,
    );
    assert(per_supply <= 300_000_000_000);
    lemma_div_pos_is_pos(per_supply * 1_000_000_000, 10000);
    lemma_div_is_ordered(per_supply * 1_000_000_000, 300_000_000_000_000_000_000, 10000);
}

/// Raising the asset rate never raises the starting virtual asset reserve:
/// the reserve is monotonically non-increasing in the rate.
pub proof fn lemma_initial_virtual_asset_reserve_monotonic(rate_lo: u64, rate_hi: u64)
    requires
        MIN_ASSET_RATE < rate_lo <= rate_hi,
    ensures
        initial_virtual_asset_reserve_spec(rate_hi) <= initial_virtual_asset_reserve_spec(rate_lo),
{
    let kq_lo = (K * 10000) / (rate_lo as int);
    let kq_hi = (K * 10000) / (rate_hi as int);
    lemma_div_is_ordered_by_denominator(K * 10000, rate_lo as int, rate_hi as int);
    assert(kq_hi <= kq_lo);
    let scaled_lo = kq_lo * 10000 * 1_000_000_000;
    let scaled_hi = kq_hi * 10000 * 1_000_000_000;
    assert(scaled_hi <= scaled_lo) by (nonlinear_arith)
        requires
            kq_hi <= kq_lo,
            scaled_lo == kq_lo * 10000 * 1_000_000_000,
            scaled_hi == kq_hi * 10000 * 1_000_000_000,
    ;
    lemma_div_is_ordered(scaled_hi, scaled_lo, TOKEN_TOTAL_SUPPLY as int);
    let per_supply_lo = scaled_lo / (TOKEN_TOTAL_SUPPLY as int);
    let per_supply_hi = scaled_hi / (TOKEN_TOTAL_SUPPLY as int);
    assert(per_supply_hi * 1_000_000_000 <= per_supply_lo * 1_000_000_000);
    lemma_div_is_ordered(per_supply_hi * 1_000_000_000, per_supply_lo * 1_000_000_000, 10000);
}

/// The amount of the output-side reserve released by a trade that adds
/// `amount_in` to the input-side reserve, holding the product constant:
/// `reserve_out - k / (reserve_in + amount_in)`, with floor division.
pub open spec fn amount_out_spec(amount_in: u64, k: u128, reserve_in: u128, reserve_out: u128) -> int
    recommends
        reserve_in + amount_in > 0,
{
    reserve_out - k / ((reserve_in + amount_in) as u128)
}

/// Whether the trade arithmetic goes through without overflow or underflow:
/// the grown input reserve fits in a `u128`, is non-zero, and the quotient
/// does not exceed the output reserve.
pub open spec fn amount_out_ok(amount_in: u64, k: u128, reserve_in: u128, reserve_out: u128) -> bool {
    &&& reserve_in + amount_in <= u128::MAX
    &&& reserve_in + amount_in > 0
    &&& k / ((reserve_in + amount_in) as u128) <= reserve_out
}

/// Tokens released for `asset_amount_in` units of reserve asset. The
/// mathematical output is truncated to the low 64 bits, as callers hold
/// token reserves in `u64` (for which the truncation is the identity).
pub fn calc_token_amount_out(
    asset_amount_in: u64,
    current_k: u128,
    virtual_asset_reserve: u128,
    virtual_token_reserve: u128,
) -> (r: Result<u64, LaunchPadErrorCode>)
    ensures
        r is Ok <==> amount_out_ok(
            asset_amount_in,
            current_k,
            virtual_asset_reserve,
            virtual_token_reserve,
        ),
        r is Ok ==> r->Ok_0 == amount_out_spec(
            asset_amount_in,
            current_k,
            virtual_asset_reserve,
            virtual_token_reserve,
        ) % 0x1_0000_0000_0000_0000,
        r is Err ==> r->Err_0 == LaunchPadErrorCode::MathOverflow,
{
    let asset_amount_in = asset_amount_in as u128;
    let amount = match virtual_asset_reserve.checked_add(asset_amount_in) {
        Some(v) => v,
        None => {
            return Err(LaunchPadErrorCode::MathOverflow);
        },
    };
    let a = match current_k.checked_div(amount) {
        Some(v) => v,
        None => {
            return Err(LaunchPadErrorCode::MathOverflow);
        },
    };
    let token_amount = match virtual_token_reserve.checked_sub(a) {
        Some(v) => v,
        None => {
            return Err(LaunchPadErrorCode::MathOverflow);
        },
    };
    proof {
        assert(token_amount as u64 == token_amount % 0x1_0000_0000_0000_0000) by (bit_vector);
    }
    Ok(#[verifier::truncate] (token_amount as u64))
}

/// Reserve asset released for `token_amount_in` tokens; symmetric to
/// `calc_token_amount_out`.
pub fn calc_asset_amount_out(
    token_amount_in: u64,
    current_k: u128,
    virtual_token_reserve: u128,
    virtual_asset_reserve: u128,
) -> (r: Result<u64, LaunchPadErrorCode>)
    ensures
        r is Ok <==> amount_out_ok(
            token_amount_in,
            current_k,
            virtual_token_reserve,
            virtual_asset_reserve,
        ),
        r is Ok ==> r->Ok_0 == amount_out_spec(
            token_amount_in,
            current_k,
            virtual_token_reserve,
            virtual_asset_reserve,
        ) % 0x1_0000_0000_0000_0000,
        r is Err ==> r->Err_0 == LaunchPadErrorCode::MathOverflow,
{
    let token_amount_in = token_amount_in as u128;
    let amount = match virtual_token_reserve.checked_add(token_amount_in) {
        Some(v) => v,
        None => {
            return Err(LaunchPadErrorCode::MathOverflow);
        },
    };
    let a = match current_k.checked_div(amount) {
        Some(v) => v,
        None => {
            return Err(LaunchPadErrorCode::MathOverflow);
        },
    };
    let asset_amount_out = match virtual_asset_reserve.checked_sub(a) {
        Some(v) => v,
        None => {
            return Err(LaunchPadErrorCode::MathOverflow);
        },
    };
    proof {
        assert(asset_amount_out as u64 == asset_amount_out % 0x1_0000_0000_0000_0000)
            by (bit_vector);
    }
    Ok(#[verifier::truncate] (asset_amount_out as u64))
}

} // verus!
