use launchpad_fun::constants::TOKEN_TOTAL_SUPPLY;
use launchpad_fun::errors::LaunchPadErrorCode;
use launchpad_fun::math::{
    calc_asset_amount_out, calc_token_amount_out, initial_virtual_asset_reserve,
};

#[test]
fn test_initial_virtual_asset_reserve() {
    // 4.285.714,2857
    assert_eq!(initial_virtual_asset_reserve(7), 4_285_714_285_700_000);
}

#[test]
fn test_calc_token_amount_out() {
    let current_asset_supply = initial_virtual_asset_reserve(7);
    let current_k = current_asset_supply * TOKEN_TOTAL_SUPPLY;
    assert_eq!(current_k, 4285714285700000000000000000000000);
    let result = calc_token_amount_out(
        990_000_000, // 0,99
        current_k,
        current_asset_supply,
        TOKEN_TOTAL_SUPPLY,
    );
    assert_eq!(result.unwrap(), 230_999_946_640); // 230,99994664
}

#[test]
fn test_calc_asset_amount_out() {
    let current_asset_supply = initial_virtual_asset_reserve(7);
    let current_k = current_asset_supply * TOKEN_TOTAL_SUPPLY;
    assert_eq!(current_k, 4285714285700000000000000000000000);
    let result = calc_asset_amount_out(
        230_999_946_640,
        current_k,
        TOKEN_TOTAL_SUPPLY,
        current_asset_supply,
    );
    assert_eq!(result.unwrap(), 989_999_543); // 0,989999543
}

#[test]
fn initial_reserve_decreases_with_asset_rate() {
    let mut previous = initial_virtual_asset_reserve(2);
    for rate in 3..50u64 {
        let current = initial_virtual_asset_reserve(rate);
        assert!(current <= previous, "reserve must not rise with the rate");
        previous = current;
    }
}

#[test]
fn initial_reserve_fits_a_token_record() {
    assert!(initial_virtual_asset_reserve(2) <= u64::MAX as u128);
}

#[test]
fn token_amount_out_rejects_zero_reserves() {
    // an empty input side leaves the divisor zero
    let r = calc_token_amount_out(0, 1000, 0, 1000);
    assert_eq!(r.unwrap_err(), LaunchPadErrorCode::MathOverflow);
}

#[test]
fn token_amount_out_rejects_reserve_underflow() {
    // the quotient exceeds the output reserve
    let r = calc_token_amount_out(1, 1_000_000, 9, 10);
    assert_eq!(r.unwrap_err(), LaunchPadErrorCode::MathOverflow);
}

#[test]
fn token_amount_out_rejects_reserve_overflow() {
    let r = calc_token_amount_out(1, 1000, u128::MAX, 1000);
    assert_eq!(r.unwrap_err(), LaunchPadErrorCode::MathOverflow);
}

#[test]
fn asset_amount_out_rejects_zero_reserves() {
    let r = calc_asset_amount_out(0, 1000, 0, 1000);
    assert_eq!(r.unwrap_err(), LaunchPadErrorCode::MathOverflow);
}

#[test]
fn asset_amount_out_small_trade() {
    // 100 / (10 + 10) = 5 leaves 10 - 5 = 5
    let r = calc_asset_amount_out(10, 100, 10, 10);
    assert_eq!(r.unwrap(), 5);
}
