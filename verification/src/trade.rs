//! The trade operations: buy and sell against the bonding curve.
//!
//! Each operation validates the protocol and token guards, computes the fee
//! and the curve output, and commits the new reserves atomically: on any
//! error the token state is untouched. The caller performs the value
//! transfers named by the returned outcome; they are part of the caller's
//! enclosing atomic unit of work.

use vstd::prelude::*;

use vstd::arithmetic::div_mod::{lemma_fundamental_div_mod, lemma_mod_division_less_than_divisor};

use crate::config::{fee_spec, LaunchPadConfig};
use crate::constants::TOKEN_GRADUATION_AMOUNT;
use crate::errors::LaunchPadErrorCode;
use crate::math::calc_asset_amount_out;
use crate::math::calc_token_amount_out;
use crate::statuses::{LaunchPadTokenStatus, ProtocolStatus};
use crate::token::LaunchPadToken;

verus! {

/// The value transfers a successful buy obliges the caller to perform.
#[derive(Clone, Copy, Debug, PartialEq, Eq, Structural)]
pub struct BuyOutcome {
    /// Tokens to move from the token's custody account to the buyer.
    pub token_amount_out: u64,
    /// Reserve asset to move from the buyer to the graduation vault.
    pub net_asset_amount: u64,
    /// Reserve asset to move from the buyer to the protocol fee vault.
    pub fee_amount: u64,
}

/// The value transfers a successful sell obliges the caller to perform.
#[derive(Clone, Copy, Debug, PartialEq, Eq, Structural)]
pub struct SellOutcome {
    /// Gross curve payout drained from the virtual asset reserve.
    pub asset_amount_out: u64,
    /// Reserve asset to move from the graduation vault to the seller.
    pub net_asset_amount: u64,
    /// Reserve asset to move from the graduation vault to the fee vault.
    pub fee_amount: u64,
}

/// What a buy of `amount` does to token state `t` under config `cfg`: the
/// new state and the transfer amounts, or the error leaving `t` unchanged.
pub open spec fn buy_spec(cfg: LaunchPadConfig, t: LaunchPadToken, amount: u64) -> Result<
    (LaunchPadToken, BuyOutcome),
    LaunchPadErrorCode,
> {
    if cfg.status != ProtocolStatus::Active {
        Err(LaunchPadErrorCode::ProtocolConfigNotActive)
    } else if t.status != LaunchPadTokenStatus::TradingEnabled {
        Err(LaunchPadErrorCode::LaunchPadTokenTradingNotEnabled)
    } else {
        let fee = fee_spec(amount, cfg.protocol_buy_fee);
        if fee > amount {
            Err(LaunchPadErrorCode::MathOverflow)
        } else {
            let net = (amount - fee) as u64;
            let divisor = t.virtual_asset_amount + net;
            if divisor == 0 {
                Err(LaunchPadErrorCode::MathOverflow)
            } else {
                let quot = (t.current_k as int) / divisor;
                if t.virtual_token_amount < quot {
                    Err(LaunchPadErrorCode::MathOverflow)
                } else {
                    let token_out = (t.virtual_token_amount - quot) as u64;
                    if t.virtual_token_amount < TOKEN_GRADUATION_AMOUNT {
                        Err(LaunchPadErrorCode::MathOverflow)
                    } else if token_out > t.virtual_token_amount - TOKEN_GRADUATION_AMOUNT {
                        Err(LaunchPadErrorCode::InsufficientTokenLiquidity)
                    } else if t.virtual_asset_amount + net > u64::MAX {
                        Err(LaunchPadErrorCode::MathOverflow)
                    } else if t.virtual_graduation_amount + net > u64::MAX {
                        Err(LaunchPadErrorCode::MathOverflow)
                    } else {
                        let new_graduation = (t.virtual_graduation_amount + net) as u64;
                        let new_state = LaunchPadToken {
                            virtual_token_amount: (t.virtual_token_amount - token_out) as u64,
                            virtual_asset_amount: (t.virtual_asset_amount + net) as u64,
                            virtual_graduation_amount: new_graduation,
                            status: if new_graduation >= cfg.graduate_threshold {
                                LaunchPadTokenStatus::ReadyToGraduate
                            } else {
                                LaunchPadTokenStatus::TradingEnabled
                            },
                            ..t
                        };
                        Ok(
                            (
                                new_state,
                                BuyOutcome {
                                    token_amount_out: token_out,
                                    net_asset_amount: net,
                                    fee_amount: fee as u64,
                                },
                            ),
                        )
                    }
                }
            }
        }
    }
}

/// What a sell of `token_amount_in` does to token state `t` under config
/// `cfg`. The graduation progress is reduced by the gross payout, while
/// buys raise it only by the net amount; this asymmetry is deliberate.
pub open spec fn sell_spec(cfg: LaunchPadConfig, t: LaunchPadToken, token_amount_in: u64) -> Result<
    (LaunchPadToken, SellOutcome),
    LaunchPadErrorCode,
> {
    if cfg.status != ProtocolStatus::Active {
        Err(LaunchPadErrorCode::ProtocolConfigNotActive)
    } else if t.status != LaunchPadTokenStatus::TradingEnabled {
        Err(LaunchPadErrorCode::LaunchPadTokenTradingNotEnabled)
    } else {
        let divisor = t.virtual_token_amount + token_amount_in;
        if divisor == 0 {
            Err(LaunchPadErrorCode::MathOverflow)
        } else {
            let quot = (t.current_k as int) / divisor;
            if t.virtual_asset_amount < quot {
                Err(LaunchPadErrorCode::MathOverflow)
            } else {
                let asset_out = (t.virtual_asset_amount - quot) as u64;
                let fee = fee_spec(asset_out, cfg.protocol_sell_fee);
                if fee > asset_out {
                    Err(LaunchPadErrorCode::MathOverflow)
                } else {
                    let net = (asset_out - fee) as u64;
                    if asset_out > t.virtual_asset_amount {
                        Err(LaunchPadErrorCode::InsufficientAssetLiquidity)
                    } else if t.virtual_token_amount + token_amount_in > u64::MAX {
                        Err(LaunchPadErrorCode::MathOverflow)
                    } else if t.virtual_graduation_amount < asset_out {
                        Err(LaunchPadErrorCode::MathOverflow)
                    } else {
                        let new_state = LaunchPadToken {
                            virtual_token_amount: (t.virtual_token_amount + token_amount_in) as u64,
                            virtual_asset_amount: (t.virtual_asset_amount - asset_out) as u64,
                            virtual_graduation_amount: (t.virtual_graduation_amount
                                - asset_out) as u64,
                            ..t
                        };
                        Ok(
                            (
                                new_state,
                                SellOutcome {
                                    asset_amount_out: asset_out,
                                    net_asset_amount: net,
                                    fee_amount: fee as u64,
                                },
                            ),
                        )
                    }
                }
            }
        }
    }
}

/// Buy tokens with `amount` units of reserve asset. The protocol fee is
/// taken off `amount` first; the net amount moves the curve. Fails
/// `InsufficientTokenLiquidity` if the trade would sell the token reserve
/// down below the graduation-reserved floor, and flips the token to
/// `ReadyToGraduate` exactly when the accumulated net inflow reaches the
/// configured threshold.
pub fn buy_token(config: &LaunchPadConfig, token: &mut LaunchPadToken, amount: u64) -> (r: Result<
    BuyOutcome,
    LaunchPadErrorCode,
>)
    requires
        config.wf(),
    ensures
        final(token).current_k == old(token).current_k,
        r is Err ==> *final(token) == *old(token),
        match buy_spec(*config, *old(token), amount) {
            Ok((new_state, outcome)) => r == Ok::<_, LaunchPadErrorCode>(outcome) && *final(token)
                == new_state,
            Err(e) => r == Err::<BuyOutcome, _>(e),
        },
        r is Ok ==> final(token).virtual_token_amount * final(token).virtual_asset_amount <= old(token).current_k < final(token).virtual_token_amount * final(token).virtual_asset_amount + final(token).virtual_asset_amount,
        r is Ok ==> (final(token).status == LaunchPadTokenStatus::ReadyToGraduate <==> final(token).virtual_graduation_amount >= config.graduate_threshold),
{
    if !matches!(config.status, ProtocolStatus::Active) {
        return Err(LaunchPadErrorCode::ProtocolConfigNotActive);
    }
    if !matches!(token.status, LaunchPadTokenStatus::TradingEnabled) {
        return Err(LaunchPadErrorCode::LaunchPadTokenTradingNotEnabled);
    }
    let current_asset_supply = token.virtual_asset_amount;
    let current_token_supply = token.virtual_token_amount;
    let current_k = token.current_k;
    let buy_fee = match config.calculate_buy_fee(amount) {
        Ok(v) => v,
        Err(e) => {
            return Err(e);
        },
    };
    let net_amount = match amount.checked_sub(buy_fee) {
        Some(v) => v,
        None => {
            return Err(LaunchPadErrorCode::MathOverflow);
        },
    };
    let token_amount_out = match calc_token_amount_out(
        net_amount,
        current_k,
        current_asset_supply as u128,
        current_token_supply as u128,
    ) {
        Ok(v) => v,
        Err(e) => {
            return Err(e);
        },
    };
    proof {
        if current_asset_supply + net_amount > 0 {
            lemma_small_u64_mod((current_token_supply - current_k / (current_asset_supply
                + net_amount) as u128) as int);
        }
    }
    let total_supply_minus_graduation = match current_token_supply.checked_sub(
        TOKEN_GRADUATION_AMOUNT as u64,
    ) {
        Some(v) => v,
        None => {
            return Err(LaunchPadErrorCode::MathOverflow);
        },
    };
    if token_amount_out > total_supply_minus_graduation {
        return Err(LaunchPadErrorCode::InsufficientTokenLiquidity);
    }
    let new_token_supply = match current_token_supply.checked_sub(token_amount_out) {
        Some(v) => v,
        None => {
            return Err(LaunchPadErrorCode::MathOverflow);
        },
    };
    let new_asset_supply = match current_asset_supply.checked_add(net_amount) {
        Some(v) => v,
        None => {
            return Err(LaunchPadErrorCode::MathOverflow);
        },
    };
    let new_graduation_amount = match token.virtual_graduation_amount.checked_add(net_amount) {
        Some(v) => v,
        None => {
            return Err(LaunchPadErrorCode::MathOverflow);
        },
    };
    proof {
        lemma_fundamental_div_mod(current_k as int, new_asset_supply as int);
        lemma_mod_division_less_than_divisor(current_k as int, new_asset_supply as int);
        assert(new_token_supply * new_asset_supply == new_asset_supply * new_token_supply)
            by (nonlinear_arith);
    }
    token.virtual_token_amount = new_token_supply;
    token.virtual_asset_amount = new_asset_supply;
    token.virtual_graduation_amount = new_graduation_amount;
    if new_graduation_amount >= config.graduate_threshold {
        token.status = LaunchPadTokenStatus::ReadyToGraduate;
    }
    Ok(
        BuyOutcome {
            token_amount_out,
            net_asset_amount: net_amount,
            fee_amount: buy_fee,
        },
    )
}

/// Sell `token_amount_in` tokens back to the curve. The gross payout is
/// drained from the asset reserve and deducted in full from the graduation
/// progress; the seller receives the payout net of the protocol fee.
pub fn sell_token(config: &LaunchPadConfig, token: &mut LaunchPadToken, token_amount_in: u64) -> (r:
    Result<SellOutcome, LaunchPadErrorCode>)
    requires
        config.wf(),
    ensures
        final(token).current_k == old(token).current_k,
        final(token).status == old(token).status,
        r is Err ==> *final(token) == *old(token),
        match sell_spec(*config, *old(token), token_amount_in) {
            Ok((new_state, outcome)) => r == Ok::<_, LaunchPadErrorCode>(outcome) && *final(token)
                == new_state,
            Err(e) => r == Err::<SellOutcome, _>(e),
        },
        r is Ok ==> final(token).virtual_token_amount * final(token).virtual_asset_amount <= old(token).current_k < final(token).virtual_token_amount * final(token).virtual_asset_amount + final(token).virtual_token_amount,
{
    if !matches!(config.status, ProtocolStatus::Active) {
        return Err(LaunchPadErrorCode::ProtocolConfigNotActive);
    }
    if !matches!(token.status, LaunchPadTokenStatus::TradingEnabled) {
        return Err(LaunchPadErrorCode::LaunchPadTokenTradingNotEnabled);
    }
    let current_asset_supply = token.virtual_asset_amount;
    let current_token_supply = token.virtual_token_amount;
    let current_k = token.current_k;
    let asset_amount_out = match calc_asset_amount_out(
        token_amount_in,
        current_k,
        current_token_supply as u128,
        current_asset_supply as u128,
    ) {
        Ok(v) => v,
        Err(e) => {
            return Err(e);
        },
    };
    proof {
        if current_token_supply + token_amount_in > 0 {
            lemma_small_u64_mod((current_asset_supply - current_k / (current_token_supply
                + token_amount_in) as u128) as int);
        }
    }
    let sell_fee = match config.calculate_sell_fee(asset_amount_out) {
        Ok(v) => v,
        Err(e) => {
            return Err(e);
        },
    };
    let net_asset_out = match asset_amount_out.checked_sub(sell_fee) {
        Some(v) => v,
        None => {
            return Err(LaunchPadErrorCode::MathOverflow);
        },
    };
    if asset_amount_out > current_asset_supply {
        return Err(LaunchPadErrorCode::InsufficientAssetLiquidity);
    }
    let new_token_supply = match current_token_supply.checked_add(token_amount_in) {
        Some(v) => v,
        None => {
            return Err(LaunchPadErrorCode::MathOverflow);
        },
    };
    let new_asset_supply = match current_asset_supply.checked_sub(asset_amount_out) {
        Some(v) => v,
        None => {
            return Err(LaunchPadErrorCode::MathOverflow);
        },
    };
    let new_graduation_amount = match token.virtual_graduation_amount.checked_sub(
        asset_amount_out,
    ) {
        Some(v) => v,
        None => {
            return Err(LaunchPadErrorCode::MathOverflow);
        },
    };
    proof {
        lemma_fundamental_div_mod(current_k as int, new_token_supply as int);
        lemma_mod_division_less_than_divisor(current_k as int, new_token_supply as int);
        assert(new_token_supply * new_asset_supply == new_asset_supply * new_token_supply)
            by (nonlinear_arith);
    }
    token.virtual_token_amount = new_token_supply;
    token.virtual_asset_amount = new_asset_supply;
    token.virtual_graduation_amount = new_graduation_amount;
    Ok(
        SellOutcome {
            asset_amount_out,
            net_asset_amount: net_asset_out,
            fee_amount: sell_fee,
        },
    )
}

/// Reducing a value already in `u64` range modulo two to the sixty-fourth
/// leaves it unchanged.
proof fn lemma_small_u64_mod(x: int)
    requires
        0 <= x <= u64::MAX,
    ensures
        x % 0x1_0000_0000_0000_0000 == x,
{
}

} // verus!
