//! The library's laws: properties that relate several operations, stated
//! and proved over the same spec functions the operations' contracts use.

use vstd::prelude::*;

use vstd::arithmetic::div_mod::{
    lemma_div_is_ordered, lemma_div_multiples_vanish, lemma_fundamental_div_mod,
    lemma_mod_division_less_than_divisor, lemma_multiply_divide_lt,
};

use crate::config::{fee_spec, LaunchPadConfig};
use crate::errors::LaunchPadErrorCode;
use crate::graduation::{graduation_step_spec, GraduationAction};
use crate::statuses::{LaunchPadTokenStatus, ProtocolStatus};
use crate::token::{graduate_spec, LaunchPadToken};
use crate::trade::{buy_spec, sell_spec};

verus! {

/// One trade request against a token.
#[derive(Clone, Copy, Debug, PartialEq, Eq, Structural)]
pub enum TradeOp {
    Buy(u64),
    Sell(u64),
}

/// The token state after one trade; a failed trade leaves the state as is.
pub open spec fn apply_trade(cfg: LaunchPadConfig, t: LaunchPadToken, op: TradeOp) -> LaunchPadToken {
    match op {
        TradeOp::Buy(amount) => match buy_spec(cfg, t, amount) {
            Ok((new_state, _)) => new_state,
            Err(_) => t,
        },
        TradeOp::Sell(amount) => match sell_spec(cfg, t, amount) {
            Ok((new_state, _)) => new_state,
            Err(_) => t,
        },
    }
}

/// The token state after a sequence of trades, applied in order.
pub open spec fn apply_trades(
    cfg: LaunchPadConfig,
    t: LaunchPadToken,
    ops: Seq<TradeOp>,
) -> LaunchPadToken
    decreases ops.len(),
{
    if ops.len() == 0 {
        t
    } else {
        apply_trades(cfg, apply_trade(cfg, t, ops[0]), ops.drop_first())
    }
}

/// `current_k` is invariant under any sequence of buy and sell operations:
/// it is fixed at creation and never recomputed.
pub proof fn lemma_current_k_invariant_under_trades(
    cfg: LaunchPadConfig,
    t: LaunchPadToken,
    ops: Seq<TradeOp>,
)
    ensures
        apply_trades(cfg, t, ops).current_k == t.current_k,
    decreases ops.len(),
{
    if ops.len() > 0 {
        lemma_current_k_invariant_under_trades(cfg, apply_trade(cfg, t, ops[0]), ops.drop_first());
    }
}

/// Every single trade keeps the curve invariant: the product of the
/// virtual reserves stays at or below `current_k`.
pub proof fn lemma_trade_preserves_curve_wf(cfg: LaunchPadConfig, t: LaunchPadToken, op: TradeOp)
    requires
        t.curve_wf(),
    ensures
        apply_trade(cfg, t, op).curve_wf(),
{
    let t2 = apply_trade(cfg, t, op);
    match op {
        TradeOp::Buy(amount) => {
            if buy_spec(cfg, t, amount) is Ok {
                let divisor = t2.virtual_asset_amount as int;
                let quot = (t.current_k as int) / divisor;
                lemma_fundamental_div_mod(t.current_k as int, divisor);
                lemma_mod_division_less_than_divisor(t.current_k as int, divisor);
                assert(t2.virtual_token_amount == quot);
                assert(quot * divisor == divisor * quot) by (nonlinear_arith);
            }
        },
        TradeOp::Sell(amount) => {
            if sell_spec(cfg, t, amount) is Ok {
                let divisor = t2.virtual_token_amount as int;
                let quot = (t.current_k as int) / divisor;
                lemma_fundamental_div_mod(t.current_k as int, divisor);
                lemma_mod_division_less_than_divisor(t.current_k as int, divisor);
                assert(t2.virtual_asset_amount == quot);
                assert(quot * divisor == divisor * quot) by (nonlinear_arith);
            }
        },
    }
}

/// The curve invariant holds after any sequence of trades.
pub proof fn lemma_trades_preserve_curve_wf(
    cfg: LaunchPadConfig,
    t: LaunchPadToken,
    ops: Seq<TradeOp>,
)
    requires
        t.curve_wf(),
    ensures
        apply_trades(cfg, t, ops).curve_wf(),
    decreases ops.len(),
{
    if ops.len() > 0 {
        lemma_trade_preserves_curve_wf(cfg, t, ops[0]);
        lemma_trades_preserve_curve_wf(cfg, apply_trade(cfg, t, ops[0]), ops.drop_first());
    }
}

/// Buying with `amount` and then immediately selling the tokens received
/// never pays back more than `amount`, gross or net: floor rounding
/// strictly favors the reserve, so the round trip is never a gain.
pub proof fn lemma_buy_sell_round_trip(cfg: LaunchPadConfig, t: LaunchPadToken, amount: u64)
    requires
        cfg.wf(),
        t.curve_wf(),
        buy_spec(cfg, t, amount) is Ok,
        sell_spec(
            cfg,
            buy_spec(cfg, t, amount)->Ok_0.0,
            buy_spec(cfg, t, amount)->Ok_0.1.token_amount_out,
        ) is Ok,
    ensures
        ({
            let t1 = buy_spec(cfg, t, amount)->Ok_0.0;
            let bought = buy_spec(cfg, t, amount)->Ok_0.1;
            let sold = sell_spec(cfg, t1, bought.token_amount_out)->Ok_0.1;
            sold.asset_amount_out <= amount && sold.net_asset_amount <= amount
        }),
{
    let t1 = buy_spec(cfg, t, amount)->Ok_0.0;
    let bought = buy_spec(cfg, t, amount)->Ok_0.1;
    let sold = sell_spec(cfg, t1, bought.token_amount_out)->Ok_0.1;
    let k = t.current_k as int;
    let vt0 = t.virtual_token_amount as int;
    let va0 = t.virtual_asset_amount as int;
    let fee_buy = fee_spec(amount, cfg.protocol_buy_fee);
    assert(0 <= fee_buy <= amount) by (nonlinear_arith)
        requires
            fee_buy == (amount * cfg.protocol_buy_fee) / 1_000_000,
            cfg.protocol_buy_fee <= 1_000_000,
            0 <= amount,
    ;
    let net = amount - fee_buy;
    // After the buy the token reserve is exactly `k / (va0 + net)` floored,
    // so selling the bought tokens divides `k` by the pre-trade `vt0` again.
    let divisor_buy = va0 + net;
    assert(t1.virtual_asset_amount == divisor_buy);
    assert(t1.virtual_token_amount == k / divisor_buy);
    let divisor_sell = t1.virtual_token_amount + bought.token_amount_out;
    assert(divisor_sell == vt0);
    // The curve invariant bounds the pre-trade asset reserve by `k / vt0`.
    assert(vt0 * va0 == va0 * vt0) by (nonlinear_arith);
    lemma_div_multiples_vanish(va0, vt0);
    lemma_div_is_ordered(vt0 * va0, k, vt0);
    assert(va0 <= k / vt0);
    assert(sold.asset_amount_out == va0 + net - k / vt0);
    assert(sold.asset_amount_out <= amount);
    let fee_sell = fee_spec(sold.asset_amount_out, cfg.protocol_sell_fee);
    assert(0 <= fee_sell) by (nonlinear_arith)
        requires
            fee_sell == (sold.asset_amount_out * cfg.protocol_sell_fee) / 1_000_000,
            0 <= sold.asset_amount_out,
            0 <= cfg.protocol_sell_fee,
    ;
}

/// Selling back what a buy returned is owed to succeed whenever the buy
/// yielded at least one token and did not cross the graduation threshold:
/// the round trip of the previous law is well defined, not vacuous.
pub proof fn lemma_round_trip_sell_succeeds(cfg: LaunchPadConfig, t: LaunchPadToken, amount: u64)
    requires
        cfg.wf(),
        t.curve_wf(),
        buy_spec(cfg, t, amount) is Ok,
        buy_spec(cfg, t, amount)->Ok_0.1.token_amount_out >= 1,
        buy_spec(cfg, t, amount)->Ok_0.0.status == LaunchPadTokenStatus::TradingEnabled,
    ensures
        sell_spec(
            cfg,
            buy_spec(cfg, t, amount)->Ok_0.0,
            buy_spec(cfg, t, amount)->Ok_0.1.token_amount_out,
        ) is Ok,
{
    let t1 = buy_spec(cfg, t, amount)->Ok_0.0;
    let bought = buy_spec(cfg, t, amount)->Ok_0.1;
    let k = t.current_k as int;
    let vt0 = t.virtual_token_amount as int;
    let va0 = t.virtual_asset_amount as int;
    let fee_buy = fee_spec(amount, cfg.protocol_buy_fee);
    assert(0 <= fee_buy <= amount) by (nonlinear_arith)
        requires
            fee_buy == (amount * cfg.protocol_buy_fee) / 1_000_000,
            cfg.protocol_buy_fee <= 1_000_000,
            0 <= amount,
    ;
    let net = amount - fee_buy;
    let divisor_buy = va0 + net;
    let quot_buy = k / divisor_buy;
    assert(t1.virtual_asset_amount == divisor_buy);
    assert(t1.virtual_token_amount == quot_buy);
    // the sell's divisor is the pre-trade token reserve, which is positive
    let divisor_sell = t1.virtual_token_amount + bought.token_amount_out;
    assert(divisor_sell == vt0);
    // one whole token came out, so `k` sits strictly under `vt0 * (va0 + net)`
    lemma_fundamental_div_mod(k, divisor_buy);
    lemma_mod_division_less_than_divisor(k, divisor_buy);
    assert(k < (quot_buy + 1) * divisor_buy) by (nonlinear_arith)
        requires
            k == divisor_buy * quot_buy + k % divisor_buy,
            k % divisor_buy < divisor_buy,
    ;
    assert((quot_buy + 1) * divisor_buy <= vt0 * divisor_buy) by (nonlinear_arith)
        requires
            quot_buy + 1 <= vt0,
            0 < divisor_buy,
    ;
    lemma_multiply_divide_lt(k, vt0, divisor_buy);
    assert(k / vt0 < divisor_buy);
    // the gross payout stays within the accumulated graduation progress
    assert(vt0 * va0 == va0 * vt0) by (nonlinear_arith);
    lemma_div_multiples_vanish(va0, vt0);
    lemma_div_is_ordered(vt0 * va0, k, vt0);
    assert(va0 <= k / vt0);
    let gross = t1.virtual_asset_amount - k / vt0;
    assert(0 < gross <= net);
    assert(gross <= t1.virtual_graduation_amount);
    // the protocol's cut never exceeds the payout it is taken from
    let fee_sell = fee_spec(gross as u64, cfg.protocol_sell_fee);
    assert(0 <= fee_sell <= gross) by (nonlinear_arith)
        requires
            fee_sell == ((gross as u64) * cfg.protocol_sell_fee) / 1_000_000,
            cfg.protocol_sell_fee <= 1_000_000,
            0 <= gross as u64,
            gross == gross as u64,
    ;
}

/// Graduation is idempotent: an already-graduated token always fails with
/// `LaunchPadTokenAlreadyGraduated`; a token that is not ready is a no-op
/// success; and once the terminal transition has run, a repeated call
/// fails rather than running the hand-off twice.
pub proof fn lemma_graduation_idempotent(cfg: LaunchPadConfig, t: LaunchPadToken, now: i64)
    requires
        cfg.status == ProtocolStatus::Active,
    ensures
        t.status == LaunchPadTokenStatus::Graduated ==> graduation_step_spec(cfg, t) == Err::<
            GraduationAction,
            _,
        >(LaunchPadErrorCode::LaunchPadTokenAlreadyGraduated),
        (t.status == LaunchPadTokenStatus::Unknown || t.status
            == LaunchPadTokenStatus::TradingEnabled) ==> graduation_step_spec(cfg, t) == Ok::<
            _,
            LaunchPadErrorCode,
        >(GraduationAction::Noop),
        t.status == LaunchPadTokenStatus::ReadyToGraduate ==> graduate_spec(t, now) is Ok
            && graduation_step_spec(cfg, graduate_spec(t, now)->Ok_0.0) == Err::<
            GraduationAction,
            _,
        >(LaunchPadErrorCode::LaunchPadTokenAlreadyGraduated),
{
}

/// Once a token leaves `TradingEnabled`, no buy or sell goes through: the
/// threshold crossing therefore happens exactly once, on the buy that
/// crosses it.
pub proof fn lemma_no_trading_outside_trading_enabled(
    cfg: LaunchPadConfig,
    t: LaunchPadToken,
    amount: u64,
)
    requires
        cfg.status == ProtocolStatus::Active,
        t.status != LaunchPadTokenStatus::TradingEnabled,
    ensures
        buy_spec(cfg, t, amount) == Err::<(LaunchPadToken, crate::trade::BuyOutcome), _>(
            LaunchPadErrorCode::LaunchPadTokenTradingNotEnabled,
        ),
        sell_spec(cfg, t, amount) == Err::<(LaunchPadToken, crate::trade::SellOutcome), _>(
            LaunchPadErrorCode::LaunchPadTokenTradingNotEnabled,
        ),
{
}

/// No trade at all goes through while the protocol is not active.
pub proof fn lemma_no_trading_when_not_active(cfg: LaunchPadConfig, t: LaunchPadToken, amount: u64)
    requires
        cfg.status != ProtocolStatus::Active,
    ensures
        buy_spec(cfg, t, amount) == Err::<(LaunchPadToken, crate::trade::BuyOutcome), _>(
            LaunchPadErrorCode::ProtocolConfigNotActive,
        ),
        sell_spec(cfg, t, amount) == Err::<(LaunchPadToken, crate::trade::SellOutcome), _>(
            LaunchPadErrorCode::ProtocolConfigNotActive,
        ),
        graduation_step_spec(cfg, t) == Err::<GraduationAction, _>(
            LaunchPadErrorCode::ProtocolConfigNotActive,
        ),
{
}

} // verus!
