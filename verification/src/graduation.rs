//! The graduation hand-off. Moving the accumulated reserves into an
//! external liquidity pool is a saga run by the caller: external transfer
//! and pool-creation steps surround the decisions made here. The decision
//! to proceed is `begin_graduation`; the terminal state transition is
//! `LaunchPadToken::graduate`, called only after every external step has
//! succeeded, so a failure part-way leaves the token `ReadyToGraduate` and
//! the call can be retried.

use vstd::prelude::*;

use crate::config::LaunchPadConfig;
use crate::errors::LaunchPadErrorCode;
use crate::keys::{lex_lt, Pubkey};
use crate::statuses::{LaunchPadTokenStatus, ProtocolStatus};
use crate::token::LaunchPadToken;

verus! {

/// What a graduation call must do next.
#[derive(Clone, Copy, Debug, PartialEq, Eq, Structural)]
pub enum GraduationAction {
    /// The token is not ready: a speculative call succeeds with no effect.
    Noop,
    /// The token is ready: run the hand-off steps, then mark it graduated.
    Proceed,
}

/// One side of the external pool's two-sided seed call.
#[derive(Clone, Copy, Debug, PartialEq, Eq)]
pub struct PoolSeed {
    /// The asset identity of this side.
    pub mint: Pubkey,
    /// The deposit amount of this side.
    pub amount: u64,
}

/// The graduation decision on config `cfg` and token state `t`.
pub open spec fn graduation_step_spec(cfg: LaunchPadConfig, t: LaunchPadToken) -> Result<
    GraduationAction,
    LaunchPadErrorCode,
> {
    if cfg.status != ProtocolStatus::Active {
        Err(LaunchPadErrorCode::ProtocolConfigNotActive)
    } else if t.status == LaunchPadTokenStatus::Graduated {
        Err(LaunchPadErrorCode::LaunchPadTokenAlreadyGraduated)
    } else if t.status != LaunchPadTokenStatus::ReadyToGraduate {
        Ok(GraduationAction::Noop)
    } else {
        Ok(GraduationAction::Proceed)
    }
}

/// Decide a graduation call: fails on an already-graduated token, succeeds
/// without effect on a token that is not ready, and orders the hand-off for
/// a ready one. Reads only; the token state is not touched here.
pub fn begin_graduation(config: &LaunchPadConfig, token: &LaunchPadToken) -> (r: Result<
    GraduationAction,
    LaunchPadErrorCode,
>)
    ensures
        r == graduation_step_spec(*config, *token),
{
    if !matches!(config.status, ProtocolStatus::Active) {
        return Err(LaunchPadErrorCode::ProtocolConfigNotActive);
    }
    if matches!(token.status, LaunchPadTokenStatus::Graduated) {
        return Err(LaunchPadErrorCode::LaunchPadTokenAlreadyGraduated);
    }
    if !matches!(token.status, LaunchPadTokenStatus::ReadyToGraduate) {
        return Ok(GraduationAction::Noop);
    }
    Ok(GraduationAction::Proceed)
}

/// Canonical ordering for the external pool's seed call: the side whose
/// asset identity is lexicographically smaller must come first. The two
/// input sides come back unchanged, possibly swapped.
pub fn canonical_pool_order(asset_side: PoolSeed, token_side: PoolSeed) -> (r: (PoolSeed, PoolSeed))
    ensures
        if lex_lt(token_side.mint.bytes@, asset_side.mint.bytes@) {
            r == (token_side, asset_side)
        } else {
            r == (asset_side, token_side)
        },
        !lex_lt(r.1.mint.bytes@, r.0.mint.bytes@),
{
    if token_side.mint.lt(&asset_side.mint) {
        proof {
            lemma_lex_lt_asymmetric(token_side.mint.bytes@, asset_side.mint.bytes@);
        }
        (token_side, asset_side)
    } else {
        (asset_side, token_side)
    }
}

/// Strict lexicographic order is asymmetric: two sequences of equal length
/// cannot each order below the other.
proof fn lemma_lex_lt_asymmetric(a: Seq<u8>, b: Seq<u8>)
    requires
        a.len() == b.len(),
        lex_lt(a, b),
    ensures
        !lex_lt(b, a),
{
    let i = choose|i: int|
        0 <= i < a.len() && i < b.len() && a[i] < b[i] && (forall|j: int|
            0 <= j < i ==> a[j] == b[j]);
    assert forall|k: int|
        0 <= k < b.len() && k < a.len() && b[k] < a[k] implies !(forall|j: int|
        0 <= j < k ==> b[j] == a[j]) by {
        if k < i {
            assert(a[k] == b[k]);
        } else if k == i {
            assert(a[i] < b[i]);
        } else {
            assert(b[i] != a[i]);
        }
    }
}

} // verus!
