//! Per-token reserve state and lifecycle. A token's `current_k` is the
//! product of its initial virtual reserves, fixed for its whole lifetime;
//! trades solve for new reserves against it and never recompute it.

use vstd::prelude::*;

use crate::errors::LaunchPadErrorCode;
use crate::events::{LaunchPadTokenCreated, LaunchPadTokenGraduated};
use crate::keys::Pubkey;
use crate::statuses::LaunchPadTokenStatus;

verus! {

#[derive(Clone, Copy, Debug, PartialEq, Eq)]
pub struct LaunchPadToken {
    /// The creator of the launch pad token.
    pub creator: Pubkey,
    /// The mint identity of the launch pad token.
    pub mint: Pubkey,
    /// Virtual reserve of the token side of the curve.
    pub virtual_token_amount: u64,
    /// Virtual reserve of the asset side of the curve.
    pub virtual_asset_amount: u64,
    /// The constant-product invariant `k`, the product of the initial
    /// virtual reserves; immutable after creation.
    pub current_k: u128,
    /// Running total of net reserve-asset inflow, the graduation driver.
    pub virtual_graduation_amount: u64,
    /// The timestamp when the token graduated.
    pub graduated_at: i64,
    /// The timestamp when the token was created.
    pub created_at: i64,
    /// The current status of the launch pad token.
    pub status: LaunchPadTokenStatus,
    /// The bump seed for the token record's ledger address.
    pub bump: u8,
    /// The bump seed for the graduation vault's ledger address.
    pub vault_bump: u8,
}

/// What creating a token does to record `t`: the freshly created state and
/// the notification, or the error leaving `t` unchanged.
pub open spec fn create_spec(
    t: LaunchPadToken,
    creator: Pubkey,
    mint: Pubkey,
    token_amount: u64,
    asset_amount: u64,
    bump: u8,
    vault_bump: u8,
    now: i64,
) -> Result<(LaunchPadToken, LaunchPadTokenCreated), LaunchPadErrorCode> {
    if t.status != LaunchPadTokenStatus::Unknown {
        Err(LaunchPadErrorCode::LaunchPadTokenAlreadyCreated)
    } else if creator.is_zero() {
        Err(LaunchPadErrorCode::InvalidCreator)
    } else if mint.is_zero() {
        Err(LaunchPadErrorCode::InvalidMint)
    } else {
        Ok(
            (
                LaunchPadToken {
                    creator,
                    mint,
                    virtual_token_amount: token_amount,
                    virtual_asset_amount: asset_amount,
                    current_k: (token_amount * asset_amount) as u128,
                    virtual_graduation_amount: 0,
                    graduated_at: t.graduated_at,
                    created_at: now,
                    status: LaunchPadTokenStatus::TradingEnabled,
                    bump,
                    vault_bump,
                },
                LaunchPadTokenCreated {
                    creator,
                    mint,
                    status: LaunchPadTokenStatus::TradingEnabled,
                    timestamp: now,
                },
            ),
        )
    }
}

/// What the terminal graduation transition does to record `t`.
pub open spec fn graduate_spec(t: LaunchPadToken, now: i64) -> Result<
    (LaunchPadToken, LaunchPadTokenGraduated),
    LaunchPadErrorCode,
> {
    if t.status != LaunchPadTokenStatus::ReadyToGraduate {
        Err(LaunchPadErrorCode::LaunchPadTokenAlreadyGraduated)
    } else {
        Ok(
            (
                LaunchPadToken {
                    status: LaunchPadTokenStatus::Graduated,
                    graduated_at: now,
                    ..t
                },
                LaunchPadTokenGraduated {
                    mint: t.mint,
                    status: LaunchPadTokenStatus::Graduated,
                    timestamp: now,
                },
            ),
        )
    }
}

impl LaunchPadToken {
    /// The curve invariant: floor division rounds every trade in the
    /// reserve's favor, so the product of the virtual reserves never rises
    /// above `current_k`. Creation establishes it with equality; every buy
    /// and sell preserves it.
    pub open spec fn curve_wf(self) -> bool {
        self.virtual_token_amount * self.virtual_asset_amount <= self.current_k
    }

    /// A fresh, not-yet-created token record.
    pub fn new() -> (r: Self)
        ensures
            r.status == LaunchPadTokenStatus::Unknown,
    {
        LaunchPadToken {
            creator: Pubkey { bytes: [0u8; 32] },
            mint: Pubkey { bytes: [0u8; 32] },
            virtual_token_amount: 0,
            virtual_asset_amount: 0,
            current_k: 0,
            virtual_graduation_amount: 0,
            graduated_at: 0,
            created_at: 0,
            status: LaunchPadTokenStatus::Unknown,
            bump: 0,
            vault_bump: 0,
        }
    }

    /// One-time creation, `Unknown -> TradingEnabled`: records creator and
    /// mint, sets both virtual reserves, and fixes `current_k` as their
    /// product. `now` is the current ledger time in seconds.
    pub fn create(
        &mut self,
        creator: Pubkey,
        mint: Pubkey,
        token_amount: u64,
        asset_amount: u64,
        bump: u8,
        vault_bump: u8,
        now: i64,
    ) -> (r: Result<LaunchPadTokenCreated, LaunchPadErrorCode>)
        ensures
            r is Err ==> *final(self) == *old(self),
            r is Ok ==> final(self).curve_wf(),
            match create_spec(*old(self), creator, mint, token_amount, asset_amount, bump, vault_bump, now) {
                Ok((new_state, event)) => r == Ok::<_, LaunchPadErrorCode>(event) && *final(self)
                    == new_state,
                Err(e) => r == Err::<LaunchPadTokenCreated, _>(e),
            },
    {
        if !matches!(self.status, LaunchPadTokenStatus::Unknown) {
            return Err(LaunchPadErrorCode::LaunchPadTokenAlreadyCreated);
        }
        if creator.is_default() {
            return Err(LaunchPadErrorCode::InvalidCreator);
        }
        if mint.is_default() {
            return Err(LaunchPadErrorCode::InvalidMint);
        }
        proof {
            assert(token_amount * asset_amount <= u128::MAX) by (nonlinear_arith)
                requires
                    token_amount <= u64::MAX,
                    asset_amount <= u64::MAX,
            ;
        }
        self.creator = creator;
        self.mint = mint;
        self.virtual_token_amount = token_amount;
        self.virtual_asset_amount = asset_amount;
        self.current_k = (token_amount as u128) * (asset_amount as u128);
        self.virtual_graduation_amount = 0;
        self.created_at = now;
        self.bump = bump;
        self.vault_bump = vault_bump;
        self.status = LaunchPadTokenStatus::TradingEnabled;
        Ok(
            LaunchPadTokenCreated {
                creator,
                mint,
                status: LaunchPadTokenStatus::TradingEnabled,
                timestamp: now,
            },
        )
    }

    /// The terminal transition, `ReadyToGraduate -> Graduated`; the final
    /// step of the graduation hand-off, once the reserves have been moved
    /// to the external pool. There is no path back.
    pub fn graduate(&mut self, now: i64) -> (r: Result<
        LaunchPadTokenGraduated,
        LaunchPadErrorCode,
    >)
        ensures
            old(self).curve_wf() ==> final(self).curve_wf(),
            final(self).current_k == old(self).current_k,
            match graduate_spec(*old(self), now) {
                Ok((new_state, event)) => r == Ok::<_, LaunchPadErrorCode>(event) && *final(self)
                    == new_state,
                Err(e) => r == Err::<LaunchPadTokenGraduated, _>(e) && *final(self) == *old(self),
            },
    {
        if !matches!(self.status, LaunchPadTokenStatus::ReadyToGraduate) {
            return Err(LaunchPadErrorCode::LaunchPadTokenAlreadyGraduated);
        }
        self.status = LaunchPadTokenStatus::Graduated;
        self.graduated_at = now;
        Ok(
            LaunchPadTokenGraduated {
                mint: self.mint,
                status: LaunchPadTokenStatus::Graduated,
                timestamp: now,
            },
        )
    }
}

} // verus!
