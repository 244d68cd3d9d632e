//! The protocol-wide configuration singleton: guarded settings and the
//! `Unknown -> Active <-> Paused` status machine, plus the fee policy.

use vstd::prelude::*;

use crate::constants::{
    MAX_PROTOCOL_FEE, MIN_ASSET_RATE, MIN_CREATOR_SELL_DELAY, MIN_GRADUATE_THRESHOLD,
    MIN_PROTOCOL_FEE,
};
use crate::errors::LaunchPadErrorCode;
use crate::events::{LaunchPadConfigInitialized, LaunchPadPaused, LaunchPadUnpaused};
use crate::keys::Pubkey;
use crate::statuses::ProtocolStatus;

verus! {

/// The protocol fee for `amount`, at `fee_ppm` parts per million, floored.
pub open spec fn fee_spec(amount: u64, fee_ppm: u32) -> int {
    (amount * fee_ppm) / 1_000_000
}

#[derive(Clone, Copy, Debug, PartialEq, Eq)]
pub struct LaunchPadConfig {
    /// The authority that can pause and unpause the launch pad.
    pub authority: Pubkey,
    /// The rate of asset per token, fixed at initialization.
    pub asset_rate: u64,
    /// The delay in seconds before a creator can sell their tokens.
    pub creator_sell_delay: u64,
    /// The net reserve-asset inflow at which a token may graduate.
    pub graduate_threshold: u64,
    /// The protocol buy fee, in parts per million of the traded amount.
    pub protocol_buy_fee: u32,
    /// The protocol sell fee, in parts per million of the traded amount.
    pub protocol_sell_fee: u32,
    /// The current status of the protocol.
    pub status: ProtocolStatus,
    /// The bump seed for the config's ledger address.
    pub bump: u8,
    /// The bump seed for the fee vault's ledger address.
    pub vault_bump: u8,
}

impl LaunchPadConfig {
    /// The data-model invariant: once the config has been initialized, its
    /// settings sit inside the guarded bounds. `initialize` establishes it
    /// and `pause`/`unpause` keep it.
    pub open spec fn wf(self) -> bool {
        self.status != ProtocolStatus::Unknown ==> {
            &&& !self.authority.is_zero()
            &&& self.asset_rate > MIN_ASSET_RATE
            &&& self.graduate_threshold > MIN_GRADUATE_THRESHOLD
            &&& MIN_PROTOCOL_FEE <= self.protocol_buy_fee <= MAX_PROTOCOL_FEE
            &&& MIN_PROTOCOL_FEE <= self.protocol_sell_fee <= MAX_PROTOCOL_FEE
        }
    }

    /// A fresh, not-yet-initialized configuration record.
    pub fn new() -> (r: Self)
        ensures
            r.status == ProtocolStatus::Unknown,
            r.wf(),
    {
        LaunchPadConfig {
            authority: Pubkey { bytes: [0u8; 32] },
            asset_rate: 0,
            creator_sell_delay: 0,
            graduate_threshold: 0,
            protocol_buy_fee: 0,
            protocol_sell_fee: 0,
            status: ProtocolStatus::Unknown,
            bump: 0,
            vault_bump: 0,
        }
    }

    /// One-time initialization, `Unknown -> Active`. Validates every
    /// setting; on success the config is Active and the caller receives the
    /// notification to emit. `now` is the current ledger time in seconds.
    pub fn initialize(
        &mut self,
        authority: Pubkey,
        asset_rate: u64,
        creator_sell_delay: u64,
        graduate_threshold: u64,
        protocol_buy_fee: u32,
        protocol_sell_fee: u32,
        bump: u8,
        vault_bump: u8,
        now: i64,
    ) -> (r: Result<LaunchPadConfigInitialized, LaunchPadErrorCode>)
        requires
            0 <= now <= i64::MAX - MIN_CREATOR_SELL_DELAY,
        ensures
            r is Err ==> *final(self) == *old(self),
            final(self).wf() || !old(self).wf(),
            ({
                let s = *old(self);
                if s.status != ProtocolStatus::Unknown {
                    r == Err::<LaunchPadConfigInitialized, _>(
                        LaunchPadErrorCode::ProtocolConfigInitialized,
                    )
                } else if authority.is_zero() {
                    r == Err::<LaunchPadConfigInitialized, _>(LaunchPadErrorCode::InvalidAuthority)
                } else if creator_sell_delay <= now + MIN_CREATOR_SELL_DELAY {
                    r == Err::<LaunchPadConfigInitialized, _>(
                        LaunchPadErrorCode::CreatorSellDelayNotMet,
                    )
                } else if asset_rate <= MIN_ASSET_RATE {
                    r == Err::<LaunchPadConfigInitialized, _>(
                        LaunchPadErrorCode::AssetRateMustBeGreaterThanZero,
                    )
                } else if graduate_threshold <= MIN_GRADUATE_THRESHOLD {
                    r == Err::<LaunchPadConfigInitialized, _>(
                        LaunchPadErrorCode::GraduateThresholdNotMet,
                    )
                } else if protocol_buy_fee > MAX_PROTOCOL_FEE {
                    r == Err::<LaunchPadConfigInitialized, _>(
                        LaunchPadErrorCode::ProtocolFeeExceedsMaximum,
                    )
                } else if protocol_buy_fee < MIN_PROTOCOL_FEE {
                    r == Err::<LaunchPadConfigInitialized, _>(
                        LaunchPadErrorCode::ProtocolFeeMinimumNotMet,
                    )
                } else if protocol_sell_fee > MAX_PROTOCOL_FEE {
                    r == Err::<LaunchPadConfigInitialized, _>(
                        LaunchPadErrorCode::ProtocolFeeExceedsMaximum,
                    )
                } else if protocol_sell_fee < MIN_PROTOCOL_FEE {
                    r == Err::<LaunchPadConfigInitialized, _>(
                        LaunchPadErrorCode::ProtocolFeeMinimumNotMet,
                    )
                } else {
                    &&& *final(self) == (LaunchPadConfig {
                        authority,
                        asset_rate,
                        creator_sell_delay,
                        graduate_threshold,
                        protocol_buy_fee,
                        protocol_sell_fee,
                        status: ProtocolStatus::Active,
                        bump,
                        vault_bump,
                    })
                    &&& r == Ok::<_, LaunchPadErrorCode>(
                        (LaunchPadConfigInitialized {
                            authority,
                            asset_rate,
                            creator_sell_delay,
                            graduate_threshold,
                            protocol_buy_fee,
                            protocol_sell_fee,
                            status: ProtocolStatus::Active,
                            timestamp: now,
                        }),
                    )
                }
            }),
    {
        if !matches!(self.status, ProtocolStatus::Unknown) {
            return Err(LaunchPadErrorCode::ProtocolConfigInitialized);
        }
        if authority.is_default() {
            return Err(LaunchPadErrorCode::InvalidAuthority);
        }
        let time = now + MIN_CREATOR_SELL_DELAY as i64;
        if creator_sell_delay <= time as u64 {
            return Err(LaunchPadErrorCode::CreatorSellDelayNotMet);
        }
        if asset_rate <= MIN_ASSET_RATE {
            return Err(LaunchPadErrorCode::AssetRateMustBeGreaterThanZero);
        }
        if graduate_threshold <= MIN_GRADUATE_THRESHOLD {
            return Err(LaunchPadErrorCode::GraduateThresholdNotMet);
        }
        if protocol_buy_fee > MAX_PROTOCOL_FEE {
            return Err(LaunchPadErrorCode::ProtocolFeeExceedsMaximum);
        }
        if protocol_buy_fee < MIN_PROTOCOL_FEE {
            return Err(LaunchPadErrorCode::ProtocolFeeMinimumNotMet);
        }
        if protocol_sell_fee > MAX_PROTOCOL_FEE {
            return Err(LaunchPadErrorCode::ProtocolFeeExceedsMaximum);
        }
        if protocol_sell_fee < MIN_PROTOCOL_FEE {
            return Err(LaunchPadErrorCode::ProtocolFeeMinimumNotMet);
        }
        self.authority = authority;
        self.asset_rate = asset_rate;
        self.creator_sell_delay = creator_sell_delay;
        self.graduate_threshold = graduate_threshold;
        self.protocol_buy_fee = protocol_buy_fee;
        self.protocol_sell_fee = protocol_sell_fee;
        self.status = ProtocolStatus::Active;
        self.bump = bump;
        self.vault_bump = vault_bump;
        Ok(
            LaunchPadConfigInitialized {
                authority,
                asset_rate,
                creator_sell_delay,
                graduate_threshold,
                protocol_buy_fee,
                protocol_sell_fee,
                status: ProtocolStatus::Active,
                timestamp: now,
            },
        )
    }

    /// `Active -> Paused`; fails if the protocol is not currently active.
    pub fn pause(&mut self, now: i64) -> (r: Result<LaunchPadPaused, LaunchPadErrorCode>)
        ensures
            old(self).wf() ==> final(self).wf(),
            if old(self).status != ProtocolStatus::Active {
                r == Err::<LaunchPadPaused, _>(LaunchPadErrorCode::ProtocolAlreadyPaused)
                    && *final(self) == *old(self)
            } else {
                r == Ok::<_, LaunchPadErrorCode>((LaunchPadPaused { timestamp: now })) && *final(self) == (LaunchPadConfig { status: ProtocolStatus::Paused, ..*old(self) })
            },
    {
        if !matches!(self.status, ProtocolStatus::Active) {
            return Err(LaunchPadErrorCode::ProtocolAlreadyPaused);
        }
        self.status = ProtocolStatus::Paused;
        Ok(LaunchPadPaused { timestamp: now })
    }

    /// `Paused -> Active`; fails if the protocol is not currently paused.
    pub fn unpause(&mut self, now: i64) -> (r: Result<LaunchPadUnpaused, LaunchPadErrorCode>)
        ensures
            old(self).wf() ==> final(self).wf(),
            if old(self).status != ProtocolStatus::Paused {
                r == Err::<LaunchPadUnpaused, _>(LaunchPadErrorCode::ProtocolNotPaused) && *final(self) == *old(self)
            } else {
                r == Ok::<_, LaunchPadErrorCode>((LaunchPadUnpaused { timestamp: now })) && *final(self) == (LaunchPadConfig { status: ProtocolStatus::Active, ..*old(self) })
            },
    {
        if !matches!(self.status, ProtocolStatus::Paused) {
            return Err(LaunchPadErrorCode::ProtocolNotPaused);
        }
        self.status = ProtocolStatus::Active;
        Ok(LaunchPadUnpaused { timestamp: now })
    }

    /// The protocol's cut of a buy of `amount`, floored. The value is exact
    /// (and at most `amount`) whenever the fee rate is at most one million
    /// parts per million, as `wf` guarantees.
    pub fn calculate_buy_fee(&self, amount: u64) -> (r: Result<u64, LaunchPadErrorCode>)
        ensures
            r is Ok,
            r->Ok_0 == fee_spec(amount, self.protocol_buy_fee) % 0x1_0000_0000_0000_0000,
            self.protocol_buy_fee <= 1_000_000 ==> r->Ok_0 == fee_spec(
                amount,
                self.protocol_buy_fee,
            ) && r->Ok_0 <= amount,
    {
        calculate_fee(amount, self.protocol_buy_fee)
    }

    /// The protocol's cut of a sell payout of `amount`, floored; same shape
    /// as `calculate_buy_fee`.
    pub fn calculate_sell_fee(&self, amount: u64) -> (r: Result<u64, LaunchPadErrorCode>)
        ensures
            r is Ok,
            r->Ok_0 == fee_spec(amount, self.protocol_sell_fee) % 0x1_0000_0000_0000_0000,
            self.protocol_sell_fee <= 1_000_000 ==> r->Ok_0 == fee_spec(
                amount,
                self.protocol_sell_fee,
            ) && r->Ok_0 <= amount,
    {
        calculate_fee(amount, self.protocol_sell_fee)
    }
}

fn calculate_fee(amount: u64, fee_ppm: u32) -> (r: Result<u64, LaunchPadErrorCode>)
    ensures
        r is Ok,
        r->Ok_0 == fee_spec(amount, fee_ppm) % 0x1_0000_0000_0000_0000,
        fee_ppm <= 1_000_000 ==> r->Ok_0 == fee_spec(amount, fee_ppm) && r->Ok_0 <= amount,
{
    proof {
        assert(amount * fee_ppm <= u128::MAX) by (nonlinear_arith)
            requires
                amount <= u64::MAX,
                fee_ppm <= u32::MAX,
        ;
    }
    let product = (amount as u128) * (fee_ppm as u128);
    let fee = product / 1_000_000;
    proof {
        assert(fee as u64 == fee % 0x1_0000_0000_0000_0000) by (bit_vector);
        if fee_ppm <= 1_000_000 {
            assert(amount * fee_ppm / 1_000_000 <= amount) by (nonlinear_arith)
                requires
                    fee_ppm <= 1_000_000,
                    amount >= 0,
            ;
        }
    }
    Ok(#[verifier::truncate] (fee as u64))
}

} // verus!
