//! Lifecycle notifications. The core returns the event for a successful
//! operation; delivery to the notification sink is the caller's business
//! and nothing here depends on it.

use vstd::prelude::*;

use crate::keys::Pubkey;
use crate::statuses::{LaunchPadTokenStatus, ProtocolStatus};

verus! {

#[derive(Clone, Copy, Debug, PartialEq, Eq)]
pub struct LaunchPadConfigInitialized {
    pub authority: Pubkey,
    pub asset_rate: u64,
    pub creator_sell_delay: u64,
    pub graduate_threshold: u64,
    pub protocol_buy_fee: u32,
    pub protocol_sell_fee: u32,
    pub status: ProtocolStatus,
    pub timestamp: i64,
}

#[derive(Clone, Copy, Debug, PartialEq, Eq, Structural)]
pub struct LaunchPadPaused {
    pub timestamp: i64,
}

#[derive(Clone, Copy, Debug, PartialEq, Eq, Structural)]
pub struct LaunchPadUnpaused {
    pub timestamp: i64,
}

#[derive(Clone, Copy, Debug, PartialEq, Eq)]
pub struct LaunchPadTokenCreated {
    pub creator: Pubkey,
    pub mint: Pubkey,
    pub status: LaunchPadTokenStatus,
    pub timestamp: i64,
}

#[derive(Clone, Copy, Debug, PartialEq, Eq)]
pub struct LaunchPadTokenGraduated {
    pub mint: Pubkey,
    pub status: LaunchPadTokenStatus,
    pub timestamp: i64,
}

} // verus!
