//! Lifecycle statuses of the protocol configuration and of a launched
//! token. Both are linear, one-directional state machines.

use vstd::prelude::*;

verus! {

/// Protocol-wide status. Transitions: `Unknown -> Active` (one-time init),
/// then `Active <-> Paused` (admin only).
#[derive(Clone, Copy, Debug, PartialEq, Eq, Structural)]
pub enum ProtocolStatus {
    Unknown,
    Active,
    Paused,
}

/// Per-token status. Linear: `Unknown -> TradingEnabled -> ReadyToGraduate
/// -> Graduated`, with no path back.
#[derive(Clone, Copy, Debug, PartialEq, Eq, Structural)]
pub enum LaunchPadTokenStatus {
    Unknown,
    TradingEnabled,
    ReadyToGraduate,
    Graduated,
}

impl Default for ProtocolStatus {
    fn default() -> (r: Self)
        ensures
            r == ProtocolStatus::Unknown,
    {
        ProtocolStatus::Unknown
    }
}

impl Default for LaunchPadTokenStatus {
    fn default() -> (r: Self)
        ensures
            r == LaunchPadTokenStatus::Unknown,
    {
        LaunchPadTokenStatus::Unknown
    }
}

} // verus!
