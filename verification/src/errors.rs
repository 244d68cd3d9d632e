//! Error taxonomy of the launchpad core. Every public operation fails with
//! one of these kinds; no error leaves partial state behind.

use vstd::prelude::*;

verus! {

#[derive(Clone, Copy, Debug, PartialEq, Eq, Structural)]
pub enum LaunchPadErrorCode {
    InvalidAuthority,
    ProtocolConfigInitialized,
    ProtocolConfigNotInitialized,
    ProtocolConfigNotActive,
    ProtocolAlreadyPaused,
    ProtocolNotPaused,
    CreatorSellDelayNotMet,
    AssetRateMustBeGreaterThanZero,
    GraduateThresholdNotMet,
    ProtocolFeeExceedsMaximum,
    ProtocolFeeMinimumNotMet,
    InvalidCreator,
    InvalidMint,
    LaunchPadTokenNotCreated,
    LaunchPadTokenAlreadyCreated,
    LaunchPadTokenAlreadyGraduated,
    LaunchPadTokenTradingNotEnabled,
    InsufficientTokenLiquidity,
    InsufficientAssetLiquidity,
    InvalidTokenNameLength,
    InvalidTokenSymbolLength,
    InvalidTokenUriLength,
    MathOverflow,
}

impl LaunchPadErrorCode {
    /// A short human-readable description of the error kind.
    pub fn message(&self) -> String {
        match self {
            LaunchPadErrorCode::InvalidAuthority => "Invalid authority".to_string(),
            LaunchPadErrorCode::ProtocolConfigInitialized => {
                "ProtocolConfig already initialized".to_string()
            },
            LaunchPadErrorCode::ProtocolConfigNotInitialized => {
                "ProtocolConfig not initialized".to_string()
            },
            LaunchPadErrorCode::ProtocolConfigNotActive => "ProtocolConfig not active".to_string(),
            LaunchPadErrorCode::ProtocolAlreadyPaused => "Protocol is already paused".to_string(),
            LaunchPadErrorCode::ProtocolNotPaused => "Protocol is not paused".to_string(),
            LaunchPadErrorCode::CreatorSellDelayNotMet => "Creator sell delay not met".to_string(),
            LaunchPadErrorCode::AssetRateMustBeGreaterThanZero => {
                "Asset rate must be greater than zero".to_string()
            },
            LaunchPadErrorCode::GraduateThresholdNotMet => "Graduate threshold not met".to_string(),
            LaunchPadErrorCode::ProtocolFeeExceedsMaximum => {
                "Protocol fee exceeds maximum".to_string()
            },
            LaunchPadErrorCode::ProtocolFeeMinimumNotMet => {
                "Protocol fee minimum not met".to_string()
            },
            LaunchPadErrorCode::InvalidCreator => "Invalid creator".to_string(),
            LaunchPadErrorCode::InvalidMint => "Invalid mint".to_string(),
            LaunchPadErrorCode::LaunchPadTokenNotCreated => {
                "LaunchPadToken not created".to_string()
            },
            LaunchPadErrorCode::LaunchPadTokenAlreadyCreated => {
                "LaunchPadToken already created".to_string()
            },
            LaunchPadErrorCode::LaunchPadTokenAlreadyGraduated => {
                "LaunchPadToken already graduated".to_string()
            },
            LaunchPadErrorCode::LaunchPadTokenTradingNotEnabled => {
                "LaunchPadToken trading not enabled".to_string()
            },
            LaunchPadErrorCode::InsufficientTokenLiquidity => {
                "Insufficient token liquidity".to_string()
            },
            LaunchPadErrorCode::InsufficientAssetLiquidity => {
                "Insufficient asset liquidity".to_string()
            },
            LaunchPadErrorCode::InvalidTokenNameLength => "Invalid token name length".to_string(),
            LaunchPadErrorCode::InvalidTokenSymbolLength => {
                "Invalid token symbol length".to_string()
            },
            LaunchPadErrorCode::InvalidTokenUriLength => "Invalid token URI length".to_string(),
            LaunchPadErrorCode::MathOverflow => "Math overflow".to_string(),
        }
    }
}

} // verus!
