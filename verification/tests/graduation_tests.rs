use launchpad_fun::config::LaunchPadConfig;
use launchpad_fun::errors::LaunchPadErrorCode;
use launchpad_fun::graduation::{begin_graduation, canonical_pool_order, GraduationAction, PoolSeed};
use launchpad_fun::keys::Pubkey;
use launchpad_fun::launch::create_token;
use launchpad_fun::statuses::LaunchPadTokenStatus;
use launchpad_fun::token::LaunchPadToken;
use launchpad_fun::trade::buy_token;

const NOW: i64 = 1_700_000_000;

fn key(tag: u8) -> Pubkey {
    let mut bytes = [0u8; 32];
    bytes[0] = tag;
    Pubkey { bytes }
}

fn active_config(graduate_threshold: u64) -> LaunchPadConfig {
    let mut config = LaunchPadConfig::new();
    config
        .initialize(key(1), 7, NOW as u64 + 3600, graduate_threshold, 10_000, 10_000, 254, 253, NOW)
        .unwrap();
    config
}

fn launched_token(config: &LaunchPadConfig) -> LaunchPadToken {
    let mut token = LaunchPadToken::new();
    create_token(
        config,
        &mut token,
        key(2),
        key(3),
        "Launch Coin",
        "LNCH",
        "https://example.org/launch.json",
        255,
        254,
        NOW,
    )
    .unwrap();
    token
}

#[test]
fn speculative_graduation_is_a_noop() {
    let config = active_config(2_000_000_000);
    let token = launched_token(&config);
    let action = begin_graduation(&config, &token).unwrap();
    assert_eq!(action, GraduationAction::Noop);
    assert_eq!(token.status, LaunchPadTokenStatus::TradingEnabled);
}

#[test]
fn graduation_requires_active_protocol() {
    let mut config = active_config(2_000_000_000);
    let token = launched_token(&config);
    config.pause(NOW).unwrap();
    let err = begin_graduation(&config, &token).unwrap_err();
    assert_eq!(err, LaunchPadErrorCode::ProtocolConfigNotActive);
}

#[test]
fn graduation_saga_runs_once() {
    let config = active_config(500_000_000);
    let mut token = launched_token(&config);
    // cross the threshold
    buy_token(&config, &mut token, 1_000_000_000).unwrap();
    assert_eq!(token.status, LaunchPadTokenStatus::ReadyToGraduate);
    // the decision orders the hand-off
    let action = begin_graduation(&config, &token).unwrap();
    assert_eq!(action, GraduationAction::Proceed);
    // a failed external step leaves the token ready, so deciding again
    // still orders the hand-off
    let action = begin_graduation(&config, &token).unwrap();
    assert_eq!(action, GraduationAction::Proceed);
    // the external steps succeeded: terminal transition
    let event = token.graduate(NOW + 60).unwrap();
    assert_eq!(event.status, LaunchPadTokenStatus::Graduated);
    assert_eq!(token.graduated_at, NOW + 60);
    // a second graduation call fails
    let err = begin_graduation(&config, &token).unwrap_err();
    assert_eq!(err, LaunchPadErrorCode::LaunchPadTokenAlreadyGraduated);
    let err = token.graduate(NOW + 90).unwrap_err();
    assert_eq!(err, LaunchPadErrorCode::LaunchPadTokenAlreadyGraduated);
}

#[test]
fn pool_order_puts_the_smaller_identity_first() {
    let asset_side = PoolSeed { mint: key(9), amount: 700 };
    let token_side = PoolSeed { mint: key(3), amount: 40 };
    let (first, second) = canonical_pool_order(asset_side, token_side);
    assert_eq!(first, token_side);
    assert_eq!(second, asset_side);

    let asset_side = PoolSeed { mint: key(2), amount: 700 };
    let token_side = PoolSeed { mint: key(5), amount: 40 };
    let (first, second) = canonical_pool_order(asset_side, token_side);
    assert_eq!(first, asset_side);
    assert_eq!(second, token_side);
}

#[test]
fn pool_order_keeps_equal_identities_in_place() {
    let asset_side = PoolSeed { mint: key(4), amount: 700 };
    let token_side = PoolSeed { mint: key(4), amount: 40 };
    let (first, second) = canonical_pool_order(asset_side, token_side);
    assert_eq!(first, asset_side);
    assert_eq!(second, token_side);
}

#[test]
fn key_order_is_lexicographic() {
    let mut low = [0u8; 32];
    low[31] = 1;
    let mut high = [0u8; 32];
    high[0] = 1;
    let low = Pubkey { bytes: low };
    let high = Pubkey { bytes: high };
    assert!(low.lt(&high));
    assert!(!high.lt(&low));
    assert!(!low.lt(&low));
    assert!(Pubkey::default().is_default());
    assert!(!low.is_default());
}
