use launchpad_fun::config::LaunchPadConfig;
use launchpad_fun::errors::LaunchPadErrorCode;
use launchpad_fun::keys::Pubkey;
use launchpad_fun::statuses::ProtocolStatus;

const NOW: i64 = 1_700_000_000;

fn key(tag: u8) -> Pubkey {
    let mut bytes = [0u8; 32];
    bytes[0] = tag;
    Pubkey { bytes }
}

fn active_config() -> LaunchPadConfig {
    let mut config = LaunchPadConfig::new();
    config
        .initialize(key(1), 7, NOW as u64 + 3600, 2_000_000_000, 10_000, 10_000, 254, 253, NOW)
        .unwrap();
    config
}

#[test]
fn initialize_sets_every_field_and_activates() {
    let mut config = LaunchPadConfig::new();
    let event = config
        .initialize(key(1), 7, NOW as u64 + 3600, 2_000_000_000, 10_000, 9_000, 254, 253, NOW)
        .unwrap();
    assert_eq!(config.status, ProtocolStatus::Active);
    assert_eq!(config.authority, key(1));
    assert_eq!(config.asset_rate, 7);
    assert_eq!(config.creator_sell_delay, NOW as u64 + 3600);
    assert_eq!(config.graduate_threshold, 2_000_000_000);
    assert_eq!(config.protocol_buy_fee, 10_000);
    assert_eq!(config.protocol_sell_fee, 9_000);
    assert_eq!(config.bump, 254);
    assert_eq!(config.vault_bump, 253);
    assert_eq!(event.authority, key(1));
    assert_eq!(event.status, ProtocolStatus::Active);
    assert_eq!(event.timestamp, NOW);
}

#[test]
fn initialize_twice_fails() {
    let mut config = active_config();
    let err = config
        .initialize(key(1), 7, NOW as u64 + 3600, 2_000_000_000, 10_000, 10_000, 254, 253, NOW)
        .unwrap_err();
    assert_eq!(err, LaunchPadErrorCode::ProtocolConfigInitialized);
    assert_eq!(config.status, ProtocolStatus::Active);
}

#[test]
fn initialize_rejects_null_authority() {
    let mut config = LaunchPadConfig::new();
    let err = config
        .initialize(
            Pubkey { bytes: [0u8; 32] },
            7,
            NOW as u64 + 3600,
            2_000_000_000,
            10_000,
            10_000,
            254,
            253,
            NOW,
        )
        .unwrap_err();
    assert_eq!(err, LaunchPadErrorCode::InvalidAuthority);
}

#[test]
fn initialize_rejects_short_sell_delay() {
    let mut config = LaunchPadConfig::new();
    let err = config
        .initialize(key(1), 7, NOW as u64 + 1, 2_000_000_000, 10_000, 10_000, 254, 253, NOW)
        .unwrap_err();
    assert_eq!(err, LaunchPadErrorCode::CreatorSellDelayNotMet);
}

#[test]
fn initialize_rejects_minimum_asset_rate() {
    let mut config = LaunchPadConfig::new();
    let err = config
        .initialize(key(1), 1, NOW as u64 + 3600, 2_000_000_000, 10_000, 10_000, 254, 253, NOW)
        .unwrap_err();
    assert_eq!(err, LaunchPadErrorCode::AssetRateMustBeGreaterThanZero);
}

#[test]
fn initialize_rejects_minimum_graduate_threshold() {
    let mut config = LaunchPadConfig::new();
    let err = config
        .initialize(key(1), 7, NOW as u64 + 3600, 1, 10_000, 10_000, 254, 253, NOW)
        .unwrap_err();
    assert_eq!(err, LaunchPadErrorCode::GraduateThresholdNotMet);
}

#[test]
fn initialize_rejects_fee_above_maximum() {
    let mut config = LaunchPadConfig::new();
    let err = config
        .initialize(key(1), 7, NOW as u64 + 3600, 2_000_000_000, 10_001, 10_000, 254, 253, NOW)
        .unwrap_err();
    assert_eq!(err, LaunchPadErrorCode::ProtocolFeeExceedsMaximum);
    let err = config
        .initialize(key(1), 7, NOW as u64 + 3600, 2_000_000_000, 10_000, 10_001, 254, 253, NOW)
        .unwrap_err();
    assert_eq!(err, LaunchPadErrorCode::ProtocolFeeExceedsMaximum);
}

#[test]
fn initialize_rejects_fee_below_minimum() {
    let mut config = LaunchPadConfig::new();
    let err = config
        .initialize(key(1), 7, NOW as u64 + 3600, 2_000_000_000, 4_999, 10_000, 254, 253, NOW)
        .unwrap_err();
    assert_eq!(err, LaunchPadErrorCode::ProtocolFeeMinimumNotMet);
    let err = config
        .initialize(key(1), 7, NOW as u64 + 3600, 2_000_000_000, 10_000, 4_999, 254, 253, NOW)
        .unwrap_err();
    assert_eq!(err, LaunchPadErrorCode::ProtocolFeeMinimumNotMet);
}

#[test]
fn pause_and_unpause_flip_status() {
    let mut config = active_config();
    let paused = config.pause(NOW + 5).unwrap();
    assert_eq!(paused.timestamp, NOW + 5);
    assert_eq!(config.status, ProtocolStatus::Paused);
    let unpaused = config.unpause(NOW + 9).unwrap();
    assert_eq!(unpaused.timestamp, NOW + 9);
    assert_eq!(config.status, ProtocolStatus::Active);
}

#[test]
fn pause_twice_fails() {
    let mut config = active_config();
    config.pause(NOW).unwrap();
    let err = config.pause(NOW).unwrap_err();
    assert_eq!(err, LaunchPadErrorCode::ProtocolAlreadyPaused);
    assert_eq!(config.status, ProtocolStatus::Paused);
}

#[test]
fn unpause_active_fails() {
    let mut config = active_config();
    let err = config.unpause(NOW).unwrap_err();
    assert_eq!(err, LaunchPadErrorCode::ProtocolNotPaused);
    assert_eq!(config.status, ProtocolStatus::Active);
}

#[test]
fn fees_are_parts_per_million_floored() {
    let config = active_config();
    // 10_000 parts per million of 1_000_000_000 is 10_000_000 (one percent)
    assert_eq!(config.calculate_buy_fee(1_000_000_000).unwrap(), 10_000_000);
    assert_eq!(config.calculate_sell_fee(1_000_000_000).unwrap(), 10_000_000);
    // floor: 99 * 10_000 / 1_000_000 = 0
    assert_eq!(config.calculate_buy_fee(99).unwrap(), 0);
    assert_eq!(config.calculate_buy_fee(150).unwrap(), 1);
}
