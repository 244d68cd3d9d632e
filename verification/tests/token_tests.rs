use launchpad_fun::errors::LaunchPadErrorCode;
use launchpad_fun::keys::Pubkey;
use launchpad_fun::statuses::LaunchPadTokenStatus;
use launchpad_fun::token::LaunchPadToken;

const NOW: i64 = 1_700_000_000;

fn key(tag: u8) -> Pubkey {
    let mut bytes = [0u8; 32];
    bytes[0] = tag;
    Pubkey { bytes }
}

#[test]
fn create_fixes_current_k_as_the_reserve_product() {
    let mut token = LaunchPadToken::new();
    let event = token.create(key(2), key(3), 1_000, 500, 255, 254, NOW).unwrap();
    assert_eq!(token.status, LaunchPadTokenStatus::TradingEnabled);
    assert_eq!(token.creator, key(2));
    assert_eq!(token.mint, key(3));
    assert_eq!(token.virtual_token_amount, 1_000);
    assert_eq!(token.virtual_asset_amount, 500);
    assert_eq!(token.current_k, 500_000);
    assert_eq!(token.virtual_graduation_amount, 0);
    assert_eq!(token.created_at, NOW);
    assert_eq!(event.creator, key(2));
    assert_eq!(event.mint, key(3));
    assert_eq!(event.status, LaunchPadTokenStatus::TradingEnabled);
    assert_eq!(event.timestamp, NOW);
}

#[test]
fn create_twice_fails() {
    let mut token = LaunchPadToken::new();
    token.create(key(2), key(3), 1_000, 500, 255, 254, NOW).unwrap();
    let err = token.create(key(2), key(3), 1_000, 500, 255, 254, NOW).unwrap_err();
    assert_eq!(err, LaunchPadErrorCode::LaunchPadTokenAlreadyCreated);
}

#[test]
fn create_rejects_null_creator() {
    let mut token = LaunchPadToken::new();
    let err = token
        .create(Pubkey { bytes: [0u8; 32] }, key(3), 1_000, 500, 255, 254, NOW)
        .unwrap_err();
    assert_eq!(err, LaunchPadErrorCode::InvalidCreator);
    assert_eq!(token.status, LaunchPadTokenStatus::Unknown);
}

#[test]
fn create_rejects_null_mint() {
    let mut token = LaunchPadToken::new();
    let err = token
        .create(key(2), Pubkey { bytes: [0u8; 32] }, 1_000, 500, 255, 254, NOW)
        .unwrap_err();
    assert_eq!(err, LaunchPadErrorCode::InvalidMint);
}

#[test]
fn graduate_requires_ready_status() {
    let mut token = LaunchPadToken::new();
    token.create(key(2), key(3), 1_000, 500, 255, 254, NOW).unwrap();
    // still trading: the terminal transition is refused
    let err = token.graduate(NOW + 10).unwrap_err();
    assert_eq!(err, LaunchPadErrorCode::LaunchPadTokenAlreadyGraduated);
    assert_eq!(token.status, LaunchPadTokenStatus::TradingEnabled);
}

#[test]
fn graduate_is_terminal() {
    let mut token = LaunchPadToken::new();
    token.create(key(2), key(3), 1_000, 500, 255, 254, NOW).unwrap();
    token.status = LaunchPadTokenStatus::ReadyToGraduate;
    let event = token.graduate(NOW + 10).unwrap();
    assert_eq!(token.status, LaunchPadTokenStatus::Graduated);
    assert_eq!(token.graduated_at, NOW + 10);
    assert_eq!(event.mint, key(3));
    assert_eq!(event.status, LaunchPadTokenStatus::Graduated);
    assert_eq!(event.timestamp, NOW + 10);
    // a second graduation fails and changes nothing
    let err = token.graduate(NOW + 20).unwrap_err();
    assert_eq!(err, LaunchPadErrorCode::LaunchPadTokenAlreadyGraduated);
    assert_eq!(token.graduated_at, NOW + 10);
}
