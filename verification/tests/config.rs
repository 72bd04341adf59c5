use x402_facilitator::{
    initialize, update_config, ErrorCode, FacilitatorConfig, Initialize, Pubkey, UpdateConfig,
};

fn key(n: u8) -> Pubkey {
    Pubkey { bytes: [n; 32] }
}

fn rates_and_treasury(config: &FacilitatorConfig) -> (u64, u64, Pubkey) {
    (config.fee_bps(), config.tithe_bps(), config.impact_treasury())
}

fn update(
    caller: u8,
    config: &mut FacilitatorConfig,
    fee_bps: Option<u64>,
    tithe_bps: Option<u64>,
    treasury: Option<Pubkey>,
) -> Result<(), ErrorCode> {
    update_config(&UpdateConfig { authority: key(caller) }, config, fee_bps, tithe_bps, treasury)
}

fn configured(fee_bps: u64, tithe_bps: u64) -> FacilitatorConfig {
    let mut slot = None;
    initialize(&Initialize { authority: key(1), bump: 254 }, &mut slot, key(2), fee_bps, tithe_bps)
        .unwrap();
    slot.unwrap()
}

#[test]
fn pubkeys_are_equal_when_their_bytes_are() {
    let mut bytes = [7u8; 32];
    assert_eq!(Pubkey { bytes }, key(7));
    bytes[31] = 8;
    assert_ne!(Pubkey { bytes }, key(7));
    bytes[31] = 7;
    bytes[0] = 0;
    assert_ne!(Pubkey { bytes }, key(7));
    assert_ne!(key(0), key(1));
}

#[test]
fn initialize_creates_the_configuration_with_totals_at_zero() {
    let mut slot = None;
    let r = initialize(&Initialize { authority: key(1), bump: 254 }, &mut slot, key(2), 250, 1000);
    assert_eq!(r, Ok(()));
    let config = slot.unwrap();
    assert_eq!(config.authority(), key(1));
    assert_eq!(config.impact_treasury(), key(2));
    assert_eq!(config.fee_bps(), 250);
    assert_eq!(config.tithe_bps(), 1000);
    assert_eq!(config.total_payments(), 0);
    assert_eq!(config.total_volume(), 0);
    assert_eq!(config.bump(), 254);
}

#[test]
fn initialize_accepts_rates_at_their_bounds() {
    let config = configured(500, 2000);
    assert_eq!(config.fee_bps(), 500);
    assert_eq!(config.tithe_bps(), 2000);
    let config = configured(0, 0);
    assert_eq!(config.fee_bps(), 0);
    assert_eq!(config.tithe_bps(), 0);
}

#[test]
fn initialize_rejects_rates_above_their_bounds() {
    let ctx = Initialize { authority: key(1), bump: 0 };
    let mut slot = None;
    assert_eq!(initialize(&ctx, &mut slot, key(2), 501, 1000), Err(ErrorCode::FeeTooHigh));
    assert_eq!(slot, None);
    assert_eq!(initialize(&ctx, &mut slot, key(2), 250, 2001), Err(ErrorCode::TitheTooHigh));
    assert_eq!(slot, None);
    assert_eq!(initialize(&ctx, &mut slot, key(2), 501, 2001), Err(ErrorCode::FeeTooHigh));
    assert_eq!(slot, None);
    assert_eq!(initialize(&ctx, &mut slot, key(2), u64::MAX, 0), Err(ErrorCode::FeeTooHigh));
    assert_eq!(initialize(&ctx, &mut slot, key(2), 0, u64::MAX), Err(ErrorCode::TitheTooHigh));
    assert_eq!(slot, None);
}

#[test]
fn initialize_fails_where_a_configuration_exists() {
    let mut slot = Some(configured(250, 1000));
    let before = slot;
    let ctx = Initialize { authority: key(9), bump: 3 };
    assert_eq!(initialize(&ctx, &mut slot, key(8), 100, 100), Err(ErrorCode::AlreadyInitialized));
    assert_eq!(slot, before);
    // the existing configuration is reported before the rates are looked at
    assert_eq!(initialize(&ctx, &mut slot, key(8), 501, 2001), Err(ErrorCode::AlreadyInitialized));
    assert_eq!(slot, before);
}

#[test]
fn update_config_changes_what_is_supplied() {
    let mut config = configured(250, 1000);
    assert_eq!(update(1, &mut config, Some(100), None, None), Ok(()));
    assert_eq!(rates_and_treasury(&config), (100, 1000, key(2)));
    assert_eq!(update(1, &mut config, None, Some(1500), None), Ok(()));
    assert_eq!(rates_and_treasury(&config), (100, 1500, key(2)));
    assert_eq!(update(1, &mut config, None, None, Some(key(5))), Ok(()));
    assert_eq!(rates_and_treasury(&config), (100, 1500, key(5)));
    assert_eq!(update(1, &mut config, Some(0), Some(0), Some(key(6))), Ok(()));
    assert_eq!(rates_and_treasury(&config), (0, 0, key(6)));
    assert_eq!(config.authority(), key(1));
    assert_eq!(config.bump(), 254);
    assert_eq!(config.total_payments(), 0);
    assert_eq!(config.total_volume(), 0);
}

#[test]
fn update_config_without_changes_keeps_the_configuration() {
    let mut config = configured(250, 1000);
    let before = config;
    assert_eq!(update(1, &mut config, None, None, None), Ok(()));
    assert_eq!(config, before);
}

#[test]
fn update_config_accepts_rates_at_their_bounds() {
    let mut config = configured(0, 0);
    let ctx = UpdateConfig { authority: key(1) };
    assert_eq!(update_config(&ctx, &mut config, Some(500), Some(2000), None), Ok(()));
    assert_eq!(config.fee_bps(), 500);
    assert_eq!(config.tithe_bps(), 2000);
}

#[test]
fn update_config_rejects_rates_above_their_bounds() {
    let mut config = configured(250, 1000);
    let before = config;
    assert_eq!(update(1, &mut config, Some(501), None, None), Err(ErrorCode::FeeTooHigh));
    assert_eq!(config, before);
    assert_eq!(update(1, &mut config, None, Some(2001), None), Err(ErrorCode::TitheTooHigh));
    assert_eq!(config, before);
    assert_eq!(
        update(1, &mut config, Some(501), Some(2001), Some(key(5))),
        Err(ErrorCode::FeeTooHigh)
    );
    assert_eq!(config, before);
}

#[test]
fn update_config_applies_nothing_when_one_rate_is_refused() {
    let mut config = configured(250, 1000);
    let before = config;
    let ctx = UpdateConfig { authority: key(1) };
    assert_eq!(
        update_config(&ctx, &mut config, Some(100), Some(2001), Some(key(5))),
        Err(ErrorCode::TitheTooHigh)
    );
    assert_eq!(config, before);
    assert_eq!(config.fee_bps(), 250);
    assert_eq!(config.impact_treasury(), key(2));
}

#[test]
fn update_config_by_another_identity_is_unauthorized() {
    let mut config = configured(250, 1000);
    let before = config;
    let stranger = UpdateConfig { authority: key(3) };
    assert_eq!(
        update_config(&stranger, &mut config, Some(100), Some(100), Some(key(3))),
        Err(ErrorCode::Unauthorized)
    );
    assert_eq!(config, before);
    assert_eq!(update(3, &mut config, None, None, None), Err(ErrorCode::Unauthorized));
    assert_eq!(config, before);
    // the caller is looked at before the rates
    assert_eq!(
        update_config(&stranger, &mut config, Some(501), Some(2001), None),
        Err(ErrorCode::Unauthorized)
    );
    assert_eq!(config, before);
    // the impact treasury is not the authority
    assert_eq!(update(2, &mut config, Some(1), None, None), Err(ErrorCode::Unauthorized));
    assert_eq!(config, before);
    // an identity that differs from the authority in its last byte only
    let mut bytes = [1u8; 32];
    bytes[31] = 2;
    let near = UpdateConfig { authority: Pubkey { bytes } };
    assert_eq!(
        update_config(&near, &mut config, Some(1), None, None),
        Err(ErrorCode::Unauthorized)
    );
    assert_eq!(config, before);
}

#[test]
fn a_configuration_is_restored_from_stored_values() {
    let config = FacilitatorConfig::new(key(1), key(2), 500, 2000, 12, 3_400, 255).unwrap();
    assert_eq!(config.authority(), key(1));
    assert_eq!(config.impact_treasury(), key(2));
    assert_eq!(config.fee_bps(), 500);
    assert_eq!(config.tithe_bps(), 2000);
    assert_eq!(config.total_payments(), 12);
    assert_eq!(config.total_volume(), 3_400);
    assert_eq!(config.bump(), 255);
    assert_eq!(
        FacilitatorConfig::new(key(1), key(2), 250, 1000, 0, 0, 254),
        Ok(configured(250, 1000))
    );
}

#[test]
fn a_configuration_is_not_restored_with_rates_above_their_bounds() {
    assert_eq!(
        FacilitatorConfig::new(key(1), key(2), 501, 2000, 0, 0, 0),
        Err(ErrorCode::FeeTooHigh)
    );
    assert_eq!(
        FacilitatorConfig::new(key(1), key(2), 500, 2001, 0, 0, 0),
        Err(ErrorCode::TitheTooHigh)
    );
    assert_eq!(
        FacilitatorConfig::new(key(1), key(2), 501, 2001, 0, 0, 0),
        Err(ErrorCode::FeeTooHigh)
    );
}

#[test]
fn every_error_has_its_message() {
    assert_eq!(ErrorCode::FeeTooHigh.message(), "Fee cannot exceed 5%");
    assert_eq!(ErrorCode::TitheTooHigh.message(), "Tithe cannot exceed 20%");
    assert_eq!(ErrorCode::InvalidAmount.message(), "Invalid payment amount");
    assert_eq!(ErrorCode::MathOverflow.message(), "Math overflow");
    assert_eq!(ErrorCode::AlreadySettled.message(), "Payment already settled");
    assert_eq!(ErrorCode::PaymentIdTooLong.message(), "Payment ID too long");
    assert_eq!(ErrorCode::Unauthorized.message(), "Caller is not the authority");
    assert_eq!(ErrorCode::AlreadyInitialized.message(), "Facilitator already initialized");
    assert_eq!(ErrorCode::TransferFailed.message(), "Transfer rejected by the ledger");
    assert_eq!(ErrorCode::ClockUnavailable.message(), "Ledger clock unavailable");
}
