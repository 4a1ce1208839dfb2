use hyperplane::configs::PoolConfigValue;
use hyperplane::state::{UpdatePoolConfigMode, UpdatePoolConfigValue};

#[test]
pub fn test_new_market_config_bool() {
    let config_val =
        PoolConfigValue::new_from_str(UpdatePoolConfigMode::WithdrawalsOnly, "true".to_string());
    assert_eq!(config_val, PoolConfigValue::WithdrawalsOnly(true));
}

#[test]
fn new_market_config_false() {
    let config_val =
        PoolConfigValue::new_from_str(UpdatePoolConfigMode::WithdrawalsOnly, "false".to_string());
    assert_eq!(config_val, PoolConfigValue::WithdrawalsOnly(false));
}

#[test]
fn config_value_from_mode_and_value() {
    let config_val = PoolConfigValue::new(
        UpdatePoolConfigMode::WithdrawalsOnly,
        UpdatePoolConfigValue::Bool(true),
    );
    assert_eq!(config_val, PoolConfigValue::WithdrawalsOnly(true));
    assert_eq!(
        config_val.to_update(),
        (UpdatePoolConfigMode::WithdrawalsOnly, UpdatePoolConfigValue::Bool(true))
    );
}

#[test]
fn config_value_bytes_round_trip() {
    for flag in [false, true] {
        let bytes = UpdatePoolConfigValue::Bool(flag).to_bytes();
        assert_eq!(bytes[0], flag as u8);
        assert!(bytes[1..].iter().all(|b| *b == 0));
        assert_eq!(
            UpdatePoolConfigValue::from_bool_bytes(&bytes),
            Ok(UpdatePoolConfigValue::Bool(flag))
        );
        assert_eq!(UpdatePoolConfigValue::Bool(flag).to_u64(), flag as u64);
    }
}

#[test]
fn config_value_rejects_other_bytes() {
    let mut bytes = [0u8; 32];
    bytes[0] = 2;
    assert_eq!(
        UpdatePoolConfigValue::from_bool_bytes(&bytes),
        Err(hyperplane::error::SwapError::InvalidInput)
    );
}

#[test]
#[should_panic]
pub fn test_new_market_config_unparseable_bool() {
    // a pubkey string instead of a bool
    PoolConfigValue::try_new_from_str(
        UpdatePoolConfigMode::WithdrawalsOnly,
        "4uQeVj5tqViQh7yWWGStvkEG1Zmhx6uasJtWCJziofM".to_string(),
    )
    .unwrap();
}

#[test]
fn try_new_market_config_reads_flags() {
    assert_eq!(
        PoolConfigValue::try_new_from_str(UpdatePoolConfigMode::WithdrawalsOnly, "false".to_string()),
        Some(PoolConfigValue::WithdrawalsOnly(false))
    );
    assert_eq!(
        PoolConfigValue::try_new_from_str(UpdatePoolConfigMode::WithdrawalsOnly, "True".to_string()),
        None
    );
}
