use amm_interface::decimal::MAX_MANTISSA;
use amm_interface::decimal::MAX_SCALE;
use amm_interface::parse_value;
use amm_interface::try_get_account_data;
use amm_interface::try_get_account_data_and_owner;
use amm_interface::Account;
use amm_interface::AccountMap;
use amm_interface::AmmError;
use amm_interface::Clock;
use amm_interface::ClockRef;
use amm_interface::Decimal;
use amm_interface::Pubkey;
use amm_interface::SwapMode;

fn key(tag: u8) -> Pubkey {
    let mut bytes = [0u8; 32];
    bytes[0] = tag;
    Pubkey::new(bytes)
}

fn account(tag: u8) -> Account {
    Account {
        lamports: tag as u64,
        data: vec![tag, tag, tag],
        owner: key(tag.wrapping_add(1)),
        executable: false,
        rent_epoch: 2,
    }
}

#[test]
fn swap_mode_parses_the_exact_forms_only() {
    assert_eq!(SwapMode::from_str("ExactIn"), Ok(SwapMode::ExactIn));
    assert_eq!(SwapMode::from_str("ExactOut"), Ok(SwapMode::ExactOut));
    assert_eq!(
        SwapMode::from_str("exactin"),
        Err(AmmError::ParseFailure { input: "exactin".to_string() })
    );
    assert_eq!(
        SwapMode::from_str(""),
        Err(AmmError::ParseFailure { input: "".to_string() })
    );
}

#[test]
fn swap_mode_defaults_to_exact_in() {
    assert_eq!(SwapMode::default(), SwapMode::ExactIn);
}

#[test]
fn clock_snapshot_exposes_the_reading_and_updates_wholesale() {
    let mut clock_ref = ClockRef::from(Clock {
        slot: 10,
        epoch: 2,
        unix_timestamp: 1000,
        epoch_start_timestamp: 900,
        leader_schedule_epoch: 3,
    });
    assert_eq!(clock_ref.slot, 10);
    assert_eq!(clock_ref.epoch, 2);
    assert_eq!(clock_ref.unix_timestamp, 1000);
    assert_eq!(clock_ref.epoch_start_timestamp, 900);
    assert_eq!(clock_ref.leader_schedule_epoch, 3);
    clock_ref.update(Clock {
        slot: 11,
        epoch: 2,
        unix_timestamp: 1001,
        epoch_start_timestamp: 900,
        leader_schedule_epoch: 3,
    });
    assert_eq!(clock_ref.slot, 11);
    assert_eq!(clock_ref.unix_timestamp, 1001);
    assert_eq!(clock_ref.epoch, 2);
    assert_eq!(clock_ref.epoch_start_timestamp, 900);
    assert_eq!(clock_ref.leader_schedule_epoch, 3);
}

#[test]
fn clock_ref_defaults_to_zero() {
    let clock_ref = ClockRef::default();
    assert_eq!(clock_ref.slot, 0);
    assert_eq!(clock_ref.epoch, 0);
    assert_eq!(clock_ref.unix_timestamp, 0);
    assert_eq!(clock_ref.epoch_start_timestamp, 0);
    assert_eq!(clock_ref.leader_schedule_epoch, 0);
}

#[test]
fn absent_key_is_none_on_the_optional_form() {
    let mut map = AccountMap::new();
    map.insert(key(1), account(1));
    assert!(map.get(&key(2)).is_none());
    assert!(map.get(&key(1)).is_some());
}

#[test]
fn absent_key_is_a_not_found_error_naming_the_key() {
    let mut map = AccountMap::new();
    map.insert(key(1), account(1));
    let missing = key(9);
    match try_get_account_data(&map, &missing) {
        Err(AmmError::AccountNotFound { key }) => assert_eq!(key, missing),
        other => panic!("expected not-found, got {:?}", other),
    }
    match try_get_account_data_and_owner(&map, &missing) {
        Err(AmmError::AccountNotFound { key }) => assert_eq!(key, missing),
        other => panic!("expected not-found, got {:?}", other),
    }
}

#[test]
fn present_key_yields_data_and_owner() {
    let mut map = AccountMap::new();
    map.insert(key(1), account(1));
    map.insert(key(2), account(2));
    let data = try_get_account_data(&map, &key(2)).expect("present");
    assert_eq!(data.to_vec(), vec![2, 2, 2]);
    let (data, owner) = try_get_account_data_and_owner(&map, &key(1)).expect("present");
    assert_eq!(data.to_vec(), vec![1, 1, 1]);
    assert_eq!(*owner, key(2));
}

#[test]
fn inserting_twice_replaces_the_binding() {
    let mut map = AccountMap::new();
    map.insert(key(1), account(1));
    map.insert(key(1), account(3));
    let data = try_get_account_data(&map, &key(1)).expect("present");
    assert_eq!(data.to_vec(), vec![3, 3, 3]);
}

#[test]
fn decimal_fractions_are_detected_exactly() {
    let half = Decimal::new(5, 1).expect("within limits");
    assert!(half.proper_fraction());
    let one = Decimal::new(10, 1).expect("within limits");
    assert!(!one.proper_fraction());
    let just_below_one = Decimal::new(9999, 4).expect("within limits");
    assert!(just_below_one.proper_fraction());
    assert!(Decimal::zero().proper_fraction());
}

#[test]
fn decimal_rejects_representations_outside_the_limits() {
    assert!(Decimal::new(MAX_MANTISSA, 0).is_none());
    assert!(Decimal::new(MAX_MANTISSA - 1, 0).is_some());
    assert!(Decimal::new(0, MAX_SCALE + 1).is_none());
    assert!(Decimal::new(0, MAX_SCALE).is_some());
}

#[test]
fn parse_value_round_trips_canonical_keys() {
    let parsed = parse_value("EPjFWdd5AufqSSqeM2qN1xzybapC8G4wEGGkZwyTDt1v").expect("parses");
    assert_eq!(
        parsed.to_base58(),
        "EPjFWdd5AufqSSqeM2qN1xzybapC8G4wEGGkZwyTDt1v"
    );
    assert_eq!(
        Pubkey::default().to_base58(),
        "11111111111111111111111111111111"
    );
}

#[test]
fn parse_value_rejects_malformed_keys() {
    match parse_value("not a key at all") {
        Err(AmmError::ParseFailure { input }) => assert_eq!(input, "not a key at all"),
        other => panic!("expected a parse failure, got {:?}", other),
    }
    assert!(parse_value("").is_err());
}

#[test]
fn error_descriptions_name_the_kind() {
    let missing = key(1);
    assert_eq!(
        AmmError::AccountNotFound { key: missing }.describe(),
        "could not find address"
    );
    assert_eq!(
        AmmError::UnsupportedSwapMode.describe(),
        "swap mode is not supported by this venue"
    );
}
