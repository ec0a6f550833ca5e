use fomo3d::error::GameError;
use fomo3d::math::curve::{keys_for_pot, keys_from_root, keys_received};

const SOL: u128 = 1_000_000_000;

fn cost(keys: u128) -> u128 {
    5 * keys * keys + 4_799_995 * keys
}

#[test]
fn first_key_costs_75000() {
    assert_eq!(keys_received(0, 0), Ok(0));
    assert_eq!(keys_received(0, 1), Ok(0));
    assert_eq!(keys_received(0, 74_999), Ok(0));
    assert_eq!(keys_received(0, 75_000), Ok(1));
    assert_eq!(keys_received(0, 149_999), Ok(1));
    // two keys cost (20 + 9_599_990) / 64 = 150_000.15..
    assert_eq!(keys_received(0, 150_000), Ok(1));
    assert_eq!(keys_received(0, 150_001), Ok(2));
}

#[test]
fn a_million_buys_thirteen_keys() {
    assert_eq!(keys_received(0, 1_000_000), Ok(13));
    assert_eq!(keys_for_pot(1_000_000), Ok(13));
    assert_eq!(keys_for_pot(0), Ok(0));
}

#[test]
fn keys_are_what_the_pot_pays_for() {
    let pots = [
        0u128,
        1,
        74_999,
        75_000,
        SOL,
        100 * SOL,
        12_345_678_901_234,
        10_000_000_000 * SOL,
        u64::MAX as u128,
    ];
    for pot in pots {
        let keys = keys_for_pot(pot).unwrap();
        assert!(cost(keys) <= 64 * pot);
        assert!(64 * pot < cost(keys + 1));
    }
}

#[test]
fn more_money_never_buys_fewer_keys() {
    let pots = [0u128, 75_000, SOL, 100 * SOL, 1_000_000 * SOL];
    for pot in pots {
        let mut last = 0u128;
        let mut amount = 0u128;
        while amount < 5 * SOL {
            let keys = keys_received(pot, amount).unwrap();
            assert!(keys >= last);
            last = keys;
            amount += 37_123_457;
        }
    }
}

#[test]
fn keys_get_dearer_as_the_pot_grows() {
    let early = keys_received(0, SOL).unwrap();
    let later = keys_received(1_000 * SOL, SOL).unwrap();
    let late = keys_received(10_000_000_000 * SOL, SOL).unwrap();
    assert!(early > later);
    assert!(later > late);
    // at ten billion units in the pot a key costs about 1.77 units
    assert!(late <= 1);
    assert!(keys_received(10_000_000_000 * SOL, 2 * SOL).unwrap() >= 1);
    assert_eq!(keys_received(10_000_000_000 * SOL, 177 * SOL), Ok(100));
}

#[test]
fn buying_in_two_steps_gives_the_same_keys() {
    let pot = 123 * SOL + 456;
    let first = 7 * SOL + 1;
    let second = 3 * SOL + 999;
    let a = keys_received(pot, first).unwrap();
    let b = keys_received(pot + first, second).unwrap();
    assert_eq!(keys_received(pot, first + second), Ok(a + b));
}

#[test]
fn curve_reports_overflow() {
    assert_eq!(keys_received(u128::MAX, 1), Err(GameError::CalculationFailure));
    assert_eq!(keys_received(u128::MAX / 1280 + 1, 0), Err(GameError::CalculationFailure));
    assert_eq!(keys_for_pot(u128::MAX / 1280 + 1), Err(GameError::CalculationFailure));
    assert_eq!(keys_received(0, u128::MAX / 1280), Err(GameError::CalculationFailure));
    let top = (u128::MAX - 23_039_952_000_025) / 1280;
    assert!(keys_for_pot(top).is_ok());
    assert!(keys_received(0, top).is_ok());
    assert_eq!(keys_for_pot(top + 1), Err(GameError::CalculationFailure));
}

#[test]
fn keys_from_root_reads_the_keys_off_the_root() {
    assert_eq!(keys_from_root(0, 4_799_995), 0);
    // 1280 * 75_000 + 4_799_995^2 = 4_800_005^2
    assert_eq!(keys_from_root(75_000, 4_800_005), 1);
    assert_eq!(keys_from_root(74_999, 4_800_004), 0);
}
