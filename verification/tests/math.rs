use fomo3d::error::GameError;
use fomo3d::math::common::{
    checked_root, search_root, TryAdd, TryCast, TryDiv, TryMul, TryPow, TryRem, TrySqrt, TrySub,
};

#[test]
fn test_u128_to_u64() {
    let big = (u64::MAX) as u128;
    let small = big.try_cast();
    assert!(small.is_ok());
    assert_eq!(small.unwrap(), u64::MAX);

    let too_big = ((u64::MAX) as u128) + 1;
    let small = too_big.try_cast();
    assert!(small.is_err());
}

#[test]
fn test_floor_div() {
    //the easy (no remainder) case
    let x = 10_u128;
    let y = 5;
    let r = x.try_floor_div(y).unwrap();
    assert_eq!(r, 2);

    //<.5 case (2.2)
    let x = 11_u128;
    let y = 5;
    let r = x.try_floor_div(y).unwrap();
    assert_eq!(r, 2);

    //>.5 case (2.8)
    let x = 14_u128;
    let y = 5;
    let r = x.try_floor_div(y).unwrap();
    assert_eq!(r, 2);

    //.5 case
    let x = 5_u128;
    let y = 2;
    let r = x.try_floor_div(y).unwrap();
    assert_eq!(r, 2);
}

#[test]
fn test_ceil_div() {
    //the easy (no remainder) case
    let x = 10_u128;
    let y = 5;
    let r = x.try_ceil_div(y).unwrap();
    assert_eq!(r, 2);

    //<.5 case (2.2)
    let x = 11_u128;
    let y = 5;
    let r = x.try_ceil_div(y).unwrap();
    assert_eq!(r, 3);

    //>.5 case (2.8)
    let x = 14_u128;
    let y = 5;
    let r = x.try_ceil_div(y).unwrap();
    assert_eq!(r, 3);

    //.5 case
    let x = 5_u128;
    let y = 2;
    let r = x.try_ceil_div(y).unwrap();
    assert_eq!(r, 3);
}

#[test]
fn ceil_div_agrees_with_floor_div_and_remainder() {
    for a in 0u128..200 {
        for b in 1u128..20 {
            let floor = a.try_floor_div(b).unwrap();
            let rem = a.try_rem(b).unwrap();
            let ceil = a.try_ceil_div(b).unwrap();
            assert_eq!(ceil, (a + b - 1) / b);
            assert_eq!(ceil, floor + if rem > 0 { 1 } else { 0 });
        }
    }
    assert_eq!(u128::MAX.try_ceil_div(2), Ok(1u128 << 127));
    assert_eq!(u128::MAX.try_ceil_div(u128::MAX), Ok(1));
    assert_eq!(0u128.try_ceil_div(7), Ok(0));
}

#[test]
fn division_by_zero_is_a_calculation_failure() {
    assert_eq!(7u128.try_floor_div(0), Err(GameError::CalculationFailure));
    assert_eq!(7u128.try_ceil_div(0), Err(GameError::CalculationFailure));
    assert_eq!(7u128.try_rem(0), Err(GameError::CalculationFailure));
}

#[test]
fn add_sub_mul_report_overflow() {
    assert_eq!(2u128.try_add(3), Ok(5));
    assert_eq!(u128::MAX.try_add(1), Err(GameError::CalculationFailure));
    assert_eq!(u128::MAX.try_add(0), Ok(u128::MAX));
    assert_eq!(5u128.try_sub(3), Ok(2));
    assert_eq!(3u128.try_sub(5), Err(GameError::CalculationFailure));
    assert_eq!(3u128.try_sub(3), Ok(0));
    assert_eq!(6u128.try_mul(7), Ok(42));
    assert_eq!((1u128 << 64).try_mul(1u128 << 64), Err(GameError::CalculationFailure));
    assert_eq!((1u128 << 64).try_mul((1u128 << 64) - 1), Ok(u128::MAX - (1u128 << 64) + 1));
    assert_eq!(17u128.try_rem(5), Ok(2));
}

#[test]
fn pow_matches_repeated_multiplication() {
    assert_eq!(2u128.try_pow(10), Ok(1024));
    assert_eq!(10u128.try_pow(18), Ok(1_000_000_000_000_000_000));
    assert_eq!(0u128.try_pow(0), Ok(1));
    assert_eq!(0u128.try_pow(5), Ok(0));
    assert_eq!(1u128.try_pow(u32::MAX), Ok(1));
    assert_eq!(7u128.try_pow(1), Ok(7));
    assert_eq!(2u128.try_pow(127), Ok(1u128 << 127));
    assert_eq!(2u128.try_pow(128), Err(GameError::CalculationFailure));
    assert_eq!(3u128.try_pow(u32::MAX), Err(GameError::CalculationFailure));
    for base in 0u128..12 {
        for exp in 0u32..12 {
            assert_eq!(base.try_pow(exp), Ok(base.pow(exp)));
        }
    }
}

#[test]
fn sqrt_rounds_down() {
    assert_eq!(0u128.try_sqrt(), Ok(0));
    assert_eq!(1u128.try_sqrt(), Ok(1));
    assert_eq!(15u128.try_sqrt(), Ok(3));
    assert_eq!(16u128.try_sqrt(), Ok(4));
    assert_eq!(17u128.try_sqrt(), Ok(4));
    assert_eq!(23_039_952_000_025u128.try_sqrt(), Ok(4_799_995));
    assert_eq!(u128::MAX.try_sqrt(), Ok(u64::MAX as u128));
    for x in 0u128..2000 {
        let r = x.try_sqrt().unwrap();
        assert!(r * r <= x && x < (r + 1) * (r + 1));
    }
}

#[test]
fn search_root_finds_the_floor_root() {
    assert_eq!(search_root(0), 0);
    assert_eq!(search_root(1), 1);
    assert_eq!(search_root(3), 1);
    assert_eq!(search_root(4), 2);
    assert_eq!(search_root(99), 9);
    assert_eq!(search_root(23_039_952_000_025), 4_799_995);
    assert_eq!(search_root(23_039_952_000_024), 4_799_994);
    assert_eq!(search_root(u128::MAX), u64::MAX as u128);
    assert_eq!(search_root((u64::MAX as u128) * (u64::MAX as u128)), u64::MAX as u128);
    assert_eq!(search_root((u64::MAX as u128) * (u64::MAX as u128) - 1), u64::MAX as u128 - 1);
    let mut x = 1u128;
    while x < u128::MAX / 7 {
        assert_eq!(Ok(search_root(x)), x.try_sqrt());
        x = x * 7 + 3;
    }
}

#[test]
fn checked_root_accepts_only_the_floor_root() {
    assert_eq!(checked_root(16, Some(4)), Ok(4));
    assert_eq!(checked_root(24, Some(4)), Ok(4));
    assert_eq!(checked_root(25, Some(4)), Err(GameError::CalculationFailure));
    assert_eq!(checked_root(15, Some(4)), Err(GameError::CalculationFailure));
    assert_eq!(checked_root(16, Some(16)), Err(GameError::CalculationFailure));
    assert_eq!(checked_root(16, None), Err(GameError::CalculationFailure));
    assert_eq!(checked_root(0, Some(0)), Ok(0));
    assert_eq!(checked_root(u128::MAX, Some(u64::MAX as u128)), Ok(u64::MAX as u128));
    assert_eq!(
        checked_root(u128::MAX, Some(u64::MAX as u128 + 1)),
        Err(GameError::CalculationFailure)
    );
    assert_eq!(checked_root(u128::MAX, Some(u128::MAX)), Err(GameError::CalculationFailure));
}

#[test]
fn error_codes_and_messages() {
    assert_eq!(GameError::CalculationFailure.code(), 0);
    assert_eq!(GameError::ConversionFailure.code(), 1);
    assert_eq!(GameError::BelowFloor.code(), 3);
    assert_eq!(GameError::AlreadyEnded.code(), 14);
    assert_eq!(GameError::InvariantViolation.code(), 15);
    for code in 0u32..16 {
        let e = GameError::from_code(code).unwrap();
        assert_eq!(e.code(), code);
        assert!(!e.message().is_empty());
    }
    assert_eq!(GameError::from_code(16), None);
    assert_eq!(GameError::from_code(u32::MAX), None);
    assert_eq!(
        GameError::CalculationFailure.message(),
        "General calculation failure due to overflow or underflow"
    );
    assert_eq!(GameError::NotYetEnded.message(), "Previous round hasn't yet ended");
}
