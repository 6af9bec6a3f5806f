use colour_models::percentage_f32::{PercentageF32, UNIT};

fn part(of: u32) -> PercentageF32 {
    PercentageF32::try_new(of).unwrap()
}

#[test]
fn unit_is_two_to_the_24() {
    assert_eq!(UNIT, 1 << 24);
}

#[test]
fn try_new_accepts_zero_to_one() {
    assert_eq!(PercentageF32::try_new(0).unwrap().value(), 0);
    assert_eq!(PercentageF32::try_new(1).unwrap().value(), 1);
    assert_eq!(PercentageF32::try_new(UNIT / 2).unwrap().value(), 8_388_608);
    assert_eq!(PercentageF32::try_new(UNIT).unwrap().value(), UNIT);
}

#[test]
fn try_new_rejects_more_than_one() {
    assert!(PercentageF32::try_new(UNIT + 1).is_none());
    assert!(PercentageF32::try_new(2 * UNIT).is_none());
    assert!(PercentageF32::try_new(u32::MAX).is_none());
}

#[test]
fn new_or_panic_keeps_the_count() {
    assert_eq!(PercentageF32::new_or_panic(0).value(), 0);
    assert_eq!(PercentageF32::new_or_panic(12_345).value(), 12_345);
    assert_eq!(PercentageF32::new_or_panic(UNIT).value(), UNIT);
}

#[test]
fn add_is_the_sum_while_it_fits() {
    assert_eq!((part(100) + part(23)).unwrap().value(), 123);
    assert_eq!((part(UNIT / 2) + part(UNIT / 2)).unwrap().value(), UNIT);
    assert_eq!((part(0) + part(0)).unwrap().value(), 0);
    assert_eq!((part(UNIT) + part(0)).unwrap().value(), UNIT);
}

#[test]
fn add_fails_past_one() {
    assert!((part(UNIT) + part(1)).is_none());
    assert!((part(UNIT / 2 + 1) + part(UNIT / 2)).is_none());
    assert!((part(UNIT) + part(UNIT)).is_none());
}

#[test]
fn sub_is_the_difference_while_it_fits() {
    assert_eq!((part(123) - part(23)).unwrap().value(), 100);
    assert_eq!((part(UNIT) - part(UNIT)).unwrap().value(), 0);
    assert_eq!((part(UNIT) - part(0)).unwrap().value(), UNIT);
    assert_eq!((part(5) - part(5)).unwrap().value(), 0);
}

#[test]
fn sub_fails_below_zero() {
    assert!((part(0) - part(1)).is_none());
    assert!((part(UNIT / 2) - part(UNIT / 2 + 1)).is_none());
    assert!((part(0) - part(UNIT)).is_none());
}

#[test]
fn try_from_hands_back_what_it_rejects() {
    assert_eq!(PercentageF32::try_from(77).unwrap().value(), 77);
    assert_eq!(PercentageF32::try_from(UNIT).unwrap().value(), UNIT);
    assert_eq!(PercentageF32::try_from(UNIT + 1).unwrap_err(), UNIT + 1);
    assert_eq!(PercentageF32::try_from(u32::MAX).unwrap_err(), u32::MAX);
}

#[test]
fn converts_into_u32() {
    assert_eq!(u32::from(part(4_194_304)), 4_194_304);
    let raw: u32 = part(UNIT).into();
    assert_eq!(raw, UNIT);
}

#[test]
fn every_value_is_a_single_precision_number() {
    for steps in [0u32, 1, 2, 3, 8_388_607, 8_388_608, 8_388_609, UNIT - 1, UNIT] {
        let real = part(steps).value() as f32 / UNIT as f32;
        assert!((0.0..=1.0).contains(&real));
        assert_eq!((real * UNIT as f32) as u32, steps);
        assert_eq!(f64::from(real), f64::from(steps) / f64::from(UNIT));
    }
}
