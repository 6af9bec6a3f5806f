use colour_models::circle_degrees::CircleDegrees;

fn degrees(of: i16) -> CircleDegrees {
    CircleDegrees::new_exact(of).unwrap()
}

#[test]
fn new_exact_accepts_the_whole_circle() {
    assert_eq!(CircleDegrees::new_exact(0).unwrap().value(), 0);
    assert_eq!(CircleDegrees::new_exact(1).unwrap().value(), 1);
    assert_eq!(CircleDegrees::new_exact(293).unwrap().value(), 293);
    assert_eq!(CircleDegrees::new_exact(359).unwrap().value(), 359);
}

#[test]
fn new_exact_rejects_what_is_off_the_circle() {
    assert!(CircleDegrees::new_exact(360).is_none());
    assert!(CircleDegrees::new_exact(-1).is_none());
    assert!(CircleDegrees::new_exact(i16::MAX).is_none());
    assert!(CircleDegrees::new_exact(i16::MIN).is_none());
}

#[test]
fn new_wrapped_keeps_angles_on_the_circle() {
    assert_eq!(CircleDegrees::new_wrapped(0).value(), 0);
    assert_eq!(CircleDegrees::new_wrapped(359).value(), 359);
    assert_eq!(CircleDegrees::new_wrapped(360).value(), 0);
    assert_eq!(CircleDegrees::new_wrapped(361).value(), 1);
    assert_eq!(CircleDegrees::new_wrapped(725).value(), 5);
    assert_eq!(CircleDegrees::new_wrapped(i16::MAX).value(), 7);
}

#[test]
fn new_wrapped_floors_negative_turns() {
    assert_eq!(CircleDegrees::new_wrapped(-1).value(), 359);
    assert_eq!(CircleDegrees::new_wrapped(-30).value(), 330);
    assert_eq!(CircleDegrees::new_wrapped(-360).value(), 0);
    assert_eq!(CircleDegrees::new_wrapped(-361).value(), 359);
    assert_eq!(CircleDegrees::new_wrapped(i16::MIN).value(), 352);
}

#[test]
fn new_wrapped_is_always_in_range() {
    let mut turn = i16::MIN;
    loop {
        let angle = CircleDegrees::new_wrapped(turn).value();
        assert!((0..360).contains(&angle));
        assert_eq!(i32::from(angle), i32::from(turn).rem_euclid(360));
        if turn == i16::MAX {
            break;
        }
        turn += 1;
    }
}

#[test]
fn add_wraps_past_a_full_turn() {
    assert_eq!((degrees(10) + degrees(20)).value(), 30);
    assert_eq!((degrees(350) + degrees(20)).value(), 10);
    assert_eq!((degrees(359) + degrees(359)).value(), 358);
    assert_eq!((degrees(180) + degrees(180)).value(), 0);
    assert_eq!((degrees(0) + degrees(0)).value(), 0);
}

#[test]
fn sub_wraps_below_zero() {
    assert_eq!((degrees(30) - degrees(20)).value(), 10);
    assert_eq!((degrees(10) - degrees(20)).value(), 350);
    assert_eq!((degrees(0) - degrees(359)).value(), 1);
    assert_eq!((degrees(0) - degrees(1)).value(), 359);
    assert_eq!((degrees(200) - degrees(200)).value(), 0);
}

#[test]
fn add_assign_adds() {
    let mut angle = degrees(350);
    angle += degrees(20);
    assert_eq!(angle.value(), 10);
    angle += degrees(100);
    assert_eq!(angle.value(), 110);
}

#[test]
fn sub_assign_subtracts() {
    let mut angle = degrees(10);
    angle -= degrees(20);
    assert_eq!(angle.value(), 350);
    angle -= degrees(50);
    assert_eq!(angle.value(), 300);
}

#[test]
fn add_then_sub_returns() {
    for start in [0i16, 1, 90, 179, 180, 270, 359] {
        for step in [0i16, 1, 45, 181, 359] {
            let there = degrees(start) + degrees(step);
            assert_eq!((there - degrees(step)).value(), start);
        }
    }
}

#[test]
fn converts_into_i16() {
    assert_eq!(i16::from(degrees(293)), 293);
    let raw: i16 = degrees(0).into();
    assert_eq!(raw, 0);
}

#[test]
fn copies_and_prints() {
    let angle = degrees(42);
    let copy = angle;
    assert_eq!(angle.value(), copy.value());
    assert_eq!(format!("{:?}", angle), "CircleDegrees(42)");
}
