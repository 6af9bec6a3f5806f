use colour_models::circle_degrees::CircleDegrees;
use colour_models::colour::Colour;
use colour_models::percentage_f32::{PercentageF32, UNIT};

fn rgb(red: u8, green: u8, blue: u8) -> Colour {
    Colour::RGB { red, green, blue }
}

fn hsv(hue: i16, saturation: u32, value: u32) -> Colour {
    Colour::HSV {
        hue: CircleDegrees::new_exact(hue).unwrap(),
        saturation: PercentageF32::try_new(saturation).unwrap(),
        value: PercentageF32::try_new(value).unwrap(),
    }
}

fn hsl(hue: i16, saturation: u32, luminosity: u32) -> Colour {
    Colour::HSL {
        hue: CircleDegrees::new_exact(hue).unwrap(),
        saturation: PercentageF32::try_new(saturation).unwrap(),
        luminosity: PercentageF32::try_new(luminosity).unwrap(),
    }
}

fn raw_hsv(colour: &Colour) -> (i16, u32, u32) {
    let (h, s, v) = colour.hsv_tuple();
    (h.value(), s.value(), v.value())
}

fn raw_hsl(colour: &Colour) -> (i16, u32, u32) {
    let (h, s, l) = colour.hsl_tuple();
    (h.value(), s.value(), l.value())
}

fn as_fraction(part: PercentageF32) -> f32 {
    part.value() as f32 / UNIT as f32
}

#[test]
fn test_from_hex() {
    let colour = Colour::from_hex(0xece5db);

    assert!(colour.red() == 236, "Incorrect red value {}", colour.red());
    assert!(colour.green() == 229, "Incorrect green value {}", colour.green());
    assert!(colour.blue() == 219, "Incorrect blue value {}", colour.blue());
}

#[test]
fn test_rgb_to_hsv() {
    // RGB(165, 102, 173) -> HSV(293, 41, 68)

    let start = Colour::RGB { red: 165, green: 102, blue: 173 };

    let end = start.as_hsv();

    println!("{:?} -> {:?}", start, end);

    assert!(end.hue().value() == 293, "Incorrect hue value {}", end.hue().value());
    assert!(
        0.405 <= as_fraction(end.saturation_hsv()) && as_fraction(end.saturation_hsv()) < 0.415,
        "Incorrect saturation value {}",
        as_fraction(end.saturation_hsv())
    );
    assert!(
        0.675 <= as_fraction(end.value_hsv()) && as_fraction(end.value_hsv()) < 0.685,
        "Incorrect value value {}",
        as_fraction(end.value_hsv())
    );
}

#[test]
fn test_all() {
    let start = Colour::RGB { red: 36, green: 237, blue: 73 };

    assert_eq!(start.rgb_tuple(), (36, 237, 73));
    assert_eq!(raw_hsv(&start), (131, 14_228_778, 15_592_942));
    assert_eq!(raw_hsl(&start), (131, 14_228_778, 8_980_745));
    assert_eq!(start.hue().value(), 131);
    assert_eq!(start.saturation_hsv().value(), 14_228_778);
    assert_eq!(start.value_hsv().value(), 15_592_942);
    assert_eq!(start.saturation_hsl().value(), 14_228_778);
    assert_eq!(start.luminosity().value(), 8_980_745);
    assert_eq!(start.as_hsv().rgb_tuple(), (36, 237, 73));
    assert_eq!(start.as_hsl().rgb_tuple(), (36, 237, 73));
}

#[test]
fn from_hex_splits_the_three_bytes() {
    assert_eq!(Colour::from_hex(0x000000).rgb_tuple(), (0, 0, 0));
    assert_eq!(Colour::from_hex(0xffffff).rgb_tuple(), (255, 255, 255));
    assert_eq!(Colour::from_hex(0x55f323).rgb_tuple(), (0x55, 0xf3, 0x23));
    assert_eq!(Colour::from_hex(0x010203).rgb_tuple(), (1, 2, 3));
    assert!(matches!(Colour::from_hex(0x123456), Colour::RGB { red: 0x12, green: 0x34, blue: 0x56 }));
}

#[test]
fn from_hex_ignores_the_high_byte() {
    assert_eq!(Colour::from_hex(0xff12_3456).rgb_tuple(), (0x12, 0x34, 0x56));
    assert_eq!(Colour::from_hex(0x0100_0000).rgb_tuple(), (0, 0, 0));
    assert_eq!(Colour::from_hex(u32::MAX).rgb_tuple(), (255, 255, 255));
}

#[test]
fn rgb_channels_are_their_own() {
    for (r, g, b) in [(0u8, 0u8, 0u8), (255, 255, 255), (1, 2, 3), (236, 229, 219), (0, 255, 7)] {
        let colour = rgb(r, g, b);
        assert_eq!(colour.red(), r);
        assert_eq!(colour.green(), g);
        assert_eq!(colour.blue(), b);
        assert_eq!(colour.rgb_tuple(), (r, g, b));
    }
}

#[test]
fn black_and_white_in_hsv() {
    assert_eq!(raw_hsv(&rgb(0, 0, 0)), (0, 0, 0));
    assert_eq!(raw_hsv(&rgb(255, 255, 255)), (0, 0, UNIT));
    let black = rgb(0, 0, 0).as_hsv();
    assert!(matches!(black, Colour::HSV { .. }));
    assert_eq!(raw_hsv(&black), (0, 0, 0));
    let white = rgb(255, 255, 255).as_hsv();
    assert!(matches!(white, Colour::HSV { .. }));
    assert_eq!(raw_hsv(&white), (0, 0, UNIT));
}

#[test]
fn black_and_white_in_hsl() {
    assert_eq!(raw_hsl(&rgb(0, 0, 0)), (0, 0, 0));
    assert_eq!(raw_hsl(&rgb(255, 255, 255)), (0, 0, UNIT));
    assert!(matches!(rgb(0, 0, 0).as_hsl(), Colour::HSL { .. }));
}

#[test]
fn grey_midpoint_from_hsl() {
    let grey = hsl(0, 0, UNIT / 2);
    assert_eq!(grey.rgb_tuple(), (128, 128, 128));
    assert_eq!(grey.red(), 128);
    assert_eq!(grey.green(), 128);
    assert_eq!(grey.blue(), 128);
}

#[test]
fn grey_has_no_hue_and_no_saturation() {
    assert_eq!(raw_hsv(&rgb(128, 128, 128)), (0, 0, 8_421_505));
    assert_eq!(raw_hsl(&rgb(128, 128, 128)), (0, 0, 8_421_505));
    assert_eq!(raw_hsv(&rgb(1, 1, 1)), (0, 0, 65_793));
}

#[test]
fn hue_of_the_primaries() {
    assert_eq!(rgb(255, 0, 0).hue().value(), 0);
    assert_eq!(rgb(255, 255, 0).hue().value(), 60);
    assert_eq!(rgb(0, 255, 0).hue().value(), 120);
    assert_eq!(rgb(0, 255, 255).hue().value(), 180);
    assert_eq!(rgb(0, 0, 255).hue().value(), 240);
    assert_eq!(rgb(255, 0, 255).hue().value(), 300);
}

#[test]
fn hue_on_each_sector() {
    assert_eq!(rgb(165, 102, 173).hue().value(), 293);
    assert_eq!(rgb(36, 237, 73).hue().value(), 131);
    assert_eq!(rgb(10, 200, 30).hue().value(), 126);
    assert_eq!(rgb(10, 30, 200).hue().value(), 234);
    assert_eq!(rgb(0, 2, 210).hue().value(), 239);
    assert_eq!(rgb(200, 100, 50).hue().value(), 20);
}

#[test]
fn hue_below_red_is_floored_not_negative() {
    assert_eq!(rgb(255, 0, 128).hue().value(), 330);
    assert_eq!(rgb(255, 0, 255).hue().value(), 300);
    assert_eq!(rgb(200, 50, 100).hue().value(), 340);
}

#[test]
fn hue_that_rounds_to_a_full_turn_wraps_to_zero() {
    assert_eq!(rgb(255, 0, 1).hue().value(), 0);
    assert_eq!(rgb(255, 0, 2).hue().value(), 0);
    assert_eq!(rgb(255, 0, 3).hue().value(), 359);
}

#[test]
fn hue_ties_round_up() {
    // 60 * 1 / 120 is one half of a degree
    assert_eq!(rgb(120, 1, 0).hue().value(), 1);
    assert_eq!(rgb(240, 2, 0).hue().value(), 1);
    assert_eq!(rgb(240, 1, 0).hue().value(), 0);
}

#[test]
fn hsv_of_rgb_exact_values() {
    assert_eq!(raw_hsv(&rgb(165, 102, 173)), (293, 6_885_447, 11_382_190));
    assert_eq!(raw_hsv(&rgb(255, 0, 0)), (0, UNIT, UNIT));
    assert_eq!(raw_hsv(&rgb(10, 200, 30)), (126, 15_938_355, 13_158_601));
    assert_eq!(raw_hsv(&rgb(0, 2, 210)), (239, UNIT, 13_816_531));
}

#[test]
fn hsl_of_rgb_exact_values() {
    assert_eq!(raw_hsl(&rgb(165, 102, 173)), (293, 5_068_861, 9_046_538));
    assert_eq!(raw_hsl(&rgb(255, 0, 0)), (0, UNIT, UNIT / 2));
    assert_eq!(raw_hsl(&rgb(10, 200, 30)), (126, 15_179_386, 6_908_265));
}

#[test]
fn hsl_saturation_of_rgb_is_the_standard_one() {
    // (max - min) / (1 - |2l - 1|) = 127 / 127, where (max - min) / max = 127 / 255
    assert_eq!(rgb(255, 128, 128).saturation_hsl().value(), UNIT);
    assert_eq!(rgb(255, 128, 128).saturation_hsv().value(), 8_355_711);
    assert_eq!(rgb(255, 128, 128).luminosity().value(), 12_599_360);
    assert_eq!(rgb(255, 128, 128).as_hsl().rgb_tuple(), (255, 128, 128));
}

#[test]
fn hsl_of_hsv_exact_values() {
    assert_eq!(raw_hsl(&hsv(210, UNIT / 2, 12_582_912)), (210, 7_190_235, 9_437_184));
    assert_eq!(raw_hsl(&hsv(30, UNIT / 2, UNIT / 4)), (30, 5_592_405, 3_145_728));
    assert_eq!(raw_hsl(&hsv(293, 6_885_447, 11_382_190)), (293, 5_068_862, 9_046_538));
    assert_eq!(hsv(210, UNIT / 2, 12_582_912).saturation_hsl().value(), 7_190_235);
    assert_eq!(hsv(210, UNIT / 2, 12_582_912).luminosity().value(), 9_437_184);
}

#[test]
fn hsl_saturation_of_hsv_is_zero_at_value_zero_and_one() {
    assert_eq!(raw_hsl(&hsv(120, UNIT, 0)), (120, 0, 0));
    assert_eq!(raw_hsl(&hsv(120, UNIT, UNIT)), (120, 0, UNIT / 2));
    assert_eq!(raw_hsl(&hsv(120, 0, UNIT)), (120, 0, UNIT));
    assert_eq!(raw_hsl(&hsv(60, UNIT - 1, 1)), (60, 0, 1));
    assert_eq!(raw_hsl(&hsv(359, UNIT, UNIT - 1)), (359, UNIT - 2, 8_388_608));
}

#[test]
fn hsv_of_hsl_exact_values() {
    assert_eq!(raw_hsv(&hsl(200, UNIT / 4, 12_582_912)), (200, 6_710_886, 15_728_640));
    assert_eq!(raw_hsv(&hsl(120, UNIT, UNIT / 2)), (120, UNIT, UNIT));
    assert_eq!(raw_hsv(&hsl(0, 0, 0)), (0, 0, 0));
    assert_eq!(raw_hsv(&hsl(0, 0, UNIT / 2)), (0, 0, UNIT / 2));
    assert_eq!(hsl(200, UNIT / 4, 12_582_912).value_hsv().value(), 15_728_640);
    assert_eq!(hsl(200, UNIT / 4, 12_582_912).saturation_hsv().value(), 6_710_886);
}

#[test]
fn hsv_value_of_hsl_can_be_missing() {
    // 0.75 + 1 * max(0.75, 0.25) = 1.5
    let pale = hsl(0, UNIT, 12_582_912);
    assert!(pale.is_convertible());
    assert!(!pale.has_value_hsv());
    assert!(!pale.has_saturation_hsv());
    assert_eq!(pale.hue().value(), 0);
    assert_eq!(pale.rgb_tuple(), (255, 128, 128));
    assert_eq!(raw_hsl(&pale), (0, UNIT, 12_582_912));
    assert!(!hsl(359, UNIT, UNIT).has_value_hsv());
}

#[test]
fn hsv_saturation_of_hsl_can_be_missing_alone() {
    // v = 0.25 + 0.5 * 0.75 = 0.625, and 2 * (1 - 0.25 / 0.625) = 1.2
    let dark = hsl(30, UNIT / 2, UNIT / 4);
    assert!(dark.has_value_hsv());
    assert!(!dark.has_saturation_hsv());
    assert_eq!(dark.value_hsv().value(), 10_485_760);
    assert_eq!(dark.rgb_tuple(), (96, 64, 32));
}

#[test]
fn hsv_of_hsl_is_there_when_both_fit() {
    let soft = hsl(200, UNIT / 4, 12_582_912);
    assert!(soft.has_value_hsv());
    assert!(soft.has_saturation_hsv());
    for colour in [rgb(1, 2, 3), hsv(0, 0, 0), hsv(359, UNIT, UNIT), hsl(0, 0, UNIT)] {
        assert!(colour.is_convertible());
        assert!(colour.has_value_hsv());
        assert!(colour.has_saturation_hsv());
    }
}

#[test]
fn spaces_without_conversions() {
    let lab = Colour::CIELAB { l_star: PercentageF32::new_or_panic(5), a_star: -3, b_star: 7 };
    let xyz = Colour::XYZ { x: 1, y: -2, z: 3 };
    let lms = Colour::LMS { l: 1, m: 2, s: 3 };
    for colour in [lab, xyz, lms] {
        assert!(!colour.is_convertible());
        assert!(!colour.has_value_hsv());
        assert!(!colour.has_saturation_hsv());
    }
}

#[test]
fn rgb_of_hsv_exact_values() {
    assert_eq!(hsv(210, UNIT / 2, 12_582_912).rgb_tuple(), (96, 143, 191));
    assert_eq!(hsv(120, UNIT, UNIT / 2).rgb_tuple(), (0, 128, 0));
    assert_eq!(hsv(0, UNIT, 12_582_912).rgb_tuple(), (191, 0, 0));
    assert_eq!(hsv(30, UNIT / 2, UNIT / 4).rgb_tuple(), (64, 48, 32));
    assert_eq!(hsv(359, UNIT, UNIT).rgb_tuple(), (255, 0, 4));
    assert_eq!(hsv(0, 0, UNIT / 2).rgb_tuple(), (128, 128, 128));
    assert_eq!(hsv(77, UNIT, 0).rgb_tuple(), (0, 0, 0));
    assert_eq!(hsv(210, UNIT / 2, 12_582_912).red(), 96);
    assert_eq!(hsv(210, UNIT / 2, 12_582_912).green(), 143);
    assert_eq!(hsv(210, UNIT / 2, 12_582_912).blue(), 191);
}

#[test]
fn rgb_of_hsv_primaries() {
    assert_eq!(hsv(0, UNIT, UNIT).rgb_tuple(), (255, 0, 0));
    assert_eq!(hsv(60, UNIT, UNIT).rgb_tuple(), (255, 255, 0));
    assert_eq!(hsv(120, UNIT, UNIT).rgb_tuple(), (0, 255, 0));
    assert_eq!(hsv(180, UNIT, UNIT).rgb_tuple(), (0, 255, 255));
    assert_eq!(hsv(240, UNIT, UNIT).rgb_tuple(), (0, 0, 255));
    assert_eq!(hsv(300, UNIT, UNIT).rgb_tuple(), (255, 0, 255));
}

#[test]
fn rgb_of_hsl_exact_values() {
    assert_eq!(hsl(210, UNIT / 2, 12_582_912).rgb_tuple(), (159, 191, 223));
    assert_eq!(hsl(120, UNIT, UNIT / 2).rgb_tuple(), (0, 255, 0));
    assert_eq!(hsl(30, UNIT / 2, UNIT / 4).rgb_tuple(), (96, 64, 32));
    assert_eq!(hsl(200, UNIT / 4, 12_582_912).rgb_tuple(), (175, 197, 207));
    assert_eq!(hsl(359, UNIT, UNIT).rgb_tuple(), (255, 255, 255));
    assert_eq!(hsl(60, UNIT - 1, 1).rgb_tuple(), (0, 0, 0));
    assert_eq!(hsl(210, UNIT / 2, 12_582_912).red(), 159);
    assert_eq!(hsl(210, UNIT / 2, 12_582_912).green(), 191);
    assert_eq!(hsl(210, UNIT / 2, 12_582_912).blue(), 223);
}

#[test]
fn rgb_of_hsl_primaries() {
    assert_eq!(hsl(0, UNIT, UNIT / 2).rgb_tuple(), (255, 0, 0));
    assert_eq!(hsl(60, UNIT, UNIT / 2).rgb_tuple(), (255, 255, 0));
    assert_eq!(hsl(120, UNIT, UNIT / 2).rgb_tuple(), (0, 255, 0));
    assert_eq!(hsl(180, UNIT, UNIT / 2).rgb_tuple(), (0, 255, 255));
    assert_eq!(hsl(240, UNIT, UNIT / 2).rgb_tuple(), (0, 0, 255));
    assert_eq!(hsl(300, UNIT, UNIT / 2).rgb_tuple(), (255, 0, 255));
}

#[test]
fn hsv_to_hsv_changes_nothing() {
    for (h, s, v) in [(0i16, 0u32, 0u32), (359, UNIT, UNIT), (293, 6_885_447, 11_382_190), (17, 1, UNIT - 1)] {
        let colour = hsv(h, s, v);
        assert_eq!(raw_hsv(&colour), (h, s, v));
        let once = colour.as_hsv();
        assert!(matches!(once, Colour::HSV { .. }));
        assert_eq!(raw_hsv(&once), (h, s, v));
        assert_eq!(raw_hsv(&once.as_hsv()), (h, s, v));
    }
}

#[test]
fn as_hsv_twice_is_as_hsv_once() {
    for colour in [rgb(165, 102, 173), rgb(0, 2, 210), hsl(200, UNIT / 4, 12_582_912), hsl(0, 0, 7)] {
        let once = colour.as_hsv();
        let twice = once.as_hsv();
        assert_eq!(raw_hsv(&once), raw_hsv(&twice));
        assert_eq!(raw_hsv(&once), raw_hsv(&colour));
    }
}

#[test]
fn hsl_to_hsl_changes_nothing() {
    for (h, s, l) in [(0i16, 0u32, 0u32), (359, UNIT, UNIT), (200, UNIT / 4, 12_582_912)] {
        let colour = hsl(h, s, l);
        assert_eq!(raw_hsl(&colour), (h, s, l));
        let once = colour.as_hsl();
        assert!(matches!(once, Colour::HSL { .. }));
        assert_eq!(raw_hsl(&once), (h, s, l));
    }
}

#[test]
fn mutate_hsv_replaces_in_place() {
    let mut colour = rgb(165, 102, 173);
    colour.mutate_hsv();
    assert!(matches!(colour, Colour::HSV { .. }));
    assert_eq!(raw_hsv(&colour), (293, 6_885_447, 11_382_190));
    colour.mutate_hsv();
    assert_eq!(raw_hsv(&colour), (293, 6_885_447, 11_382_190));

    let mut other = hsl(200, UNIT / 4, 12_582_912);
    other.mutate_hsv();
    assert!(matches!(other, Colour::HSV { .. }));
    assert_eq!(raw_hsv(&other), (200, 6_710_886, 15_728_640));
}

#[test]
fn single_components_agree_with_the_tuples() {
    for colour in [rgb(165, 102, 173), hsv(210, UNIT / 2, 12_582_912), hsl(200, UNIT / 4, 12_582_912)] {
        let (h, s, v) = raw_hsv(&colour);
        assert_eq!(colour.hue().value(), h);
        assert_eq!(colour.saturation_hsv().value(), s);
        assert_eq!(colour.value_hsv().value(), v);
        let (h, s, l) = raw_hsl(&colour);
        assert_eq!(colour.hue().value(), h);
        assert_eq!(colour.saturation_hsl().value(), s);
        assert_eq!(colour.luminosity().value(), l);
        let (r, g, b) = colour.rgb_tuple();
        assert_eq!(colour.red(), r);
        assert_eq!(colour.green(), g);
        assert_eq!(colour.blue(), b);
    }
}

#[test]
fn round_trip_through_hsv_samples() {
    for (r, g, b) in [(165u8, 102u8, 173u8), (36, 237, 73), (0, 0, 0), (255, 255, 255), (255, 0, 128), (1, 2, 3), (128, 128, 128)] {
        assert_eq!(rgb(r, g, b).as_hsv().rgb_tuple(), (r, g, b));
    }
    assert_eq!(rgb(10, 200, 30).as_hsv().rgb_tuple(), (10, 200, 29));
}

#[test]
fn round_trip_through_hsl_samples() {
    for (r, g, b) in [(165u8, 102u8, 173u8), (36, 237, 73), (0, 0, 0), (255, 255, 255), (255, 0, 128), (1, 2, 3), (128, 128, 128)] {
        assert_eq!(rgb(r, g, b).as_hsl().rgb_tuple(), (r, g, b));
    }
    assert_eq!(rgb(10, 30, 200).as_hsl().rgb_tuple(), (10, 29, 200));
}

#[test]
fn round_trip_can_miss_by_two() {
    assert_eq!(rgb(255, 2, 0).as_hsv().rgb_tuple(), (255, 0, 0));
    assert_eq!(rgb(255, 2, 0).as_hsl().rgb_tuple(), (255, 0, 0));
    assert_eq!(rgb(0, 2, 210).as_hsv().rgb_tuple(), (0, 4, 210));
}

#[test]
fn round_trip_over_a_grid() {
    let mut r = 0u16;
    while r < 256 {
        let mut g = 0u16;
        while g < 256 {
            let mut b = 0u16;
            while b < 256 {
                let start = rgb(r as u8, g as u8, b as u8);
                let high = r.max(g).max(b) as i32;
                let low = r.min(g).min(b) as i32;
                for back in [start.as_hsv().rgb_tuple(), start.as_hsl().rgb_tuple()] {
                    let pairs = [(back.0, r), (back.1, g), (back.2, b)];
                    for (after, before) in pairs {
                        let gap = (i32::from(after) - i32::from(before)).abs();
                        let before = i32::from(before);
                        assert!(gap <= 2);
                        if high - low < 180 {
                            assert!(gap <= 1);
                        }
                        if high - low < 60 || before == high || before == low {
                            assert_eq!(gap, 0);
                        }
                    }
                }
                b += 5;
            }
            g += 3;
        }
        r += 5;
    }
}

#[test]
fn components_stay_in_range_over_a_grid() {
    let mut r = 0u16;
    while r < 256 {
        let mut g = 0u16;
        while g < 256 {
            let mut b = 0u16;
            while b < 256 {
                let start = rgb(r as u8, g as u8, b as u8);
                let (h, s, v) = raw_hsv(&start);
                assert!((0..360).contains(&h) && s <= UNIT && v <= UNIT);
                let (h, s, l) = raw_hsl(&start);
                assert!((0..360).contains(&h) && s <= UNIT && l <= UNIT);
                let (_, s, l) = raw_hsl(&start.as_hsv());
                assert!(s <= UNIT && l <= UNIT);
                b += 7;
            }
            g += 5;
        }
        r += 3;
    }
}

#[test]
fn colours_copy_and_print() {
    let colour = rgb(1, 2, 3);
    let copy = colour;
    assert_eq!(colour.rgb_tuple(), copy.rgb_tuple());
    assert_eq!(format!("{:?}", colour), "RGB { red: 1, green: 2, blue: 3 }");
}

#[test]
fn selection_from_rgb_fills_what_is_asked() {
    let colour = rgb(165, 102, 173);
    let (h, s, v) = colour.select_hsv::<true, false, false>();
    assert_eq!(h.unwrap().value(), 293);
    assert!(s.is_none() && v.is_none());
    let (h, s, v) = colour.select_hsv::<false, true, false>();
    assert_eq!(s.unwrap().value(), 6_885_447);
    assert!(h.is_none() && v.is_none());
    let (h, s, v) = colour.select_hsv::<false, false, true>();
    assert_eq!(v.unwrap().value(), 11_382_190);
    assert!(h.is_none() && s.is_none());
    let (h, s, l) = colour.select_hsl::<false, true, true>();
    assert_eq!(s.unwrap().value(), 5_068_861);
    assert_eq!(l.unwrap().value(), 9_046_538);
    assert!(h.is_none());
    let (h, s, v) = colour.select_hsv::<false, false, false>();
    assert!(h.is_none() && s.is_none() && v.is_none());
}

#[test]
fn selection_of_saturation_brings_what_it_is_derived_from() {
    let (h, s, v) = hsl(200, UNIT / 4, 12_582_912).select_hsv::<false, true, false>();
    assert!(h.is_none());
    assert_eq!(s.unwrap().value(), 6_710_886);
    assert_eq!(v.unwrap().value(), 15_728_640);

    let (h, s, l) = hsv(210, UNIT / 2, 12_582_912).select_hsl::<false, true, false>();
    assert!(h.is_none());
    assert_eq!(s.unwrap().value(), 7_190_235);
    assert_eq!(l.unwrap().value(), 9_437_184);

    let (_, s, l) = hsv(210, UNIT / 2, 12_582_912).select_hsl::<false, false, true>();
    assert!(s.is_none());
    assert_eq!(l.unwrap().value(), 9_437_184);
}

#[test]
fn selection_within_one_space_copies() {
    let (h, s, v) = hsv(210, 5, 7).select_hsv::<true, false, true>();
    assert_eq!(h.unwrap().value(), 210);
    assert!(s.is_none());
    assert_eq!(v.unwrap().value(), 7);
    let (h, s, l) = hsl(210, 5, 7).select_hsl::<false, true, false>();
    assert!(h.is_none() && l.is_none());
    assert_eq!(s.unwrap().value(), 5);
    assert_eq!(rgb(1, 2, 3).select_rgb::<true, false, true>(), (Some(1), None, Some(3)));
}

#[test]
fn selection_of_channels() {
    let colour = hsv(210, UNIT / 2, 12_582_912);
    assert_eq!(colour.select_rgb::<true, true, true>(), (Some(96), Some(143), Some(191)));
    assert_eq!(colour.select_rgb::<false, true, false>(), (None, Some(143), None));
    let colour = hsl(210, UNIT / 2, 12_582_912);
    assert_eq!(colour.select_rgb::<true, false, true>(), (Some(159), None, Some(223)));
    assert_eq!(colour.select_rgb::<false, false, false>(), (None, None, None));
}

#[test]
fn rgb_to_hsvl_chooses_the_space() {
    let (h, s, v) = Colour::rgb_to_hsvl::<true, true, true, false>(255, 128, 128);
    assert_eq!((h.unwrap().value(), s.unwrap().value(), v.unwrap().value()), (0, 8_355_711, UNIT));
    let (h, s, l) = Colour::rgb_to_hsvl::<true, true, true, true>(255, 128, 128);
    assert_eq!((h.unwrap().value(), s.unwrap().value(), l.unwrap().value()), (0, UNIT, 12_599_360));
    let (h, s, l) = Colour::rgb_to_hsvl::<false, false, true, true>(0, 0, 0);
    assert!(h.is_none() && s.is_none());
    assert_eq!(l.unwrap().value(), 0);
}

fn nearest(x: f64) -> i64 {
    (x + 0.5).floor() as i64
}

fn far_from_a_tie(x: f64) -> bool {
    ((x + 0.5) - (x + 0.5).round()).abs() > 1e-6
}

#[test]
fn rgb_to_hsv_and_hsl_agree_with_the_real_formulas() {
    let unit = f64::from(UNIT);
    let mut r = 0u16;
    while r < 256 {
        let mut g = 0u16;
        while g < 256 {
            let mut b = 0u16;
            while b < 256 {
                let colour = rgb(r as u8, g as u8, b as u8);
                let (rf, gf, bf) = (f64::from(r) / 255.0, f64::from(g) / 255.0, f64::from(b) / 255.0);
                let high = rf.max(gf).max(bf);
                let low = rf.min(gf).min(bf);
                let spread = high - low;
                let light = (high + low) / 2.0;
                let (h, s, v) = raw_hsv(&colour);
                let (_, sl, l) = raw_hsl(&colour);
                let s_real = if high == 0.0 { 0.0 } else { spread / high };
                let sl_real = if spread == 0.0 { 0.0 } else { spread / (1.0 - (2.0 * light - 1.0).abs()) };
                assert!((f64::from(s) / unit - s_real).abs() < 1e-7);
                assert!((f64::from(v) / unit - high).abs() < 1e-7);
                assert!((f64::from(sl) / unit - sl_real).abs() < 1e-7);
                assert!((f64::from(l) / unit - light).abs() < 1e-7);
                if spread > 0.0 {
                    let sector = if high == rf {
                        ((gf - bf) / spread).rem_euclid(6.0)
                    } else if high == gf {
                        (bf - rf) / spread + 2.0
                    } else {
                        (rf - gf) / spread + 4.0
                    };
                    if far_from_a_tie(sector * 60.0) {
                        assert_eq!(i64::from(h), nearest(sector * 60.0) % 360);
                    }
                } else {
                    assert_eq!(h, 0);
                }
                b += 15;
            }
            g += 17;
        }
        r += 15;
    }
}

#[test]
fn channels_agree_with_the_real_formulas() {
    let unit = f64::from(UNIT);
    for h in (0i16..360).step_by(7) {
        for s in [0u32, 1, UNIT / 3, UNIT / 2, UNIT - 1, UNIT] {
            for x in [0u32, 1, UNIT / 5, UNIT / 2, 12_582_912, UNIT - 1, UNIT] {
                let (hf, sf, xf) = (f64::from(h), f64::from(s) / unit, f64::from(x) / unit);

                let from_hsv = hsv(h, s, x).rgb_tuple();
                let mut at = 0;
                for n in [5.0, 3.0, 1.0] {
                    let k: f64 = (n + hf / 60.0) % 6.0;
                    let real = 255.0 * (xf - xf * sf * k.min(4.0 - k).clamp(0.0, 1.0));
                    if far_from_a_tie(real) {
                        assert_eq!(i64::from([from_hsv.0, from_hsv.1, from_hsv.2][at]), nearest(real));
                    }
                    at += 1;
                }

                let from_hsl = hsl(h, s, x).rgb_tuple();
                let a = sf * xf.min(1.0 - xf);
                let mut at = 0;
                for n in [0.0, 8.0, 4.0] {
                    let k: f64 = (n + hf / 30.0) % 12.0;
                    let real = 255.0 * (xf - a * (k - 3.0).min(9.0 - k).clamp(-1.0, 1.0));
                    if far_from_a_tie(real) {
                        assert_eq!(i64::from([from_hsl.0, from_hsl.1, from_hsl.2][at]), nearest(real));
                    }
                    at += 1;
                }
            }
        }
    }
}

#[test]
fn hsv_and_hsl_agree_with_the_real_formulas() {
    let unit = f64::from(UNIT);
    for s in [0u32, 1, 1_000, UNIT / 3, UNIT / 2, UNIT - 1, UNIT] {
        for x in [0u32, 1, 1_000, UNIT / 5, UNIT / 2, 12_582_912, UNIT - 1, UNIT] {
            let (sf, xf) = (f64::from(s) / unit, f64::from(x) / unit);

            let (_, sl, l) = raw_hsl(&hsv(100, s, x));
            let l_real = xf * (1.0 - sf / 2.0);
            assert!((f64::from(l) / unit - l_real).abs() < 1e-7);
            if x == 0 || x == UNIT {
                assert_eq!(sl, 0);
            } else if l > 1_000 && UNIT - l > 1_000 {
                let lf = f64::from(l) / unit;
                let sl_real = (xf - lf) / lf.min(1.0 - lf);
                assert!((f64::from(sl) / unit - sl_real).abs() < 1e-6);
            }

            let colour = hsl(100, s, x);
            let v_real = xf + sf * xf.max(1.0 - xf);
            assert_eq!(colour.has_value_hsv(), nearest(v_real * unit) <= i64::from(UNIT));
            if colour.has_value_hsv() {
                let v = colour.value_hsv().value();
                assert!((f64::from(v) / unit - v_real).abs() < 1e-7);
                let vf = f64::from(v) / unit;
                let sv_real = if v == 0 { 0.0 } else { 2.0 * (1.0 - xf / vf) };
                if (sv_real - 1.0).abs() > 1e-6 {
                    assert_eq!(colour.has_saturation_hsv(), sv_real < 1.0);
                }
                if colour.has_saturation_hsv() {
                    let sv = colour.saturation_hsv().value();
                    assert!((f64::from(sv) / unit - sv_real).abs() < 1e-7);
                }
            }
        }
    }
}
