//! Every conversion formula yields a component in the range of its type.
use crate::formulas::{
    channel_max, channel_min, hsl_channel, hsl_hsv_value, hsl_weight, hsv_channel,
    hsv_hsl_luminosity, hsv_hsl_saturation, hsv_weight, rgb_hsl_luminosity,
    rgb_hsl_saturation, rgb_hsv_saturation, rgb_hsv_value, rgb_hue, rgb_hue_numerator,
};
use crate::model::{is_channel, is_hue, is_proportion};
use crate::percentage_f32::UNIT;
use crate::rounding::{
    lemma_round_div_at_least, lemma_round_div_at_most, lemma_round_div_bounded,
    lemma_round_div_nearest, round_div,
};
use vstd::math::{max, min};
use vstd::prelude::*;

verus! {

/// The numerator of the hue lies between zero and 360 times the spread of
/// the channels, and on the red sector it is `60 * (g - b)`, raised by a
/// full turn where that is negative.
pub proof fn lemma_rgb_hue_numerator(r: int, g: int, b: int)
    requires
        is_channel(r),
        is_channel(g),
        is_channel(b),
        channel_max(r, g, b) > channel_min(r, g, b),
    ensures
        0 <= rgb_hue_numerator(r, g, b) <= 360 * (channel_max(r, g, b) - channel_min(r, g, b)),
        channel_max(r, g, b) == r && g >= b ==> rgb_hue_numerator(r, g, b) == 60 * (g - b),
        channel_max(r, g, b) == r && g < b ==> rgb_hue_numerator(r, g, b) == 60 * (g - b) + 360
            * (channel_max(r, g, b) - channel_min(r, g, b)),
{
    let high = channel_max(r, g, b);
    let spread = high - channel_min(r, g, b);
    let turn = 360 * spread;
    if high == r {
        let raw = 60 * (g - b);
        if g >= b {
            vstd::arithmetic::div_mod::lemma_small_mod(raw as nat, turn as nat);
        } else {
            vstd::arithmetic::div_mod::lemma_mod_add_multiples_vanish(raw, turn);
            vstd::arithmetic::div_mod::lemma_small_mod((turn + raw) as nat, turn as nat);
        }
    }
}

/// The hue of an RGB colour is a hue.
pub proof fn lemma_rgb_hue_range(r: int, g: int, b: int)
    requires
        is_channel(r),
        is_channel(g),
        is_channel(b),
    ensures
        is_hue(rgb_hue(r, g, b)),
        channel_max(r, g, b) > channel_min(r, g, b) ==> 0 <= round_div(
            rgb_hue_numerator(r, g, b),
            channel_max(r, g, b) - channel_min(r, g, b),
        ) <= 360,
{
    let spread = channel_max(r, g, b) - channel_min(r, g, b);
    if spread > 0 {
        lemma_rgb_hue_numerator(r, g, b);
        lemma_round_div_bounded(rgb_hue_numerator(r, g, b), spread, 360);
    }
}

/// The HSV saturation and value of an RGB colour are proportions.
pub proof fn lemma_rgb_hsv_range(r: int, g: int, b: int)
    requires
        is_channel(r),
        is_channel(g),
        is_channel(b),
    ensures
        is_proportion(rgb_hsv_saturation(r, g, b)),
        is_proportion(rgb_hsv_value(r, g, b)),
{
    let high = channel_max(r, g, b);
    let spread = high - channel_min(r, g, b);
    if high > 0 {
        assert(0 <= UNIT * spread <= UNIT * high) by (nonlinear_arith)
            requires
                0 <= spread <= high,
        ;
        lemma_round_div_bounded(UNIT * spread, high, UNIT as int);
    }
    lemma_round_div_bounded(UNIT * high, 255, UNIT as int);
}

/// The HSL saturation and luminosity of an RGB colour are proportions.
pub proof fn lemma_rgb_hsl_range(r: int, g: int, b: int)
    requires
        is_channel(r),
        is_channel(g),
        is_channel(b),
    ensures
        is_proportion(rgb_hsl_saturation(r, g, b)),
        is_proportion(rgb_hsl_luminosity(r, g, b)),
{
    let high = channel_max(r, g, b);
    let low = channel_min(r, g, b);
    let spread = high - low;
    if spread > 0 {
        let base = min(high + low, 510 - (high + low));
        assert(0 <= UNIT * spread <= UNIT * base) by (nonlinear_arith)
            requires
                0 <= spread <= base,
        ;
        lemma_round_div_bounded(UNIT * spread, base, UNIT as int);
    }
    lemma_round_div_bounded(UNIT * (high + low), 510, UNIT as int);
}

/// The HSV value of an HSL colour is at least the luminosity and at most
/// two.
pub proof fn lemma_hsl_hsv_value_range(s: int, l: int)
    requires
        is_proportion(s),
        is_proportion(l),
    ensures
        l <= hsl_hsv_value(s, l) <= 2 * UNIT,
        0 <= s * max(l, UNIT - l) <= UNIT * UNIT,
        0 <= l * UNIT <= UNIT * UNIT,
{
    let unit = UNIT as int;
    let far = max(l, unit - l);
    let extra = s * far;
    assert(0 <= extra <= unit * unit) by (nonlinear_arith)
        requires
            extra == s * far,
            0 <= s <= unit,
            0 <= far <= unit,
    ;
    assert(0 <= l * unit <= unit * unit) by (nonlinear_arith)
        requires
            0 <= l <= unit,
    ;
    assert(unit * unit == 16777216 * unit) by (nonlinear_arith)
        requires
            unit == 16777216,
    ;
    lemma_round_div_at_least(l * unit + extra, unit, l);
    assert(2 * unit * unit == (2 * unit) * unit) by (nonlinear_arith);
    lemma_round_div_at_most(l * unit + extra, unit, 2 * unit);
}

/// The HSL luminosity of an HSV colour is a proportion, and it lies
/// between half the value and the value.
pub proof fn lemma_hsv_hsl_luminosity_range(s: int, v: int)
    requires
        is_proportion(s),
        is_proportion(v),
    ensures
        is_proportion(hsv_hsl_luminosity(s, v)),
        v <= 2 * hsv_hsl_luminosity(s, v),
        hsv_hsl_luminosity(s, v) <= v,
{
    let l = hsv_hsl_luminosity(s, v);
    let n = v * (2 * UNIT - s);
    lemma_round_div_nearest(n, 2 * UNIT);
    assert(v * UNIT <= n <= v * (2 * UNIT)) by (nonlinear_arith)
        requires
            n == v * (2 * UNIT - s),
            0 <= s <= UNIT,
            0 <= v,
    ;
    assert(l * (2 * UNIT) == 0x200_0000 * l && v * (2 * UNIT) == 0x200_0000 * v && v * UNIT
        == 0x100_0000 * v) by (nonlinear_arith)
        requires
            UNIT == 0x100_0000,
    ;
}

/// The HSL saturation of an HSV colour is a proportion.
pub proof fn lemma_hsv_hsl_saturation_range(s: int, v: int)
    requires
        is_proportion(s),
        is_proportion(v),
    ensures
        is_proportion(hsv_hsl_saturation(s, v)),
        0 < v < UNIT ==> 0 < min(hsv_hsl_luminosity(s, v), UNIT - hsv_hsl_luminosity(s, v)),
{
    let l = hsv_hsl_luminosity(s, v);
    lemma_hsv_hsl_luminosity_range(s, v);
    if 0 < v < UNIT {
        let base = min(l, UNIT - l);
        assert(0 <= UNIT * (v - l) <= UNIT * base) by (nonlinear_arith)
            requires
                0 <= v - l <= base,
        ;
        lemma_round_div_bounded(UNIT * (v - l), base, UNIT as int);
    }
}

/// The numerator of a channel of an HSL colour, for a weight `w`, lies
/// between zero and 255 times its denominator.
pub proof fn lemma_hsl_channel_numerator(s: int, l: int, w: int)
    requires
        is_proportion(s),
        is_proportion(l),
        -30 <= w <= 30,
    ensures
        0 <= 255 * (30 * (l * UNIT) - (s * min(l, UNIT - l)) * w) <= 255 * (30 * (UNIT * UNIT)),
        0 <= s * min(l, UNIT - l) <= UNIT * UNIT,
{
    let m = min(l, UNIT - l);
    let unit = UNIT as int;
    let a = s * m;
    assert(0 <= a <= unit * m) by (nonlinear_arith)
        requires
            a == s * m,
            0 <= s <= unit,
            0 <= m,
    ;
    assert(unit * m <= unit * l && unit * m <= unit * (unit - l) && unit * m <= unit * unit)
        by (nonlinear_arith)
        requires
            m <= l,
            m <= unit - l,
            0 <= l,
            0 < unit,
    ;
    assert(-30 * a <= a * w <= 30 * a) by (nonlinear_arith)
        requires
            0 <= a,
            -30 <= w <= 30,
    ;
    assert(unit * (unit - l) == unit * unit - unit * l) by (nonlinear_arith);
    assert(l * unit == unit * l) by (nonlinear_arith);
}

/// A channel of an HSL colour is a channel.
pub proof fn lemma_hsl_channel_range(n: int, h: int, s: int, l: int)
    requires
        is_proportion(s),
        is_proportion(l),
    ensures
        is_channel(hsl_channel(n, h, s, l)),
{
    let w = hsl_weight(n, h);
    lemma_hsl_channel_numerator(s, l, w);
    assert(30 * (UNIT * UNIT) > 0) by (nonlinear_arith);
    lemma_round_div_bounded(
        255 * (30 * (l * UNIT) - (s * min(l, UNIT - l)) * w),
        30 * (UNIT * UNIT),
        255,
    );
}

/// The numerator of a channel of an HSV colour, for a weight `w`, lies
/// between zero and 255 times its denominator.
pub proof fn lemma_hsv_channel_numerator(s: int, v: int, w: int)
    requires
        is_proportion(s),
        is_proportion(v),
        0 <= w <= 60,
    ensures
        0 <= 255 * (60 * (v * UNIT) - (v * s) * w) <= 255 * (60 * (UNIT * UNIT)),
        0 <= v * s <= UNIT * UNIT,
{
    let unit = UNIT as int;
    let c = v * s;
    assert(0 <= c <= v * unit) by (nonlinear_arith)
        requires
            c == v * s,
            0 <= s <= unit,
            0 <= v,
    ;
    assert(v * unit <= unit * unit) by (nonlinear_arith)
        requires
            0 <= v <= unit,
    ;
    assert(0 <= c * w <= 60 * c) by (nonlinear_arith)
        requires
            0 <= c,
            0 <= w <= 60,
    ;
}

/// A channel of an HSV colour is a channel.
pub proof fn lemma_hsv_channel_range(n: int, h: int, s: int, v: int)
    requires
        is_proportion(s),
        is_proportion(v),
    ensures
        is_channel(hsv_channel(n, h, s, v)),
{
    let w = hsv_weight(n, h);
    lemma_hsv_channel_numerator(s, v, w);
    assert(60 * (UNIT * UNIT) > 0) by (nonlinear_arith);
    lemma_round_div_bounded(255 * (60 * (v * UNIT) - (v * s) * w), 60 * (UNIT * UNIT), 255);
}

} // verus!
