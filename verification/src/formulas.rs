//! The conversion formulas on plain integers.
//!
//! A channel is an integer from 0 to 255, a hue a whole number of degrees,
//! and a proportion a count of steps of `1 / UNIT`. Each formula gives the
//! nearest such integer to the real-valued textbook expression.
use crate::percentage_f32::UNIT;
use crate::rounding::round_div;
use vstd::math::{max, min};
use vstd::prelude::*;

verus! {

/// The largest of three channels.
pub open spec fn channel_max(r: int, g: int, b: int) -> int {
    max(r, max(g, b))
}

/// The smallest of three channels.
pub open spec fn channel_min(r: int, g: int, b: int) -> int {
    min(r, min(g, b))
}

/// `x` held between `low` and `high`.
pub open spec fn clamp(x: int, low: int, high: int) -> int {
    max(low, min(x, high))
}

/// Sixty times the position of a colour on the wheel of six sectors, as a
/// numerator over the spread `max - min` of its channels. The sector is
/// chosen by the first channel, in the order red, green, blue, that equals
/// the maximum. On the red sector the position is taken modulo six,
/// floored, so that it is never negative.
pub open spec fn rgb_hue_numerator(r: int, g: int, b: int) -> int {
    let high = channel_max(r, g, b);
    let spread = high - channel_min(r, g, b);
    if high == r {
        (60 * (g - b)) % (360 * spread)
    } else if high == g {
        60 * (b - r) + 120 * spread
    } else {
        60 * (r - g) + 240 * spread
    }
}

/// The hue of an RGB colour in degrees: zero for a grey, else the position
/// on the wheel rounded to a whole degree and wrapped into `[0, 360)`.
pub open spec fn rgb_hue(r: int, g: int, b: int) -> int {
    let spread = channel_max(r, g, b) - channel_min(r, g, b);
    if spread == 0 {
        0
    } else {
        round_div(rgb_hue_numerator(r, g, b), spread) % 360
    }
}

/// The HSV saturation of an RGB colour: `(max - min) / max`, and zero for
/// black.
pub open spec fn rgb_hsv_saturation(r: int, g: int, b: int) -> int {
    let high = channel_max(r, g, b);
    if high == 0 {
        0
    } else {
        round_div(UNIT * (high - channel_min(r, g, b)), high)
    }
}

/// The HSV value of an RGB colour: `max / 255`.
pub open spec fn rgb_hsv_value(r: int, g: int, b: int) -> int {
    round_div(UNIT * channel_max(r, g, b), 255)
}

/// The HSL luminosity of an RGB colour: `(max + min) / 2`, each channel
/// taken as a proportion of 255.
pub open spec fn rgb_hsl_luminosity(r: int, g: int, b: int) -> int {
    round_div(UNIT * (channel_max(r, g, b) + channel_min(r, g, b)), 510)
}

/// The HSL saturation of an RGB colour: `(max - min) / (1 - |2l - 1|)`
/// with `l` the luminosity, and zero for a grey.
pub open spec fn rgb_hsl_saturation(r: int, g: int, b: int) -> int {
    let high = channel_max(r, g, b);
    let low = channel_min(r, g, b);
    if high == low {
        0
    } else {
        round_div(UNIT * (high - low), min(high + low, 510 - (high + low)))
    }
}

/// The HSV value of an HSL colour: `l + s * max(l, 1 - l)`. The result may
/// be more than one.
pub open spec fn hsl_hsv_value(s: int, l: int) -> int {
    round_div(l * UNIT + s * max(l, UNIT - l), UNIT as int)
}

/// The HSV saturation of an HSL colour: `2 * (1 - l / v)` with `v` the
/// value of [`hsl_hsv_value`], and zero where `v` is zero. The result may
/// be more than one.
pub open spec fn hsl_hsv_saturation(s: int, l: int) -> int {
    let v = hsl_hsv_value(s, l);
    if v == 0 {
        0
    } else {
        round_div(2 * UNIT * (v - l), v)
    }
}

/// The HSL luminosity of an HSV colour: `v * (1 - s / 2)`.
pub open spec fn hsv_hsl_luminosity(s: int, v: int) -> int {
    round_div(v * (2 * UNIT - s), 2 * UNIT)
}

/// The HSL saturation of an HSV colour: `(v - l) / min(l, 1 - l)` with `l`
/// the luminosity of [`hsv_hsl_luminosity`], and zero where `v` is zero or
/// one.
pub open spec fn hsv_hsl_saturation(s: int, v: int) -> int {
    let l = hsv_hsl_luminosity(s, v);
    if v == 0 || v == UNIT {
        0
    } else {
        round_div(UNIT * (v - l), min(l, UNIT - l))
    }
}

/// Thirty times the weight `clamp(min(k - 3, 9 - k), -1, 1)` of the
/// chroma in a channel of an HSL colour, where `k = (n + h / 30) mod 12`.
pub open spec fn hsl_weight(n: int, h: int) -> int {
    let k = (30 * n + h) % 360;
    clamp(min(k - 90, 270 - k), -30, 30)
}

/// A channel of an HSL colour: `255 * (l - a * w)`, where
/// `a = s * min(l, 1 - l)` and `w` is the weight of [`hsl_weight`]. The
/// offset `n` is 0 for red, 8 for green and 4 for blue.
pub open spec fn hsl_channel(n: int, h: int, s: int, l: int) -> int {
    round_div(
        255 * (30 * (l * UNIT) - (s * min(l, UNIT - l)) * hsl_weight(n, h)),
        30 * (UNIT * UNIT),
    )
}

/// Sixty times the weight `clamp(min(k, 4 - k), 0, 1)` of the chroma in a
/// channel of an HSV colour, where `k = (n + h / 60) mod 6`.
pub open spec fn hsv_weight(n: int, h: int) -> int {
    let k = (60 * n + h) % 360;
    clamp(min(k, 240 - k), 0, 60)
}

/// A channel of an HSV colour: `255 * (v - v * s * w)`, where `w` is the
/// weight of [`hsv_weight`]. The offset `n` is 5 for red, 3 for green and
/// 1 for blue.
pub open spec fn hsv_channel(n: int, h: int, s: int, v: int) -> int {
    round_div(255 * (60 * (v * UNIT) - (v * s) * hsv_weight(n, h)), 60 * (UNIT * UNIT))
}

} // verus!
