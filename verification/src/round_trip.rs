//! An RGB colour taken to HSV or HSL and back.
//!
//! The only loss worth the name is the rounding of the hue to a whole
//! degree: the largest and the smallest channel come back as they were, and
//! the third moves by what that rounding is worth.
use crate::formulas::{
    channel_max, channel_min, hsl_weight, hsv_weight, rgb_hue, rgb_hue_numerator,
};
use crate::model::{is_channel, ColourModel};
use crate::percentage_f32::UNIT;
use crate::ranges::{lemma_rgb_hue_numerator, lemma_rgb_hue_range};
use crate::rounding::{
    lemma_round_div_at_least, lemma_round_div_at_most, lemma_round_div_nearest,
    lemma_round_div_unique, lemma_round_div_within, round_div,
};
use vstd::math::{abs, min};
use vstd::prelude::*;

verus! {

/// How far the rounding of the hue to a whole degree moves the colour, in
/// sixtieths of a channel step: the distance between the rounded hue and
/// the exact one, times the spread of the channels. It is at most half the
/// spread.
pub open spec fn hue_error(r: int, g: int, b: int) -> int {
    let spread = channel_max(r, g, b) - channel_min(r, g, b);
    if spread == 0 {
        0
    } else {
        let numerator = rgb_hue_numerator(r, g, b);
        abs(round_div(numerator, spread) * spread - numerator) as int
    }
}

/// The rounding of the hue is worth at most half the spread of the
/// channels.
pub proof fn lemma_hue_error_bound(r: int, g: int, b: int)
    requires
        is_channel(r),
        is_channel(g),
        is_channel(b),
    ensures
        0 <= 2 * hue_error(r, g, b) <= channel_max(r, g, b) - channel_min(r, g, b),
{
    let spread = channel_max(r, g, b) - channel_min(r, g, b);
    if spread > 0 {
        lemma_round_div_nearest(rgb_hue_numerator(r, g, b), spread);
    }
}

/// Whether the weight `w`, in sixtieths, takes the largest channel of a
/// colour to the channel `c`: up to the rounding of the hue, and exactly
/// where `c` is the largest or the smallest channel.
spec fn weight_fits(r: int, g: int, b: int, c: int, w: int) -> bool {
    let high = channel_max(r, g, b);
    let low = channel_min(r, g, b);
    &&& 0 <= w <= 60
    &&& abs(60 * (high - c) - (high - low) * w) <= hue_error(r, g, b)
    &&& c == high || c == low ==> 60 * (high - c) == (high - low) * w
}

/// The remainder by 360 of a number under two full turns.
proof fn lemma_wrap(x: int)
    requires
        0 <= x < 720,
    ensures
        x % 360 == if x < 360 {
            x
        } else {
            x - 360
        },
{
}

/// The weight of a channel in the HSV formula as a function of the hue,
/// and the weight of the same channel in the HSL formula, which is 30
/// less. The offsets of one channel in the two formulas are `n` and
/// `(2 * n + 2) % 12`.
proof fn lemma_weight_at(n: int, h: int)
    requires
        n == 1 || n == 3 || n == 5,
        0 <= h < 360,
    ensures
        hsv_weight(n, h) == ({
            let k = if 60 * n + h < 360 {
                60 * n + h
            } else {
                60 * n + h - 360
            };
            if k >= 240 {
                0
            } else if k <= 60 {
                k
            } else if k <= 180 {
                60
            } else {
                240 - k
            }
        }),
        hsl_weight((2 * n + 2) % 12, h) + 30 == hsv_weight(n, h),
{
    lemma_wrap(60 * n + h);
    lemma_wrap(30 * ((2 * n + 2) % 12) + h);
}

/// The weights of the three channels at the hue of `q % 360` degrees, for
/// `q` in each sixth of the circle, the full turn included. The weight of a
/// channel in the HSL formula is 30 less than in the HSV formula.
proof fn lemma_weights_by_sector(q: int)
    requires
        0 <= q <= 360,
    ensures
        hsl_weight(0, q % 360) + 30 == hsv_weight(5, q % 360),
        hsl_weight(8, q % 360) + 30 == hsv_weight(3, q % 360),
        hsl_weight(4, q % 360) + 30 == hsv_weight(1, q % 360),
        hsv_weight(5, q % 360) == if q <= 60 || q >= 300 {
            0
        } else if q <= 120 {
            q - 60
        } else if q <= 240 {
            60
        } else {
            300 - q
        },
        hsv_weight(3, q % 360) == if q <= 60 {
            60 - q
        } else if q <= 180 {
            0
        } else if q <= 240 {
            q - 180
        } else {
            60
        },
        hsv_weight(1, q % 360) == if q <= 120 {
            60
        } else if q <= 180 {
            180 - q
        } else if q <= 300 {
            0
        } else {
            q - 300
        },
{
    lemma_wrap(q);
    let h = q % 360;
    lemma_weight_at(5, h);
    lemma_weight_at(3, h);
    lemma_weight_at(1, h);
}

/// At the hue of an RGB colour, the weight of each channel in the HSV
/// formula takes the largest channel to that channel up to the rounding of
/// the hue, and the weight in the HSL formula is 30 less.
proof fn lemma_weights_fit(r: int, g: int, b: int)
    requires
        is_channel(r),
        is_channel(g),
        is_channel(b),
    ensures
        weight_fits(r, g, b, r, hsv_weight(5, rgb_hue(r, g, b))),
        weight_fits(r, g, b, g, hsv_weight(3, rgb_hue(r, g, b))),
        weight_fits(r, g, b, b, hsv_weight(1, rgb_hue(r, g, b))),
        hsl_weight(0, rgb_hue(r, g, b)) + 30 == hsv_weight(5, rgb_hue(r, g, b)),
        hsl_weight(8, rgb_hue(r, g, b)) + 30 == hsv_weight(3, rgb_hue(r, g, b)),
        hsl_weight(4, rgb_hue(r, g, b)) + 30 == hsv_weight(1, rgb_hue(r, g, b)),
{
    let high = channel_max(r, g, b);
    let low = channel_min(r, g, b);
    let spread = high - low;
    if spread > 0 {
        let numerator = rgb_hue_numerator(r, g, b);
        let q = round_div(numerator, spread);
        lemma_rgb_hue_range(r, g, b);
        lemma_rgb_hue_numerator(r, g, b);
        lemma_round_div_nearest(numerator, spread);
        lemma_sector(numerator, spread, 0);
        lemma_sector(numerator, spread, 60);
        lemma_sector(numerator, spread, 120);
        lemma_sector(numerator, spread, 180);
        lemma_sector(numerator, spread, 240);
        lemma_sector(numerator, spread, 300);
        lemma_sector(numerator, spread, 360);
        lemma_weights_by_sector(q);
        let t5 = hsv_weight(5, q % 360);
        let t3 = hsv_weight(3, q % 360);
        let t1 = hsv_weight(1, q % 360);
        assert(spread * (q - 60) == q * spread - 60 * spread) by (nonlinear_arith);
        assert(spread * (q - 180) == q * spread - 180 * spread) by (nonlinear_arith);
        assert(spread * (q - 300) == q * spread - 300 * spread) by (nonlinear_arith);
        assert(spread * (60 - q) == 60 * spread - q * spread) by (nonlinear_arith);
        assert(spread * (180 - q) == 180 * spread - q * spread) by (nonlinear_arith);
        assert(spread * (300 - q) == 300 * spread - q * spread) by (nonlinear_arith);
        assert(spread * 60 == 60 * spread);
        assert(spread * 0 == 0);
    } else {
        lemma_weights_by_sector(0);
        assert(spread * hsv_weight(5, 0) == 0) by (nonlinear_arith)
            requires
                spread == 0,
        ;
        assert(spread * hsv_weight(3, 0) == 0) by (nonlinear_arith)
            requires
                spread == 0,
        ;
        assert(spread * hsv_weight(1, 0) == 0) by (nonlinear_arith)
            requires
                spread == 0,
        ;
    }
}

/// A quotient `n / d` that is, up to an error well under a sixtieth, the
/// number `a / 60`, rounds to within `k` of `c` where `a` is within
/// `60 * k + 29` of `60 * c`. The quotient is given scaled by `m`: `m * n`
/// is `y * a + e` with `60 * y == d * m` and `|e| < y`.
proof fn lemma_rounds_near(n: int, d: int, m: int, y: int, a: int, e: int, c: int, k: int)
    requires
        d > 0,
        m > 0,
        y > 0,
        d * m == 60 * y,
        m * n == y * a + e,
        -y < e < y,
        -(60 * k + 29) <= a - 60 * c <= 60 * k + 29,
    ensures
        c - k <= round_div(n, d) <= c + k,
{
    let above = 2 * (c + k) + 1;
    let below = 2 * (c - k) - 1;
    assert(m * (above * d) == (60 * above) * y) by (nonlinear_arith)
        requires
            d * m == 60 * y,
    ;
    assert(m * (below * d) == (60 * below) * y) by (nonlinear_arith)
        requires
            d * m == 60 * y,
    ;
    assert(m * (2 * n) == (2 * a) * y + 2 * e) by (nonlinear_arith)
        requires
            m * n == y * a + e,
    ;
    assert((2 * a) * y <= (60 * above - 2) * y) by (nonlinear_arith)
        requires
            y > 0,
            2 * a <= 60 * above - 2,
    ;
    assert((60 * above - 2) * y == (60 * above) * y - 2 * y) by (nonlinear_arith);
    assert((60 * below + 2) * y <= (2 * a) * y) by (nonlinear_arith)
        requires
            y > 0,
            60 * below + 2 <= 2 * a,
    ;
    assert((60 * below + 2) * y == (60 * below) * y + 2 * y) by (nonlinear_arith);
    assert(m * (below * d) <= m * (2 * n) < m * (above * d));
    assert(below * d <= 2 * n < above * d) by (nonlinear_arith)
        requires
            m > 0,
            m * (below * d) <= m * (2 * n) < m * (above * d),
    ;
    lemma_round_div_within(n, d, c - k, c + k);
}

/// `z * (60 * a - b * w)` written out.
proof fn lemma_scaled_difference(z: int, a: int, b: int, w: int)
    by (nonlinear_arith)
    ensures
        60 * (z * a) - (z * b) * w == z * (60 * a - b * w),
{
}

/// A product is bounded by the product of the bounds of its factors.
proof fn lemma_product_bound(p: int, p_bound: int, q: int, q_bound: int)
    by (nonlinear_arith)
    requires
        -p_bound <= p <= p_bound,
        -q_bound <= q <= q_bound,
    ensures
        -(p_bound * q_bound) <= p * q <= p_bound * q_bound,
{
}

/// The channel that the HSV formula gives for the weight `w`, from the
/// saturation and value of an RGB colour whose largest and smallest
/// channels are `high` and `low`, is within `k` of `c` where
/// `60 * (high - c)` is within `60 * k + 29` of `(high - low) * w`.
proof fn lemma_hsv_channel_near(high: int, low: int, w: int, c: int, k: int)
    requires
        0 <= low <= high <= 255,
        0 <= w <= 60,
        -(60 * k + 29) <= 60 * (high - c) - (high - low) * w <= 60 * k + 29,
    ensures
        ({
            let v = round_div(UNIT * high, 255);
            let s = if high == 0 {
                0
            } else {
                round_div(UNIT * (high - low), high)
            };
            c - k <= round_div(255 * (60 * (v * UNIT) - (v * s) * w), 60 * (UNIT * UNIT)) <= c
                + k
        }),
{
    let u = UNIT as int;
    let x = u * u;
    let spread = high - low;
    let v = round_div(u * high, 255);
    let s = if high == 0 {
        0
    } else {
        round_div(u * spread, high)
    };
    let n = 255 * (60 * (v * u) - (v * s) * w);
    let d = 60 * x;
    assert(x == 0x1_0000_0000_0000) by (nonlinear_arith)
        requires
            x == u * u,
            u == 0x100_0000,
    ;
    if high == 0 {
        assert(u * high == 0);
        lemma_round_div_unique(0, 255, 0);
        assert(spread * w == 0) by (nonlinear_arith)
            requires
                spread == 0,
        ;
        assert(n == 0) by (nonlinear_arith)
            requires
                n == 255 * (60 * (v * u) - (v * s) * w),
                v == 0,
        ;
        lemma_round_div_unique(0, d, 0);
    } else {
        let a = 60 * high - spread * w;
        lemma_round_div_nearest(u * high, 255);
        lemma_round_div_nearest(u * spread, high);
        let ev = v * 255 - u * high;
        let es = s * high - u * spread;
        let f = es * w;
        let t1 = high * f;
        let t2 = ev * a;
        let t3 = ev * f;
        let e = u * (t2 - t1) - t3;
        assert(0 <= spread * w <= 60 * spread) by (nonlinear_arith)
            requires
                0 <= spread,
                0 <= w <= 60,
        ;
        lemma_product_bound(es, 127, w, 60);
        lemma_product_bound(high, 255, f, 7620);
        lemma_product_bound(ev, 127, a, 15300);
        lemma_product_bound(ev, 127, f, 7620);
        let p = v * 255;
        let r = u * high;
        let q = s * high;
        let us = u * spread;
        assert(p == r + ev && q == us + es);
        assert(high * (255 * (60 * (v * u) - (v * s) * w)) == 60 * ((v * 255) * (u * high)) - ((v
            * 255) * (s * high)) * w) by (nonlinear_arith);
        assert(high * n == 60 * (p * r) - (p * q) * w);
        assert((r + ev) * r == r * r + ev * r) by (nonlinear_arith);
        assert((r + ev) * (us + es) == r * us + r * es + ev * us + ev * es) by (nonlinear_arith);
        assert((r * us + r * es + ev * us + ev * es) * w == (r * us) * w + (r * es) * w + (ev
            * us) * w + (ev * es) * w) by (nonlinear_arith);
        lemma_scaled_difference(x * high, high, spread, w);
        assert((u * high) * (u * high) == (x * high) * high && (u * high) * (u * spread) == (x
            * high) * spread) by (nonlinear_arith)
            requires
                x == u * u,
        ;
        lemma_scaled_difference(ev, u * high, u * spread, w);
        lemma_scaled_difference(u, high, spread, w);
        assert(ev * (u * a) == u * (ev * a)) by (nonlinear_arith);
        assert(((u * high) * es) * w == u * (high * (es * w))) by (nonlinear_arith);
        assert((ev * es) * w == ev * (es * w)) by (nonlinear_arith);
        assert(u * (t2 - t1) == u * t2 - u * t1) by (nonlinear_arith);
        assert(high * n == (x * high) * a + e);
        assert(x <= x * high) by (nonlinear_arith)
            requires
                x > 0,
                high >= 1,
        ;
        assert(d * high == 60 * (x * high)) by (nonlinear_arith)
            requires
                d == 60 * x,
        ;
        lemma_rounds_near(n, d, high, x * high, a, e, c, k);
    }
}

/// The channel that the HSL formula gives for the weight `w`, from the
/// saturation and luminosity of an RGB colour whose largest and smallest
/// channels are `high` and `low`, is within `k` of `c` where `60 * c` is
/// within `60 * k + 29` of `30 * (high + low) - (high - low) * w`.
proof fn lemma_hsl_channel_near(high: int, low: int, w: int, c: int, k: int)
    requires
        0 <= low <= high <= 255,
        -30 <= w <= 30,
        -(60 * k + 29) <= 30 * (high + low) - (high - low) * w - 60 * c <= 60 * k + 29,
    ensures
        ({
            let l = round_div(UNIT * (high + low), 510);
            let s = if high == low {
                0
            } else {
                round_div(UNIT * (high - low), min(high + low, 510 - (high + low)))
            };
            c - k <= round_div(
                255 * (30 * (l * UNIT) - (s * min(l, UNIT - l)) * w),
                30 * (UNIT * UNIT),
            ) <= c + k
        }),
{
    let u = UNIT as int;
    let x = u * u;
    let spread = high - low;
    let sum = high + low;
    let base = min(sum, 510 - sum);
    let l = round_div(u * sum, 510);
    let s = if high == low {
        0
    } else {
        round_div(u * spread, base)
    };
    let m = min(l, u - l);
    let n = 255 * (30 * (l * u) - (s * m) * w);
    let d = 30 * x;
    let a = 30 * sum - spread * w;
    assert(x == 0x1_0000_0000_0000) by (nonlinear_arith)
        requires
            x == u * u,
            u == 0x100_0000,
    ;
    lemma_round_div_nearest(u * sum, 510);
    let el = l * 510 - u * sum;
    if spread == 0 {
        let e = 30 * (u * el);
        assert(spread * w == 0) by (nonlinear_arith)
            requires
                spread == 0,
        ;
        assert((s * m) * w == 0) by (nonlinear_arith)
            requires
                s == 0,
        ;
        assert(2 * (255 * (30 * (l * u))) == 30 * ((l * 510) * u)) by (nonlinear_arith);
        assert((u * sum + el) * u == (u * u) * sum + u * el) by (nonlinear_arith);
        assert(2 * n == x * a + e);
        lemma_rounds_near(n, d, 2, x, a, e, c, k);
    } else {
        lemma_round_div_nearest(u * spread, base);
        let es = s * base - u * spread;
        let em = m * 510 - u * base;
        if sum == 255 {
            lemma_round_div_unique(u * sum, 510, u / 2);
        }
        assert(em == el || em == -el);
        let t1 = base * el;
        let t2 = (spread * em) * w;
        let t3 = (es * base) * w;
        let t4 = (es * em) * w;
        let e = 255 * (u * (30 * t1 - t2 - t3) - t4);
        let y = 255 * (x * base);
        lemma_product_bound(base, 255, el, 255);
        lemma_product_bound(spread, 255, em, 255);
        lemma_product_bound(spread * em, 65025, w, 30);
        lemma_product_bound(es, 127, base, 255);
        lemma_product_bound(es * base, 32385, w, 30);
        lemma_product_bound(es, 127, em, 255);
        lemma_product_bound(es * em, 32385, w, 30);
        let p = l * 510;
        let q = s * base;
        let t = m * 510;
        let r = u * sum;
        let us = u * spread;
        let ub = u * base;
        assert(p == r + el && q == us + es && t == ub + em);
        assert((510 * base) * (255 * (30 * (l * u) - (s * m) * w)) == 255 * (30 * (base * ((l
            * 510) * u)) - ((s * base) * (m * 510)) * w)) by (nonlinear_arith);
        assert((510 * base) * n == 255 * (30 * (base * (p * u)) - (q * t) * w));
        assert((r + el) * u == r * u + el * u) by (nonlinear_arith);
        assert((us + es) * (ub + em) == us * ub + us * em + es * ub + es * em)
            by (nonlinear_arith);
        assert((us * ub + us * em + es * ub + es * em) * w == (us * ub) * w + (us * em) * w + (es
            * ub) * w + (es * em) * w) by (nonlinear_arith);
        assert(base * (r * u + el * u) == base * (r * u) + base * (el * u)) by (nonlinear_arith);
        assert(base * ((u * sum) * u) == ((u * u) * base) * sum) by (nonlinear_arith);
        assert(((u * spread) * (u * base)) * w == ((u * u) * base) * (spread * w))
            by (nonlinear_arith);
        assert(30 * ((x * base) * sum) - (x * base) * (spread * w) == (x * base) * (30 * sum
            - spread * w)) by (nonlinear_arith);
        assert(base * (el * u) == u * (base * el)) by (nonlinear_arith);
        assert(((u * spread) * em) * w == u * ((spread * em) * w)) by (nonlinear_arith);
        assert((es * (u * base)) * w == u * ((es * base) * w)) by (nonlinear_arith);
        assert(u * (30 * t1 - t2 - t3) == 30 * (u * t1) - u * t2 - u * t3) by (nonlinear_arith);
        assert(y * a == 255 * ((x * base) * a)) by (nonlinear_arith)
            requires
                y == 255 * (x * base),
        ;
        assert((510 * base) * n == y * a + e);
        assert(x <= x * base) by (nonlinear_arith)
            requires
                x > 0,
                base >= 1,
        ;
        assert(d * (510 * base) == 60 * y) by (nonlinear_arith)
            requires
                d == 30 * x,
                y == 255 * (x * base),
        ;
        lemma_rounds_near(n, d, 510 * base, y, a, e, c, k);
    }
}

/// Whether two channels differ by at most `k`.
pub open spec fn within(after: int, before: int, k: int) -> bool {
    -k <= after - before <= k
}

/// Whether each channel of `after` is within `k` of the channel of
/// `before`, and a channel that was the largest or the smallest of
/// `before` is unchanged.
pub open spec fn comes_back(after: ColourModel, before: ColourModel, k: int) -> bool {
    let high = channel_max(before->red, before->green, before->blue);
    let low = channel_min(before->red, before->green, before->blue);
    &&& after is RGB
    &&& before is RGB
    &&& within(after->red, before->red, k)
    &&& within(after->green, before->green, k)
    &&& within(after->blue, before->blue, k)
    &&& before->red == high || before->red == low ==> after->red == before->red
    &&& before->green == high || before->green == low ==> after->green == before->green
    &&& before->blue == high || before->blue == low ==> after->blue == before->blue
}

/// How far a channel can be from where it was after a round trip: the
/// rounding of the hue in sixtieths of a channel step, rounded to whole
/// steps.
pub open spec fn round_trip_slack(r: int, g: int, b: int) -> int {
    (hue_error(r, g, b) + 30) / 60
}

/// The slack of a round trip is at most 2, at most 1 for a colour whose
/// channels spread over less than 180, and 0 where they spread over less
/// than 60.
pub proof fn lemma_round_trip_slack(r: int, g: int, b: int)
    requires
        is_channel(r),
        is_channel(g),
        is_channel(b),
    ensures
        0 <= round_trip_slack(r, g, b) <= 2,
        channel_max(r, g, b) - channel_min(r, g, b) < 180 ==> round_trip_slack(r, g, b) <= 1,
        channel_max(r, g, b) - channel_min(r, g, b) < 60 ==> round_trip_slack(r, g, b) == 0,
{
    lemma_hue_error_bound(r, g, b);
}

/// From RGB to HSV and back: each channel returns to within the slack of
/// the rounded hue, and the largest and the smallest channel return
/// unchanged.
pub proof fn lemma_rgb_hsv_rgb(r: int, g: int, b: int)
    requires
        is_channel(r),
        is_channel(g),
        is_channel(b),
    ensures
        comes_back(
            (ColourModel::RGB { red: r, green: g, blue: b }).as_hsv().as_rgb(),
            ColourModel::RGB { red: r, green: g, blue: b },
            round_trip_slack(r, g, b),
        ),
{
    let high = channel_max(r, g, b);
    let low = channel_min(r, g, b);
    let h = rgb_hue(r, g, b);
    let k = round_trip_slack(r, g, b);
    lemma_weights_fit(r, g, b);
    lemma_hue_error_bound(r, g, b);
    lemma_hsv_channel_near(high, low, hsv_weight(5, h), r, k);
    lemma_hsv_channel_near(high, low, hsv_weight(3, h), g, k);
    lemma_hsv_channel_near(high, low, hsv_weight(1, h), b, k);
    if r == high || r == low {
        lemma_hsv_channel_near(high, low, hsv_weight(5, h), r, 0);
    }
    if g == high || g == low {
        lemma_hsv_channel_near(high, low, hsv_weight(3, h), g, 0);
    }
    if b == high || b == low {
        lemma_hsv_channel_near(high, low, hsv_weight(1, h), b, 0);
    }
}

/// From RGB to HSV and back, every channel returns to within 2 of where it
/// was.
pub proof fn lemma_rgb_hsv_rgb_within_two(r: int, g: int, b: int)
    requires
        is_channel(r),
        is_channel(g),
        is_channel(b),
    ensures
        comes_back(
            (ColourModel::RGB { red: r, green: g, blue: b }).as_hsv().as_rgb(),
            ColourModel::RGB { red: r, green: g, blue: b },
            2,
        ),
{
    lemma_rgb_hsv_rgb(r, g, b);
    lemma_round_trip_slack(r, g, b);
}

/// From RGB to HSV and back, every channel returns to within 1 of where it
/// was, for a colour whose hue is rounded by less than 90 sixtieths of a
/// channel step. Every colour whose channels spread over less than 180 is
/// one.
pub proof fn lemma_rgb_hsv_rgb_within_one(r: int, g: int, b: int)
    requires
        is_channel(r),
        is_channel(g),
        is_channel(b),
        hue_error(r, g, b) < 90,
    ensures
        comes_back(
            (ColourModel::RGB { red: r, green: g, blue: b }).as_hsv().as_rgb(),
            ColourModel::RGB { red: r, green: g, blue: b },
            1,
        ),
{
    lemma_rgb_hsv_rgb(r, g, b);
    lemma_hue_error_bound(r, g, b);
}

/// From RGB to HSL and back: each channel returns to within the slack of
/// the rounded hue, and the largest and the smallest channel return
/// unchanged.
pub proof fn lemma_rgb_hsl_rgb(r: int, g: int, b: int)
    requires
        is_channel(r),
        is_channel(g),
        is_channel(b),
    ensures
        comes_back(
            (ColourModel::RGB { red: r, green: g, blue: b }).as_hsl().as_rgb(),
            ColourModel::RGB { red: r, green: g, blue: b },
            round_trip_slack(r, g, b),
        ),
{
    let high = channel_max(r, g, b);
    let low = channel_min(r, g, b);
    let spread = high - low;
    let h = rgb_hue(r, g, b);
    let k = round_trip_slack(r, g, b);
    lemma_weights_fit(r, g, b);
    lemma_hue_error_bound(r, g, b);
    let wr = hsl_weight(0, h);
    let wg = hsl_weight(8, h);
    let wb = hsl_weight(4, h);
    assert(spread * (wr + 30) == spread * wr + 30 * spread) by (nonlinear_arith);
    assert(spread * (wg + 30) == spread * wg + 30 * spread) by (nonlinear_arith);
    assert(spread * (wb + 30) == spread * wb + 30 * spread) by (nonlinear_arith);
    lemma_hsl_channel_near(high, low, wr, r, k);
    lemma_hsl_channel_near(high, low, wg, g, k);
    lemma_hsl_channel_near(high, low, wb, b, k);
    if r == high || r == low {
        lemma_hsl_channel_near(high, low, wr, r, 0);
    }
    if g == high || g == low {
        lemma_hsl_channel_near(high, low, wg, g, 0);
    }
    if b == high || b == low {
        lemma_hsl_channel_near(high, low, wb, b, 0);
    }
}

/// From RGB to HSL and back, every channel returns to within 2 of where it
/// was.
pub proof fn lemma_rgb_hsl_rgb_within_two(r: int, g: int, b: int)
    requires
        is_channel(r),
        is_channel(g),
        is_channel(b),
    ensures
        comes_back(
            (ColourModel::RGB { red: r, green: g, blue: b }).as_hsl().as_rgb(),
            ColourModel::RGB { red: r, green: g, blue: b },
            2,
        ),
{
    lemma_rgb_hsl_rgb(r, g, b);
    lemma_round_trip_slack(r, g, b);
}

/// From RGB to HSL and back, every channel returns to within 1 of where it
/// was, for a colour whose hue is rounded by less than 90 sixtieths of a
/// channel step. Every colour whose channels spread over less than 180 is
/// one.
pub proof fn lemma_rgb_hsl_rgb_within_one(r: int, g: int, b: int)
    requires
        is_channel(r),
        is_channel(g),
        is_channel(b),
        hue_error(r, g, b) < 90,
    ensures
        comes_back(
            (ColourModel::RGB { red: r, green: g, blue: b }).as_hsl().as_rgb(),
            ColourModel::RGB { red: r, green: g, blue: b },
            1,
        ),
{
    lemma_rgb_hsl_rgb(r, g, b);
    lemma_hue_error_bound(r, g, b);
}

/// A rounded quotient lies on the same side of a whole number `k` as the
/// quotient itself.
proof fn lemma_sector(n: int, d: int, k: int)
    requires
        d > 0,
    ensures
        k * d <= n ==> k <= round_div(n, d),
        n <= k * d ==> round_div(n, d) <= k,
{
    if k * d <= n {
        lemma_round_div_at_least(n, d, k);
    }
    if n <= k * d {
        lemma_round_div_at_most(n, d, k);
    }
}

} // verus!
