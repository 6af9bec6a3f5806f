//! Colours and their conversions.
use crate::circle_degrees::CircleDegrees;
use crate::formulas::{
    channel_max, channel_min, hsl_channel, hsl_hsv_value, hsv_channel, hsv_hsl_luminosity,
    hsv_hsl_saturation, rgb_hsl_luminosity, rgb_hsl_saturation, rgb_hsv_saturation,
    rgb_hsv_value, rgb_hue,
};
use crate::model::{is_hue, is_proportion, ColourModel};
use crate::percentage_f32::{PercentageF32, UNIT};
use crate::ranges::{
    lemma_hsl_channel_numerator, lemma_hsl_channel_range, lemma_hsl_hsv_value_range,
    lemma_hsv_channel_numerator, lemma_hsv_channel_range, lemma_hsv_hsl_luminosity_range,
    lemma_rgb_hue_numerator, lemma_rgb_hue_range,
};
use crate::rounding::{div_round, lemma_round_div_at_most, lemma_round_div_bounded, round_div};
use vstd::math::min;
use vstd::prelude::*;

verus! {

/// A colour, held in the space it was given in.
#[non_exhaustive]
#[derive(Clone, Copy, Debug)]
pub enum Colour {
    HSL { hue: CircleDegrees, saturation: PercentageF32, luminosity: PercentageF32 },
    HSV { hue: CircleDegrees, saturation: PercentageF32, value: PercentageF32 },
    RGB { red: u8, green: u8, blue: u8 },
    CIELAB { l_star: PercentageF32, a_star: i8, b_star: i8 },
    XYZ { x: i8, y: i8, z: i8 },
    LMS { l: u8, m: u8, s: u8 },
}

impl View for Colour {
    type V = ColourModel;

    open spec fn view(&self) -> ColourModel {
        match *self {
            Colour::HSL { hue, saturation, luminosity } => ColourModel::HSL {
                hue: hue@,
                saturation: saturation@,
                luminosity: luminosity@,
            },
            Colour::HSV { hue, saturation, value } => ColourModel::HSV {
                hue: hue@,
                saturation: saturation@,
                value: value@,
            },
            Colour::RGB { red, green, blue } => ColourModel::RGB {
                red: red as int,
                green: green as int,
                blue: blue as int,
            },
            Colour::CIELAB { l_star, a_star, b_star } => ColourModel::CIELAB {
                l_star: l_star@,
                a_star: a_star as int,
                b_star: b_star as int,
            },
            Colour::XYZ { x, y, z } => ColourModel::XYZ { x: x as int, y: y as int, z: z as int },
            Colour::LMS { l, m, s } => ColourModel::LMS { l: l as int, m: m as int, s: s as int },
        }
    }
}

/// The proportion nearest to `n / d`, for a quotient that is at most one.
fn proportion(n: u128, d: u128) -> (out: PercentageF32)
    requires
        d > 0,
        n <= UNIT * d,
    ensures
        out@ == round_div(n as int, d as int),
{
    let steps = div_round(n, d);
    proof {
        lemma_round_div_bounded(n as int, d as int, UNIT as int);
    }
    PercentageF32::new_or_panic(steps as u32)
}

/// The count of steps that stands for the whole number `k`.
fn steps(k: u128) -> (out: u128)
    requires
        k <= u64::MAX,
    ensures
        out == UNIT * k,
{
    assert(UNIT * k <= 0x100_0000 * 0xffff_ffff_ffff_ffff) by (nonlinear_arith)
        requires
            UNIT == 0x100_0000,
            0 <= k <= 0xffff_ffff_ffff_ffff,
    ;
    UNIT as u128 * k
}

/// The largest and the smallest of three channels.
fn channel_extremes(red: u8, green: u8, blue: u8) -> (out: (u8, u8))
    ensures
        out.0 == channel_max(red as int, green as int, blue as int),
        out.1 == channel_min(red as int, green as int, blue as int),
{
    let high = if red >= green && red >= blue {
        red
    } else if green >= blue {
        green
    } else {
        blue
    };
    let low = if red <= green && red <= blue {
        red
    } else if green <= blue {
        green
    } else {
        blue
    };
    (high, low)
}

impl Colour {
    /// The RGB colour packed in the low 24 bits of `from`: red in the top
    /// byte of the three, then green, then blue. Higher bits are ignored.
    pub fn from_hex(from: u32) -> (out: Self)
        ensures
            out@ == (ColourModel::RGB {
                red: (from as int / 0x1_0000) % 0x100,
                green: (from as int / 0x100) % 0x100,
                blue: from as int % 0x100,
            }),
    {
        let red = #[verifier::truncate] ((from >> 16) as u8);
        let green = #[verifier::truncate] ((from >> 8) as u8);
        let blue = #[verifier::truncate] (from as u8);
        assert((from >> 16) as u8 == (from / 0x1_0000) % 0x100) by (bit_vector);
        assert((from >> 8) as u8 == (from / 0x100) % 0x100) by (bit_vector);
        assert(from as u8 == from % 0x100) by (bit_vector);
        Self::RGB { red, green, blue }
    }

    /// The hue, the saturation and the value or luminosity of an RGB colour,
    /// each only where it is asked for: `H`, `S` and `VL` say which, and
    /// `VL_IS_L` chooses HSL over HSV. The HSL saturation is the standard
    /// one, `(max - min) / (1 - |2l - 1|)`.
    pub fn rgb_to_hsvl<const H: bool, const S: bool, const VL: bool, const VL_IS_L: bool>(
        red: u8,
        green: u8,
        blue: u8,
    ) -> (out: (Option<CircleDegrees>, Option<PercentageF32>, Option<PercentageF32>))
        ensures
            out.0 is Some <==> H,
            out.0 matches Some(hue) ==> hue@ == rgb_hue(red as int, green as int, blue as int),
            out.1 is Some <==> S,
            out.1 matches Some(saturation) ==> saturation@ == if VL_IS_L {
                rgb_hsl_saturation(red as int, green as int, blue as int)
            } else {
                rgb_hsv_saturation(red as int, green as int, blue as int)
            },
            out.2 is Some <==> VL,
            out.2 matches Some(level) ==> level@ == if VL_IS_L {
                rgb_hsl_luminosity(red as int, green as int, blue as int)
            } else {
                rgb_hsv_value(red as int, green as int, blue as int)
            },
    {
        let (high, low) = channel_extremes(red, green, blue);
        let spread = high - low;
        let total = high as u128 + low as u128;

        let h = if H {
            if high == low {
                Some(CircleDegrees::new_wrapped(0))
            } else {
                let span = spread as i32;
                let numerator: i32 = if high == red {
                    let lead = 60 * (green as i32 - blue as i32);
                    if lead < 0 {
                        lead + 360 * span
                    } else {
                        lead
                    }
                } else if high == green {
                    60 * (blue as i32 - red as i32) + 120 * span
                } else {
                    60 * (red as i32 - green as i32) + 240 * span
                };
                proof {
                    lemma_rgb_hue_numerator(red as int, green as int, blue as int);
                    lemma_rgb_hue_range(red as int, green as int, blue as int);
                }
                let degrees = div_round(numerator as u128, spread as u128);
                Some(CircleDegrees::new_wrapped(degrees as i16))
            }
        } else {
            None
        };

        let s = if S {
            if VL_IS_L {
                if high == low {
                    Some(PercentageF32::new_or_panic(0))
                } else {
                    let base = if total <= 510 - total {
                        total
                    } else {
                        510 - total
                    };
                    Some(proportion(steps(spread as u128), base))
                }
            } else {
                if high == 0 {
                    Some(PercentageF32::new_or_panic(0))
                } else {
                    Some(proportion(steps(spread as u128), high as u128))
                }
            }
        } else {
            None
        };

        let vl = if VL {
            if VL_IS_L {
                Some(proportion(steps(total), 510))
            } else {
                Some(proportion(steps(high as u128), 255))
            }
        } else {
            None
        };

        (h, s, vl)
    }

    /// The hue, saturation and value of the HSV form, each only where it is
    /// asked for: `H`, `S` and `V` say which. From HSL the saturation is
    /// derived from the value, so the value comes with it.
    pub fn select_hsv<const H: bool, const S: bool, const V: bool>(&self) -> (out: (
        Option<CircleDegrees>,
        Option<PercentageF32>,
        Option<PercentageF32>,
    ))
        requires
            self@.convertible(),
            V || S ==> self@.has_value_hsv(),
            S ==> self@.has_saturation_hsv(),
        ensures
            out.0 is Some <==> H,
            out.0 matches Some(hue) ==> hue@ == self@.hue(),
            out.1 is Some <==> S,
            out.1 matches Some(saturation) ==> saturation@ == self@.saturation_hsv(),
            out.2 is Some <==> V || (S && self is HSL),
            out.2 matches Some(value) ==> value@ == self@.value_hsv(),
    {
        match self {
            Colour::HSV { hue, saturation, value } => (
                if H {
                    Some(*hue)
                } else {
                    None
                },
                if S {
                    Some(*saturation)
                } else {
                    None
                },
                if V {
                    Some(*value)
                } else {
                    None
                },
            ),
            Colour::HSL { hue, saturation, luminosity } => {
                let s_raw = saturation.value();
                let l_raw = luminosity.value();

                let v = if V || S {
                    Some(hsl_value_steps(s_raw, l_raw))
                } else {
                    None
                };
                let s = if S {
                    Some(hsl_saturation_steps(v.unwrap(), l_raw))
                } else {
                    None
                };

                (
                    if H {
                        Some(*hue)
                    } else {
                        None
                    },
                    match s {
                        Some(steps) => Some(PercentageF32::new_or_panic(steps as u32)),
                        None => None,
                    },
                    match v {
                        Some(steps) => Some(PercentageF32::new_or_panic(steps as u32)),
                        None => None,
                    },
                )
            },
            Colour::RGB { red, green, blue } => Self::rgb_to_hsvl::<H, S, V, false>(
                *red,
                *green,
                *blue,
            ),
            _ => unreached(),
        }
    }

    /// The hue, saturation and luminosity of the HSL form, each only where
    /// it is asked for: `H`, `S` and `L` say which. From HSV the saturation
    /// is derived from the luminosity, so the luminosity comes with it.
    pub fn select_hsl<const H: bool, const S: bool, const L: bool>(&self) -> (out: (
        Option<CircleDegrees>,
        Option<PercentageF32>,
        Option<PercentageF32>,
    ))
        requires
            self@.convertible(),
        ensures
            out.0 is Some <==> H,
            out.0 matches Some(hue) ==> hue@ == self@.hue(),
            out.1 is Some <==> S,
            out.1 matches Some(saturation) ==> saturation@ == self@.saturation_hsl(),
            out.2 is Some <==> L || (S && self is HSV),
            out.2 matches Some(luminosity) ==> luminosity@ == self@.luminosity(),
    {
        match self {
            Colour::HSV { hue, saturation, value } => {
                let s_raw = saturation.value();
                let v_raw = value.value();

                let l = if L || S {
                    Some(hsv_luminosity(s_raw, v_raw))
                } else {
                    None
                };
                let s = if S {
                    if v_raw == 0 || v_raw == UNIT {
                        Some(PercentageF32::new_or_panic(0))
                    } else {
                        proof {
                            lemma_hsv_hsl_luminosity_range(s_raw as int, v_raw as int);
                        }
                        Some(hsv_saturation(v_raw, l.unwrap()))
                    }
                } else {
                    None
                };

                (
                    if H {
                        Some(*hue)
                    } else {
                        None
                    },
                    s,
                    l,
                )
            },
            Colour::HSL { hue, saturation, luminosity } => (
                if H {
                    Some(*hue)
                } else {
                    None
                },
                if S {
                    Some(*saturation)
                } else {
                    None
                },
                if L {
                    Some(*luminosity)
                } else {
                    None
                },
            ),
            Colour::RGB { red, green, blue } => Self::rgb_to_hsvl::<H, S, L, true>(
                *red,
                *green,
                *blue,
            ),
            _ => unreached(),
        }
    }

    /// The channels of the RGB form, each only where it is asked for: `R`,
    /// `G` and `B` say which.
    pub fn select_rgb<const R: bool, const G: bool, const B: bool>(&self) -> (out: (
        Option<u8>,
        Option<u8>,
        Option<u8>,
    ))
        requires
            self@.convertible(),
        ensures
            out.0 is Some <==> R,
            out.0 matches Some(red) ==> red == self@.red(),
            out.1 is Some <==> G,
            out.1 matches Some(green) ==> green == self@.green(),
            out.2 is Some <==> B,
            out.2 matches Some(blue) ==> blue == self@.blue(),
    {
        match self {
            Colour::HSL { hue, saturation, luminosity } => {
                let h_raw = hue.value();
                let s_raw = saturation.value();
                let l_raw = luminosity.value();

                (
                    if R {
                        Some(hsl_channel_byte(0, h_raw, s_raw, l_raw))
                    } else {
                        None
                    },
                    if G {
                        Some(hsl_channel_byte(8, h_raw, s_raw, l_raw))
                    } else {
                        None
                    },
                    if B {
                        Some(hsl_channel_byte(4, h_raw, s_raw, l_raw))
                    } else {
                        None
                    },
                )
            },
            Colour::HSV { hue, saturation, value } => {
                let h_raw = hue.value();
                let s_raw = saturation.value();
                let v_raw = value.value();

                (
                    if R {
                        Some(hsv_channel_byte(5, h_raw, s_raw, v_raw))
                    } else {
                        None
                    },
                    if G {
                        Some(hsv_channel_byte(3, h_raw, s_raw, v_raw))
                    } else {
                        None
                    },
                    if B {
                        Some(hsv_channel_byte(1, h_raw, s_raw, v_raw))
                    } else {
                        None
                    },
                )
            },
            Colour::RGB { red, green, blue } => (
                if R {
                    Some(*red)
                } else {
                    None
                },
                if G {
                    Some(*green)
                } else {
                    None
                },
                if B {
                    Some(*blue)
                } else {
                    None
                },
            ),
            _ => unreached(),
        }
    }

    /// Whether the colour is held in a space that has conversions: RGB, HSV
    /// or HSL.
    pub fn is_convertible(&self) -> (out: bool)
        ensures
            out == self@.convertible(),
    {
        match self {
            Colour::HSL { .. } => true,
            Colour::HSV { .. } => true,
            Colour::RGB { .. } => true,
            _ => false,
        }
    }

    /// Whether the colour has an HSV value: from HSL the formula
    /// `l + s * max(l, 1 - l)` can give more than one, and such a colour
    /// has none.
    pub fn has_value_hsv(&self) -> (out: bool)
        ensures
            out == self@.has_value_hsv(),
    {
        match self {
            Colour::HSL { saturation, luminosity, .. } => {
                hsl_value_steps(saturation.value(), luminosity.value()) <= UNIT as u128
            },
            _ => self.is_convertible(),
        }
    }

    /// Whether the colour has an HSV saturation: it has an HSV value, and
    /// from HSL the formula `2 * (1 - l / v)` gives at most one.
    pub fn has_saturation_hsv(&self) -> (out: bool)
        ensures
            out == self@.has_saturation_hsv(),
    {
        match self {
            Colour::HSL { saturation, luminosity, .. } => {
                let l_raw = luminosity.value();
                let v = hsl_value_steps(saturation.value(), l_raw);
                v <= UNIT as u128 && hsl_saturation_steps(v, l_raw) <= UNIT as u128
            },
            _ => self.is_convertible(),
        }
    }

    /// Replaces the colour by its HSV form.
    pub fn mutate_hsv(&mut self)
        requires
            old(self)@.has_saturation_hsv(),
        ensures
            final(self)@ == old(self)@.as_hsv(),
            final(self)@.wf(),
            *old(self) is HSV ==> *final(self) == *old(self),
    {
        *self = self.as_hsv();
    }

    /// The colour in HSV. An HSV colour is returned as it is.
    pub fn as_hsv(&self) -> (out: Self)
        requires
            self@.has_saturation_hsv(),
        ensures
            out@ == self@.as_hsv(),
            out@.wf(),
            self is HSV ==> out == *self,
    {
        let (hue, saturation, value) = self.hsv_tuple();
        proof {
            if let Colour::HSV { hue: h, saturation: s, value: v } = *self {
                hue.lemma_same_degrees(h);
                saturation.lemma_same_steps(s);
                value.lemma_same_steps(v);
            }
        }
        Self::HSV { hue, saturation, value }
    }

    /// The colour in HSL. An HSL colour is returned as it is.
    pub fn as_hsl(&self) -> (out: Self)
        requires
            self@.convertible(),
        ensures
            out@ == self@.as_hsl(),
            out@.wf(),
            self is HSL ==> out == *self,
    {
        let (hue, saturation, luminosity) = self.hsl_tuple();
        proof {
            if let Colour::HSL { hue: h, saturation: s, luminosity: l } = *self {
                hue.lemma_same_degrees(h);
                saturation.lemma_same_steps(s);
                luminosity.lemma_same_steps(l);
            }
        }
        Self::HSL { hue, saturation, luminosity }
    }

    /// The hue, saturation and value of the HSV form.
    pub fn hsv_tuple(&self) -> (out: (CircleDegrees, PercentageF32, PercentageF32))
        requires
            self@.has_saturation_hsv(),
        ensures
            out.0@ == self@.hue(),
            out.1@ == self@.saturation_hsv(),
            out.2@ == self@.value_hsv(),
            is_hue(out.0@),
            is_proportion(out.1@),
            is_proportion(out.2@),
    {
        let (h, s, v) = self.select_hsv::<true, true, true>();
        let out = (h.unwrap(), s.unwrap(), v.unwrap());
        proof {
            use_type_invariant(out.0);
            use_type_invariant(out.1);
            use_type_invariant(out.2);
        }
        out
    }

    /// The hue, saturation and luminosity of the HSL form.
    pub fn hsl_tuple(&self) -> (out: (CircleDegrees, PercentageF32, PercentageF32))
        requires
            self@.convertible(),
        ensures
            out.0@ == self@.hue(),
            out.1@ == self@.saturation_hsl(),
            out.2@ == self@.luminosity(),
            is_hue(out.0@),
            is_proportion(out.1@),
            is_proportion(out.2@),
    {
        let (h, s, l) = self.select_hsl::<true, true, true>();
        let out = (h.unwrap(), s.unwrap(), l.unwrap());
        proof {
            use_type_invariant(out.0);
            use_type_invariant(out.1);
            use_type_invariant(out.2);
        }
        out
    }

    /// The red, green and blue channels of the RGB form.
    pub fn rgb_tuple(&self) -> (out: (u8, u8, u8))
        requires
            self@.convertible(),
        ensures
            out.0 == self@.red(),
            out.1 == self@.green(),
            out.2 == self@.blue(),
    {
        let (r, g, b) = self.select_rgb::<true, true, true>();
        (r.unwrap(), g.unwrap(), b.unwrap())
    }

    /// The hue, which HSV and HSL share.
    pub fn hue(&self) -> (out: CircleDegrees)
        requires
            self@.convertible(),
        ensures
            out@ == self@.hue(),
            is_hue(out@),
    {
        let (h, _, _) = self.select_hsv::<true, false, false>();
        let out = h.unwrap();
        proof {
            use_type_invariant(out);
        }
        out
    }

    /// The saturation of the HSV form.
    pub fn saturation_hsv(&self) -> (out: PercentageF32)
        requires
            self@.has_saturation_hsv(),
        ensures
            out@ == self@.saturation_hsv(),
            is_proportion(out@),
    {
        let (_, s, _) = self.select_hsv::<false, true, false>();
        let out = s.unwrap();
        proof {
            use_type_invariant(out);
        }
        out
    }

    /// The value of the HSV form.
    pub fn value_hsv(&self) -> (out: PercentageF32)
        requires
            self@.has_value_hsv(),
        ensures
            out@ == self@.value_hsv(),
            is_proportion(out@),
    {
        let (_, _, v) = self.select_hsv::<false, false, true>();
        let out = v.unwrap();
        proof {
            use_type_invariant(out);
        }
        out
    }

    /// The saturation of the HSL form.
    pub fn saturation_hsl(&self) -> (out: PercentageF32)
        requires
            self@.convertible(),
        ensures
            out@ == self@.saturation_hsl(),
            is_proportion(out@),
    {
        let (_, s, _) = self.select_hsl::<false, true, false>();
        let out = s.unwrap();
        proof {
            use_type_invariant(out);
        }
        out
    }

    /// The luminosity of the HSL form.
    pub fn luminosity(&self) -> (out: PercentageF32)
        requires
            self@.convertible(),
        ensures
            out@ == self@.luminosity(),
            is_proportion(out@),
    {
        let (_, _, l) = self.select_hsl::<false, false, true>();
        let out = l.unwrap();
        proof {
            use_type_invariant(out);
        }
        out
    }

    /// The red channel of the RGB form. An RGB colour gives its own.
    pub fn red(&self) -> (out: u8)
        requires
            self@.convertible(),
        ensures
            out == self@.red(),
            self matches Colour::RGB { red, .. } ==> out == red,
    {
        let (r, _, _) = self.select_rgb::<true, false, false>();
        r.unwrap()
    }

    /// The green channel of the RGB form. An RGB colour gives its own.
    pub fn green(&self) -> (out: u8)
        requires
            self@.convertible(),
        ensures
            out == self@.green(),
            self matches Colour::RGB { green, .. } ==> out == green,
    {
        let (_, g, _) = self.select_rgb::<false, true, false>();
        g.unwrap()
    }

    /// The blue channel of the RGB form. An RGB colour gives its own.
    pub fn blue(&self) -> (out: u8)
        requires
            self@.convertible(),
        ensures
            out == self@.blue(),
            self matches Colour::RGB { blue, .. } ==> out == blue,
    {
        let (_, _, b) = self.select_rgb::<false, false, true>();
        b.unwrap()
    }
}

/// The HSL luminosity of an HSV colour: `v * (1 - s / 2)`.
fn hsv_luminosity(s: u32, v: u32) -> (out: PercentageF32)
    requires
        s <= UNIT,
        v <= UNIT,
    ensures
        out@ == hsv_hsl_luminosity(s as int, v as int),
{
    let unit = UNIT as u128;
    let rest = 2 * unit - s as u128;
    proof {
        assert(0 <= v * rest <= 0x100_0000 * 0x200_0000) by (nonlinear_arith)
            requires
                0 <= v <= 0x100_0000,
                0 <= rest <= 0x200_0000,
        ;
        lemma_hsv_hsl_luminosity_range(s as int, v as int);
    }
    let steps = div_round(v as u128 * rest, 2 * unit);
    PercentageF32::new_or_panic(steps as u32)
}

/// The HSL saturation of an HSV colour whose value `v` is neither zero nor
/// one and whose luminosity `l` lies between half of `v` and `v`:
/// `(v - l) / min(l, 1 - l)`.
fn hsv_saturation(v: u32, l: PercentageF32) -> (out: PercentageF32)
    requires
        0 < v < UNIT,
        v <= 2 * l@,
        l@ <= v,
    ensures
        out@ == round_div(UNIT * (v - l@), min(l@, UNIT - l@)),
{
    let unit = UNIT as u128;
    let l_raw = l.value() as u128;
    let base = if l_raw <= unit - l_raw {
        l_raw
    } else {
        unit - l_raw
    };
    let above = v as u128 - l_raw;
    proof {
        assert(0 <= unit * above <= unit * base) by (nonlinear_arith)
            requires
                0 <= above <= base,
                unit >= 0,
        ;
        assert(unit * base <= 0x100_0000 * 0x100_0000) by (nonlinear_arith)
            requires
                unit == 0x100_0000,
                0 <= base <= 0x100_0000,
        ;
    }
    proportion(unit * above, base)
}

/// The channel of offset `n` of an HSL colour.
fn hsl_channel_byte(n: u8, h: i16, s: u32, l: u32) -> (out: u8)
    requires
        n < 12,
        0 <= h < 360,
        s <= UNIT,
        l <= UNIT,
    ensures
        out == hsl_channel(n as int, h as int, s as int, l as int),
{
    let k: i128 = (30 * n as i128 + h as i128) % 360;
    let inner = if k - 90 <= 270 - k {
        k - 90
    } else {
        270 - k
    };
    let weight: i128 = if inner < -30 {
        -30
    } else if inner > 30 {
        30
    } else {
        inner
    };
    let unit = UNIT as i128;
    let near = l as i128;
    let base = if near <= unit - near {
        near
    } else {
        unit - near
    };
    proof {
        lemma_hsl_channel_numerator(s as int, l as int, weight as int);
        lemma_hsl_channel_range(n as int, h as int, s as int, l as int);
        assert(UNIT * UNIT == 0x1_0000_0000_0000) by (nonlinear_arith)
            requires
                UNIT == 0x100_0000,
        ;
        assert(0 <= near * unit <= 0x100_0000 * 0x100_0000) by (nonlinear_arith)
            requires
                0 <= near <= 0x100_0000,
                unit == 0x100_0000,
        ;
        assert(-30 * 0x1_0000_0000_0000 <= (s * base) * weight <= 30 * 0x1_0000_0000_0000)
            by (nonlinear_arith)
            requires
                0 <= s * base <= 0x1_0000_0000_0000,
                -30 <= weight <= 30,
        ;
    }
    let chroma = s as i128 * base;
    let numerator = 255 * (30 * (near * unit) - chroma * weight);
    let level = div_round(numerator as u128, (30 * (unit * unit)) as u128);
    level as u8
}

/// The channel of offset `n` of an HSV colour.
fn hsv_channel_byte(n: u8, h: i16, s: u32, v: u32) -> (out: u8)
    requires
        n < 6,
        0 <= h < 360,
        s <= UNIT,
        v <= UNIT,
    ensures
        out == hsv_channel(n as int, h as int, s as int, v as int),
{
    let k: i128 = (60 * n as i128 + h as i128) % 360;
    let inner = if k <= 240 - k {
        k
    } else {
        240 - k
    };
    let weight: i128 = if inner < 0 {
        0
    } else if inner > 60 {
        60
    } else {
        inner
    };
    let unit = UNIT as i128;
    let top = v as i128;
    proof {
        lemma_hsv_channel_numerator(s as int, v as int, weight as int);
        lemma_hsv_channel_range(n as int, h as int, s as int, v as int);
        assert(UNIT * UNIT == 0x1_0000_0000_0000) by (nonlinear_arith)
            requires
                UNIT == 0x100_0000,
        ;
        assert(0 <= top * unit <= 0x100_0000 * 0x100_0000) by (nonlinear_arith)
            requires
                0 <= top <= 0x100_0000,
                unit == 0x100_0000,
        ;
        assert(0 <= (v * s) * weight <= 60 * 0x1_0000_0000_0000) by (nonlinear_arith)
            requires
                0 <= v * s <= 0x1_0000_0000_0000,
                0 <= weight <= 60,
        ;
    }
    let chroma = top * s as i128;
    let numerator = 255 * (60 * (top * unit) - chroma * weight);
    let level = div_round(numerator as u128, (60 * (unit * unit)) as u128);
    level as u8
}

/// The HSV value of an HSL colour in steps, which may be more than `UNIT`:
/// `l + s * max(l, 1 - l)`.
fn hsl_value_steps(s: u32, l: u32) -> (out: u128)
    requires
        s <= UNIT,
        l <= UNIT,
    ensures
        out == hsl_hsv_value(s as int, l as int),
        l <= out <= 2 * UNIT,
{
    let unit = UNIT as u128;
    let near = l as u128;
    let far = if near >= unit - near {
        near
    } else {
        unit - near
    };
    proof {
        lemma_hsl_hsv_value_range(s as int, l as int);
        assert(UNIT * UNIT == 0x1_0000_0000_0000) by (nonlinear_arith)
            requires
                UNIT == 0x100_0000,
        ;
    }
    div_round(near * unit + s as u128 * far, unit)
}

/// The HSV saturation in steps, which may be more than `UNIT`, of an HSL
/// colour with luminosity `l` whose HSV value is `v`: `2 * (1 - l / v)`.
fn hsl_saturation_steps(v: u128, l: u32) -> (out: u128)
    requires
        l <= v <= 2 * UNIT,
    ensures
        out == if v == 0 {
            0
        } else {
            round_div(2 * UNIT * (v - l), v as int)
        },
        out <= 2 * UNIT,
{
    if v == 0 {
        0
    } else {
        let unit = UNIT as u128;
        let above = v - l as u128;
        proof {
            assert(0 <= 2 * unit * above <= (2 * unit) * v) by (nonlinear_arith)
                requires
                    0 <= above <= v,
                    unit > 0,
            ;
            assert((2 * unit) * v <= 0x200_0000 * 0x200_0000) by (nonlinear_arith)
                requires
                    unit == 0x100_0000,
                    0 <= v <= 0x200_0000,
            ;
            lemma_round_div_at_most(2 * UNIT * (v - l), v as int, 2 * UNIT);
        }
        div_round(2 * unit * above, v)
    }
}

} // verus!
