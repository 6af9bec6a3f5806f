//! What holds of the conversions whatever the colour.
use crate::model::ColourModel;
use crate::percentage_f32::UNIT;
use crate::ranges::{
    lemma_hsl_channel_range, lemma_hsl_hsv_value_range, lemma_hsv_channel_range,
    lemma_hsv_hsl_luminosity_range, lemma_hsv_hsl_saturation_range, lemma_rgb_hsl_range,
    lemma_rgb_hsv_range, lemma_rgb_hue_range,
};
use crate::rounding::lemma_round_div_at_least;
use vstd::prelude::*;

verus! {

/// The channels of an RGB colour are the ones it was made of.
pub proof fn lemma_rgb_channels_are_its_own(r: int, g: int, b: int)
    ensures
        (ColourModel::RGB { red: r, green: g, blue: b }).red() == r,
        (ColourModel::RGB { red: r, green: g, blue: b }).green() == g,
        (ColourModel::RGB { red: r, green: g, blue: b }).blue() == b,
        (ColourModel::RGB { red: r, green: g, blue: b }).as_rgb() == (ColourModel::RGB {
            red: r,
            green: g,
            blue: b,
        }),
{
}

/// Converting to HSV a second time changes nothing, and an HSV colour is
/// its own HSV form.
pub proof fn lemma_as_hsv_idempotent(c: ColourModel)
    ensures
        c.as_hsv().as_hsv() == c.as_hsv(),
        c.as_hsv().has_saturation_hsv(),
        c is HSV ==> c.as_hsv() == c,
{
}

/// Converting to HSL a second time changes nothing, and an HSL colour is
/// its own HSL form.
pub proof fn lemma_as_hsl_idempotent(c: ColourModel)
    ensures
        c.as_hsl().as_hsl() == c.as_hsl(),
        c is HSL ==> c.as_hsl() == c,
{
}

/// The HSV form of a colour that has one holds a hue in `[0, 360)` and a
/// saturation and a value between zero and one.
pub proof fn lemma_as_hsv_in_range(c: ColourModel)
    requires
        c.wf(),
        c.has_saturation_hsv(),
    ensures
        c.as_hsv().wf(),
{
    match c {
        ColourModel::HSL { hue, saturation, luminosity } => {
            let v = c.value_hsv();
            lemma_hsl_hsv_value_range(saturation, luminosity);
            if v != 0 {
                assert(2 * UNIT * (v - luminosity) >= 0) by (nonlinear_arith)
                    requires
                        v - luminosity >= 0,
                ;
                assert(0 * v == 0);
                lemma_round_div_at_least(2 * UNIT * (v - luminosity), v, 0);
            }
        },
        ColourModel::RGB { red, green, blue } => {
            lemma_rgb_hue_range(red, green, blue);
            lemma_rgb_hsv_range(red, green, blue);
        },
        _ => {},
    }
}

/// The HSL form of a convertible colour holds a hue in `[0, 360)` and a
/// saturation and a luminosity between zero and one.
pub proof fn lemma_as_hsl_in_range(c: ColourModel)
    requires
        c.wf(),
        c.convertible(),
    ensures
        c.as_hsl().wf(),
{
    match c {
        ColourModel::HSV { hue, saturation, value } => {
            lemma_hsv_hsl_luminosity_range(saturation, value);
            lemma_hsv_hsl_saturation_range(saturation, value);
        },
        ColourModel::RGB { red, green, blue } => {
            lemma_rgb_hue_range(red, green, blue);
            lemma_rgb_hsl_range(red, green, blue);
        },
        _ => {},
    }
}

/// The RGB form of a convertible colour holds three channels in
/// `[0, 255]`.
pub proof fn lemma_as_rgb_in_range(c: ColourModel)
    requires
        c.wf(),
        c.convertible(),
    ensures
        c.as_rgb().wf(),
{
    match c {
        ColourModel::HSL { hue, saturation, luminosity } => {
            lemma_hsl_channel_range(0, hue, saturation, luminosity);
            lemma_hsl_channel_range(8, hue, saturation, luminosity);
            lemma_hsl_channel_range(4, hue, saturation, luminosity);
        },
        ColourModel::HSV { hue, saturation, value } => {
            lemma_hsv_channel_range(5, hue, saturation, value);
            lemma_hsv_channel_range(3, hue, saturation, value);
            lemma_hsv_channel_range(1, hue, saturation, value);
        },
        _ => {},
    }
}

} // verus!
