//! The mathematical model of a colour.
use crate::formulas::{
    hsl_channel, hsl_hsv_saturation, hsl_hsv_value, hsv_channel, hsv_hsl_luminosity,
    hsv_hsl_saturation, rgb_hsl_luminosity, rgb_hsl_saturation, rgb_hsv_saturation,
    rgb_hsv_value, rgb_hue,
};
use crate::percentage_f32::UNIT;
use vstd::prelude::*;

verus! {

/// A colour as plain integers: hues in degrees, proportions as counts of
/// steps of `1 / UNIT`, channels and the other components as they are.
pub enum ColourModel {
    HSL { hue: int, saturation: int, luminosity: int },
    HSV { hue: int, saturation: int, value: int },
    RGB { red: int, green: int, blue: int },
    CIELAB { l_star: int, a_star: int, b_star: int },
    XYZ { x: int, y: int, z: int },
    LMS { l: int, m: int, s: int },
}

/// Whether `h` is a hue: a whole number of degrees in `[0, 360)`.
pub open spec fn is_hue(h: int) -> bool {
    0 <= h < 360
}

/// Whether `p` is a proportion: a count of steps between zero and one.
pub open spec fn is_proportion(p: int) -> bool {
    0 <= p <= UNIT
}

/// Whether `c` is a channel: an integer in `[0, 255]`.
pub open spec fn is_channel(c: int) -> bool {
    0 <= c <= 255
}

impl ColourModel {
    /// Whether every component lies in the range of its type.
    pub open spec fn wf(self) -> bool {
        match self {
            ColourModel::HSL { hue, saturation, luminosity } => {
                is_hue(hue) && is_proportion(saturation) && is_proportion(luminosity)
            },
            ColourModel::HSV { hue, saturation, value } => {
                is_hue(hue) && is_proportion(saturation) && is_proportion(value)
            },
            ColourModel::RGB { red, green, blue } => {
                is_channel(red) && is_channel(green) && is_channel(blue)
            },
            ColourModel::CIELAB { l_star, a_star, b_star } => {
                is_proportion(l_star) && -128 <= a_star <= 127 && -128 <= b_star <= 127
            },
            ColourModel::XYZ { x, y, z } => {
                -128 <= x <= 127 && -128 <= y <= 127 && -128 <= z <= 127
            },
            ColourModel::LMS { l, m, s } => is_channel(l) && is_channel(m) && is_channel(s),
        }
    }

    /// Whether the colour is held in a space that has conversions: RGB, HSV
    /// or HSL.
    pub open spec fn convertible(self) -> bool {
        self is HSL || self is HSV || self is RGB
    }

    /// Whether the colour has an HSV value: it is convertible, and from HSL
    /// the value of the formula is at most one.
    pub open spec fn has_value_hsv(self) -> bool {
        match self {
            ColourModel::HSL { saturation, luminosity, .. } => {
                hsl_hsv_value(saturation, luminosity) <= UNIT
            },
            _ => self.convertible(),
        }
    }

    /// Whether the colour has an HSV saturation: it has an HSV value, and
    /// from HSL the saturation of the formula is at most one.
    pub open spec fn has_saturation_hsv(self) -> bool {
        match self {
            ColourModel::HSL { saturation, luminosity, .. } => {
                &&& hsl_hsv_value(saturation, luminosity) <= UNIT
                &&& hsl_hsv_saturation(saturation, luminosity) <= UNIT
            },
            _ => self.convertible(),
        }
    }

    /// The hue in degrees. HSV and HSL share it.
    pub open spec fn hue(self) -> int {
        match self {
            ColourModel::HSL { hue, .. } => hue,
            ColourModel::HSV { hue, .. } => hue,
            ColourModel::RGB { red, green, blue } => rgb_hue(red, green, blue),
            _ => 0,
        }
    }

    /// The saturation of the HSV form.
    pub open spec fn saturation_hsv(self) -> int {
        match self {
            ColourModel::HSL { saturation, luminosity, .. } => {
                hsl_hsv_saturation(saturation, luminosity)
            },
            ColourModel::HSV { saturation, .. } => saturation,
            ColourModel::RGB { red, green, blue } => rgb_hsv_saturation(red, green, blue),
            _ => 0,
        }
    }

    /// The value of the HSV form.
    pub open spec fn value_hsv(self) -> int {
        match self {
            ColourModel::HSL { saturation, luminosity, .. } => {
                hsl_hsv_value(saturation, luminosity)
            },
            ColourModel::HSV { value, .. } => value,
            ColourModel::RGB { red, green, blue } => rgb_hsv_value(red, green, blue),
            _ => 0,
        }
    }

    /// The saturation of the HSL form.
    pub open spec fn saturation_hsl(self) -> int {
        match self {
            ColourModel::HSL { saturation, .. } => saturation,
            ColourModel::HSV { saturation, value, .. } => hsv_hsl_saturation(saturation, value),
            ColourModel::RGB { red, green, blue } => rgb_hsl_saturation(red, green, blue),
            _ => 0,
        }
    }

    /// The luminosity of the HSL form.
    pub open spec fn luminosity(self) -> int {
        match self {
            ColourModel::HSL { luminosity, .. } => luminosity,
            ColourModel::HSV { saturation, value, .. } => hsv_hsl_luminosity(saturation, value),
            ColourModel::RGB { red, green, blue } => rgb_hsl_luminosity(red, green, blue),
            _ => 0,
        }
    }

    /// The red channel of the RGB form.
    pub open spec fn red(self) -> int {
        match self {
            ColourModel::HSL { hue, saturation, luminosity } => {
                hsl_channel(0, hue, saturation, luminosity)
            },
            ColourModel::HSV { hue, saturation, value } => hsv_channel(5, hue, saturation, value),
            ColourModel::RGB { red, .. } => red,
            _ => 0,
        }
    }

    /// The green channel of the RGB form.
    pub open spec fn green(self) -> int {
        match self {
            ColourModel::HSL { hue, saturation, luminosity } => {
                hsl_channel(8, hue, saturation, luminosity)
            },
            ColourModel::HSV { hue, saturation, value } => hsv_channel(3, hue, saturation, value),
            ColourModel::RGB { green, .. } => green,
            _ => 0,
        }
    }

    /// The blue channel of the RGB form.
    pub open spec fn blue(self) -> int {
        match self {
            ColourModel::HSL { hue, saturation, luminosity } => {
                hsl_channel(4, hue, saturation, luminosity)
            },
            ColourModel::HSV { hue, saturation, value } => hsv_channel(1, hue, saturation, value),
            ColourModel::RGB { blue, .. } => blue,
            _ => 0,
        }
    }

    /// The colour in HSV.
    pub open spec fn as_hsv(self) -> ColourModel {
        ColourModel::HSV {
            hue: self.hue(),
            saturation: self.saturation_hsv(),
            value: self.value_hsv(),
        }
    }

    /// The colour in HSL.
    pub open spec fn as_hsl(self) -> ColourModel {
        ColourModel::HSL {
            hue: self.hue(),
            saturation: self.saturation_hsl(),
            luminosity: self.luminosity(),
        }
    }

    /// The colour in RGB.
    pub open spec fn as_rgb(self) -> ColourModel {
        ColourModel::RGB { red: self.red(), green: self.green(), blue: self.blue() }
    }
}

} // verus!
