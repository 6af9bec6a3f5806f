//! Colours held in one of several colour spaces, with verified conversions
//! between RGB, HSV and HSL.
//!
//! Hue is a whole number of degrees and every proportion is a fixed-point
//! count of steps of `1 / UNIT`, so each conversion is integer arithmetic
//! whose result is stated exactly by the functions of [`formulas`].
//!
//! - [`circle_degrees`] and [`percentage_f32`] hold the two bounded
//!   quantities, [`colour`] the colours and their conversions.
//! - [`model`] is the mathematical model that the contracts of [`colour`]
//!   speak of, [`formulas`] the formulas behind it and [`rounding`] the
//!   rounded division that they share.
//! - [`ranges`], [`laws`] and [`round_trip`] prove what holds of every
//!   colour: that components stay in range, that a conversion within one
//!   space changes nothing, and how close a colour comes back from a round
//!   trip.
pub mod circle_degrees;
pub mod colour;
pub mod formulas;
pub mod laws;
pub mod model;
pub mod percentage_f32;
pub mod ranges;
pub mod round_trip;
pub mod rounding;
