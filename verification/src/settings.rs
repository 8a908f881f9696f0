//! The decoded aggregate: every setting of one photograph, fully populated.
//! A field a buffer never mentions keeps the camera's normal/auto baseline.

use vstd::prelude::*;

use crate::fields::{
    ColorChrome, ColorChromeFxBlue, DynamicRange, FilmMode, GrainRoughness, GrainSize,
    Highlight, NoiseReduction, Saturation, Shadow, Sharpness, WhiteBalance,
    WhiteBalanceFineTune,
};

verus! {

#[derive(Clone, Copy, Debug, PartialEq, Eq, Structural)]
pub struct FujifilmSettings {
    pub white_balance: WhiteBalance,
    pub white_balance_fine_tune: WhiteBalanceFineTune,
    pub sharpness: Sharpness,
    pub noise_reduction: NoiseReduction,
    pub clarity: i32,
    pub shadow: Shadow,
    pub highlight: Highlight,
    pub grain_roughness: GrainRoughness,
    pub grain_size: GrainSize,
    pub color_chrome: ColorChrome,
    pub color_chrome_fx_blue: ColorChromeFxBlue,
    pub film_mode: FilmMode,
    pub dynamic_range: DynamicRange,
    pub saturation: Saturation,
}

impl FujifilmSettings {
    /// The baseline the decoder starts from: every field at its
    /// normal/auto/off default.
    pub open spec fn spec_new() -> FujifilmSettings {
        FujifilmSettings {
            white_balance: WhiteBalance::Auto,
            white_balance_fine_tune: WhiteBalanceFineTune { red: 0, blue: 0 },
            sharpness: Sharpness::Normal,
            noise_reduction: NoiseReduction::Normal,
            clarity: 0,
            shadow: Shadow::Zero,
            highlight: Highlight::Zero,
            grain_roughness: GrainRoughness::Off,
            grain_size: GrainSize::Off,
            color_chrome: ColorChrome::Off,
            color_chrome_fx_blue: ColorChromeFxBlue::Off,
            film_mode: FilmMode::Provia,
            dynamic_range: DynamicRange::Auto,
            saturation: Saturation::Normal,
        }
    }

    /// Build the baseline aggregate.
    pub fn new() -> (r: FujifilmSettings)
        ensures
            r == FujifilmSettings::spec_new(),
    {
        FujifilmSettings {
            white_balance: WhiteBalance::Auto,
            white_balance_fine_tune: WhiteBalanceFineTune { red: 0, blue: 0 },
            sharpness: Sharpness::Normal,
            noise_reduction: NoiseReduction::Normal,
            clarity: 0,
            shadow: Shadow::Zero,
            highlight: Highlight::Zero,
            grain_roughness: GrainRoughness::Off,
            grain_size: GrainSize::Off,
            color_chrome: ColorChrome::Off,
            color_chrome_fx_blue: ColorChromeFxBlue::Off,
            film_mode: FilmMode::Provia,
            dynamic_range: DynamicRange::Auto,
            saturation: Saturation::Normal,
        }
    }
}

} // verus!
