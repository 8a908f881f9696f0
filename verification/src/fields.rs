//! The per-field code tables: every camera setting as a closed enum, a spec
//! table from raw wire code to variant, and an executable decoder for each
//! family. A raw code outside a table is a hard failure, never a default.

use vstd::prelude::*;

use crate::bytes::{div_trunc, wrap_i8, div_trunc_i32, narrow_i8};
use crate::error::{FieldKind, FilmError};

verus! {

#[derive(Clone, Copy, Debug, PartialEq, Eq, Structural)]
pub enum Saturation {
    Normal,
    MediumHigh,
    VeryHigh,
    Highest,
    High,
    MediumLow,
    Low,
    NoneBW,
    BWRed,
    BWYellow,
    BWGreen,
    BWSepia,
    VeryLow,
    Lowest,
    Acros,
    AcrosRed,
    AcrosYellow,
    AcrosGreen,
}

/// The fixed saturation table: the variant for a raw code, or nothing.
pub open spec fn saturation_from_code(n: u16) -> Option<Saturation> {
    if n == 0x0 {
        Some(Saturation::Normal)
    } else if n == 0x80 {
        Some(Saturation::MediumHigh)
    } else if n == 0xc0 {
        Some(Saturation::VeryHigh)
    } else if n == 0xe0 {
        Some(Saturation::Highest)
    } else if n == 0x100 {
        Some(Saturation::High)
    } else if n == 0x180 {
        Some(Saturation::MediumLow)
    } else if n == 0x200 {
        Some(Saturation::Low)
    } else if n == 0x300 {
        Some(Saturation::NoneBW)
    } else if n == 0x301 {
        Some(Saturation::BWRed)
    } else if n == 0x302 {
        Some(Saturation::BWYellow)
    } else if n == 0x303 {
        Some(Saturation::BWGreen)
    } else if n == 0x310 {
        Some(Saturation::BWSepia)
    } else if n == 0x4c0 {
        Some(Saturation::VeryLow)
    } else if n == 0x4e0 {
        Some(Saturation::Lowest)
    } else if n == 0x500 {
        Some(Saturation::Acros)
    } else if n == 0x501 {
        Some(Saturation::AcrosRed)
    } else if n == 0x502 {
        Some(Saturation::AcrosYellow)
    } else if n == 0x503 {
        Some(Saturation::AcrosGreen)
    } else {
        None
    }
}

impl Saturation {
    /// Decode a raw saturation code; a code outside the table is rejected
    /// with the exact code that offended.
    pub fn from_u16(n: u16) -> (r: Result<Saturation, FilmError>)
        ensures
            r == (match saturation_from_code(n) {
                Some(v) => Ok::<Saturation, FilmError>(v),
                None => Err::<Saturation, FilmError>(
                    FilmError::UnexpectedValue(FieldKind::Saturation, n as i32),
                ),
            }),
    {
        match n {
            0x0 => Ok(Saturation::Normal),
            0x80 => Ok(Saturation::MediumHigh),
            0xc0 => Ok(Saturation::VeryHigh),
            0xe0 => Ok(Saturation::Highest),
            0x100 => Ok(Saturation::High),
            0x180 => Ok(Saturation::MediumLow),
            0x200 => Ok(Saturation::Low),
            0x300 => Ok(Saturation::NoneBW),
            0x301 => Ok(Saturation::BWRed),
            0x302 => Ok(Saturation::BWYellow),
            0x303 => Ok(Saturation::BWGreen),
            0x310 => Ok(Saturation::BWSepia),
            0x4c0 => Ok(Saturation::VeryLow),
            0x4e0 => Ok(Saturation::Lowest),
            0x500 => Ok(Saturation::Acros),
            0x501 => Ok(Saturation::AcrosRed),
            0x502 => Ok(Saturation::AcrosYellow),
            0x503 => Ok(Saturation::AcrosGreen),
            _ => Err(FilmError::UnexpectedValue(FieldKind::Saturation, n as i32)),
        }
    }
}

#[derive(Clone, Copy, Debug, PartialEq, Eq, Structural)]
pub enum Sharpness {
    Softest,
    VerySoft,
    Soft,
    MediumSoft,
    Normal,
    MediumHard,
    Hard,
    VeryHard,
    Hardest,
}

/// The fixed sharpness table: the variant for a raw code, or nothing.
pub open spec fn sharpness_from_code(n: u16) -> Option<Sharpness> {
    if n == 0x0 {
        Some(Sharpness::Softest)
    } else if n == 0x1 {
        Some(Sharpness::VerySoft)
    } else if n == 0x2 {
        Some(Sharpness::Soft)
    } else if n == 0x3 {
        Some(Sharpness::Normal)
    } else if n == 0x4 {
        Some(Sharpness::Hard)
    } else if n == 0x5 {
        Some(Sharpness::VeryHard)
    } else if n == 0x6 {
        Some(Sharpness::Hardest)
    } else if n == 0x82 {
        Some(Sharpness::MediumSoft)
    } else if n == 0x84 {
        Some(Sharpness::MediumHard)
    } else {
        None
    }
}

impl Sharpness {
    /// The signed level this variant serializes to: Softest is -4, Normal
    /// is 0, Hardest is 4.
    pub open spec fn spec_level(self) -> int {
        match self {
            Sharpness::Softest => -4,
            Sharpness::VerySoft => -3,
            Sharpness::Soft => -2,
            Sharpness::MediumSoft => -1,
            Sharpness::Normal => 0,
            Sharpness::MediumHard => 1,
            Sharpness::Hard => 2,
            Sharpness::VeryHard => 3,
            Sharpness::Hardest => 4,
        }
    }

    /// Decode a raw sharpness code; a code outside the table is rejected.
    pub fn from_u16(n: u16) -> (r: Result<Sharpness, FilmError>)
        ensures
            r == (match sharpness_from_code(n) {
                Some(v) => Ok::<Sharpness, FilmError>(v),
                None => Err::<Sharpness, FilmError>(
                    FilmError::UnexpectedValue(FieldKind::Sharpness, n as i32),
                ),
            }),
    {
        match n {
            0x0 => Ok(Sharpness::Softest),
            0x1 => Ok(Sharpness::VerySoft),
            0x2 => Ok(Sharpness::Soft),
            0x3 => Ok(Sharpness::Normal),
            0x4 => Ok(Sharpness::Hard),
            0x5 => Ok(Sharpness::VeryHard),
            0x6 => Ok(Sharpness::Hardest),
            0x82 => Ok(Sharpness::MediumSoft),
            0x84 => Ok(Sharpness::MediumHard),
            _ => Err(FilmError::UnexpectedValue(FieldKind::Sharpness, n as i32)),
        }
    }

    /// The signed level as a machine integer, for serialization.
    pub fn level(&self) -> (r: i32)
        ensures
            r == self.spec_level(),
    {
        match self {
            Sharpness::Softest => -4,
            Sharpness::VerySoft => -3,
            Sharpness::Soft => -2,
            Sharpness::MediumSoft => -1,
            Sharpness::Normal => 0,
            Sharpness::MediumHard => 1,
            Sharpness::Hard => 2,
            Sharpness::VeryHard => 3,
            Sharpness::Hardest => 4,
        }
    }
}

#[derive(Clone, Copy, Debug, PartialEq, Eq, Structural)]
pub enum DynamicRange {
    Auto,
    DR100,
    DR200,
    DR400,
}

/// The fixed dynamic-range table: the variant for a raw code, or nothing.
pub open spec fn dynamic_range_from_code(n: u16) -> Option<DynamicRange> {
    if n == 0 {
        Some(DynamicRange::Auto)
    } else if n == 100 {
        Some(DynamicRange::DR100)
    } else if n == 200 {
        Some(DynamicRange::DR200)
    } else if n == 400 {
        Some(DynamicRange::DR400)
    } else {
        None
    }
}

impl DynamicRange {
    /// Decode a raw dynamic-range code; a code outside the table is rejected.
    pub fn from_u16(n: u16) -> (r: Result<DynamicRange, FilmError>)
        ensures
            r == (match dynamic_range_from_code(n) {
                Some(v) => Ok::<DynamicRange, FilmError>(v),
                None => Err::<DynamicRange, FilmError>(
                    FilmError::UnexpectedValue(FieldKind::DynamicRange, n as i32),
                ),
            }),
    {
        match n {
            0 => Ok(DynamicRange::Auto),
            100 => Ok(DynamicRange::DR100),
            200 => Ok(DynamicRange::DR200),
            400 => Ok(DynamicRange::DR400),
            _ => Err(FilmError::UnexpectedValue(FieldKind::DynamicRange, n as i32)),
        }
    }
}

#[derive(Clone, Copy, Debug, PartialEq, Eq, Structural)]
pub enum WhiteBalance {
    Auto,
    AutoWhitePriority,
    AutoAmbiancePriority,
    Daylight,
    Cloudy,
    DaylightFluorescent,
    DayWhiteFluorescent,
    WhiteFluorescent,
    WarmWhiteFluorescent,
    LivingRoomWarmWhiteFluorescent,
    Incandescent,
    Flash,
    Underwater,
    Custom,
    Custom2,
    Custom3,
    Custom4,
    Custom5,
    Kelvin,
}

/// The fixed white-balance table: the variant for a raw code, or nothing.
pub open spec fn white_balance_from_code(n: u16) -> Option<WhiteBalance> {
    if n == 0x0 {
        Some(WhiteBalance::Auto)
    } else if n == 0x1 {
        Some(WhiteBalance::AutoWhitePriority)
    } else if n == 0x2 {
        Some(WhiteBalance::AutoAmbiancePriority)
    } else if n == 0x100 {
        Some(WhiteBalance::Daylight)
    } else if n == 0x200 {
        Some(WhiteBalance::Cloudy)
    } else if n == 0x300 {
        Some(WhiteBalance::DaylightFluorescent)
    } else if n == 0x301 {
        Some(WhiteBalance::DayWhiteFluorescent)
    } else if n == 0x302 {
        Some(WhiteBalance::WhiteFluorescent)
    } else if n == 0x303 {
        Some(WhiteBalance::WarmWhiteFluorescent)
    } else if n == 0x304 {
        Some(WhiteBalance::LivingRoomWarmWhiteFluorescent)
    } else if n == 0x400 {
        Some(WhiteBalance::Incandescent)
    } else if n == 0x500 {
        Some(WhiteBalance::Flash)
    } else if n == 0x600 {
        Some(WhiteBalance::Underwater)
    } else if n == 0xf00 {
        Some(WhiteBalance::Custom)
    } else if n == 0xf01 {
        Some(WhiteBalance::Custom2)
    } else if n == 0xf02 {
        Some(WhiteBalance::Custom3)
    } else if n == 0xf03 {
        Some(WhiteBalance::Custom4)
    } else if n == 0xf04 {
        Some(WhiteBalance::Custom5)
    } else if n == 0xff0 {
        Some(WhiteBalance::Kelvin)
    } else {
        None
    }
}

impl WhiteBalance {
    /// Decode a raw white-balance code; a code outside the table is rejected.
    pub fn from_u16(n: u16) -> (r: Result<WhiteBalance, FilmError>)
        ensures
            r == (match white_balance_from_code(n) {
                Some(v) => Ok::<WhiteBalance, FilmError>(v),
                None => Err::<WhiteBalance, FilmError>(
                    FilmError::UnexpectedValue(FieldKind::WhiteBalance, n as i32),
                ),
            }),
    {
        match n {
            0x0 => Ok(WhiteBalance::Auto),
            0x1 => Ok(WhiteBalance::AutoWhitePriority),
            0x2 => Ok(WhiteBalance::AutoAmbiancePriority),
            0x100 => Ok(WhiteBalance::Daylight),
            0x200 => Ok(WhiteBalance::Cloudy),
            0x300 => Ok(WhiteBalance::DaylightFluorescent),
            0x301 => Ok(WhiteBalance::DayWhiteFluorescent),
            0x302 => Ok(WhiteBalance::WhiteFluorescent),
            0x303 => Ok(WhiteBalance::WarmWhiteFluorescent),
            0x304 => Ok(WhiteBalance::LivingRoomWarmWhiteFluorescent),
            0x400 => Ok(WhiteBalance::Incandescent),
            0x500 => Ok(WhiteBalance::Flash),
            0x600 => Ok(WhiteBalance::Underwater),
            0xf00 => Ok(WhiteBalance::Custom),
            0xf01 => Ok(WhiteBalance::Custom2),
            0xf02 => Ok(WhiteBalance::Custom3),
            0xf03 => Ok(WhiteBalance::Custom4),
            0xf04 => Ok(WhiteBalance::Custom5),
            0xff0 => Ok(WhiteBalance::Kelvin),
            _ => Err(FilmError::UnexpectedValue(FieldKind::WhiteBalance, n as i32)),
        }
    }
}

#[derive(Clone, Copy, Debug, PartialEq, Eq, Structural)]
pub enum NoiseReduction {
    Normal,
    Strong,
    MediumStrong,
    VeryStrong,
    Strongest,
    Weak,
    MediumWeak,
    VeryWeak,
    Weakest,
}

/// The fixed noise-reduction table: the variant for a raw code, or nothing.
pub open spec fn noise_reduction_from_code(n: u16) -> Option<NoiseReduction> {
    if n == 0x0 {
        Some(NoiseReduction::Normal)
    } else if n == 0x100 {
        Some(NoiseReduction::Strong)
    } else if n == 0x180 {
        Some(NoiseReduction::MediumStrong)
    } else if n == 0x1c0 {
        Some(NoiseReduction::VeryStrong)
    } else if n == 0x1e0 {
        Some(NoiseReduction::Strongest)
    } else if n == 0x200 {
        Some(NoiseReduction::Weak)
    } else if n == 0x280 {
        Some(NoiseReduction::MediumWeak)
    } else if n == 0x2c0 {
        Some(NoiseReduction::VeryWeak)
    } else if n == 0x2e0 {
        Some(NoiseReduction::Weakest)
    } else {
        None
    }
}

impl NoiseReduction {
    /// The signed level this variant serializes to: Weakest is -4, Normal
    /// is 0, Strongest is 4.
    pub open spec fn spec_level(self) -> int {
        match self {
            NoiseReduction::Strongest => 4,
            NoiseReduction::VeryStrong => 3,
            NoiseReduction::Strong => 2,
            NoiseReduction::MediumStrong => 1,
            NoiseReduction::Normal => 0,
            NoiseReduction::MediumWeak => -1,
            NoiseReduction::Weak => -2,
            NoiseReduction::VeryWeak => -3,
            NoiseReduction::Weakest => -4,
        }
    }

    /// Decode a raw noise-reduction code; a code outside the table is
    /// rejected.
    pub fn from_u16(n: u16) -> (r: Result<NoiseReduction, FilmError>)
        ensures
            r == (match noise_reduction_from_code(n) {
                Some(v) => Ok::<NoiseReduction, FilmError>(v),
                None => Err::<NoiseReduction, FilmError>(
                    FilmError::UnexpectedValue(FieldKind::NoiseReduction, n as i32),
                ),
            }),
    {
        match n {
            0x0 => Ok(NoiseReduction::Normal),
            0x100 => Ok(NoiseReduction::Strong),
            0x180 => Ok(NoiseReduction::MediumStrong),
            0x1c0 => Ok(NoiseReduction::VeryStrong),
            0x1e0 => Ok(NoiseReduction::Strongest),
            0x200 => Ok(NoiseReduction::Weak),
            0x280 => Ok(NoiseReduction::MediumWeak),
            0x2c0 => Ok(NoiseReduction::VeryWeak),
            0x2e0 => Ok(NoiseReduction::Weakest),
            _ => Err(FilmError::UnexpectedValue(FieldKind::NoiseReduction, n as i32)),
        }
    }

    /// The signed level as a machine integer, for serialization.
    pub fn level(&self) -> (r: i32)
        ensures
            r == self.spec_level(),
    {
        match self {
            NoiseReduction::Strongest => 4,
            NoiseReduction::VeryStrong => 3,
            NoiseReduction::Strong => 2,
            NoiseReduction::MediumStrong => 1,
            NoiseReduction::Normal => 0,
            NoiseReduction::MediumWeak => -1,
            NoiseReduction::Weak => -2,
            NoiseReduction::VeryWeak => -3,
            NoiseReduction::Weakest => -4,
        }
    }
}

/// The white-balance fine-tune pair, in camera units after the raw values
/// are scaled down by 20.
#[derive(Clone, Copy, Debug, PartialEq, Eq, Structural)]
pub struct WhiteBalanceFineTune {
    pub red: i8,
    pub blue: i8,
}

impl WhiteBalanceFineTune {
    /// Scale a raw (red, blue) pair down by 20, truncating toward zero, and
    /// narrow each to a signed byte, wrapping as an unchecked cast would.
    pub fn from_i32(red: i32, blue: i32) -> (r: WhiteBalanceFineTune)
        ensures
            r.red == wrap_i8(div_trunc(red as int, 20)),
            r.blue == wrap_i8(div_trunc(blue as int, 20)),
    {
        let red = div_trunc_i32(red, 20);
        let blue = div_trunc_i32(blue, 20);
        WhiteBalanceFineTune { red: narrow_i8(red), blue: narrow_i8(blue) }
    }
}

#[derive(Clone, Copy, Debug, PartialEq, Eq, Structural)]
pub enum GrainRoughness {
    Off,
    Weak,
    Strong,
}

/// The fixed grain-roughness table: the variant for a raw code, or nothing.
pub open spec fn grain_roughness_from_code(n: i32) -> Option<GrainRoughness> {
    if n == 0 {
        Some(GrainRoughness::Off)
    } else if n == 32 {
        Some(GrainRoughness::Weak)
    } else if n == 64 {
        Some(GrainRoughness::Strong)
    } else {
        None
    }
}

impl GrainRoughness {
    /// Decode a raw grain-roughness code; a code outside the table is
    /// rejected.
    pub fn from_i32(n: i32) -> (r: Result<GrainRoughness, FilmError>)
        ensures
            r == (match grain_roughness_from_code(n) {
                Some(v) => Ok::<GrainRoughness, FilmError>(v),
                None => Err::<GrainRoughness, FilmError>(
                    FilmError::UnexpectedValue(FieldKind::GrainRoughness, n),
                ),
            }),
    {
        match n {
            0 => Ok(GrainRoughness::Off),
            32 => Ok(GrainRoughness::Weak),
            64 => Ok(GrainRoughness::Strong),
            _ => Err(FilmError::UnexpectedValue(FieldKind::GrainRoughness, n)),
        }
    }
}

#[derive(Clone, Copy, Debug, PartialEq, Eq, Structural)]
pub enum GrainSize {
    Off,
    Small,
    Large,
}

/// The fixed grain-size table: the variant for a raw code, or nothing.
pub open spec fn grain_size_from_code(n: u16) -> Option<GrainSize> {
    if n == 0 {
        Some(GrainSize::Off)
    } else if n == 16 {
        Some(GrainSize::Small)
    } else if n == 32 {
        Some(GrainSize::Large)
    } else {
        None
    }
}

impl GrainSize {
    /// Decode a raw grain-size code; a code outside the table is rejected.
    pub fn from_u16(n: u16) -> (r: Result<GrainSize, FilmError>)
        ensures
            r == (match grain_size_from_code(n) {
                Some(v) => Ok::<GrainSize, FilmError>(v),
                None => Err::<GrainSize, FilmError>(
                    FilmError::UnexpectedValue(FieldKind::GrainSize, n as i32),
                ),
            }),
    {
        match n {
            0 => Ok(GrainSize::Off),
            16 => Ok(GrainSize::Small),
            32 => Ok(GrainSize::Large),
            _ => Err(FilmError::UnexpectedValue(FieldKind::GrainSize, n as i32)),
        }
    }
}

#[derive(Clone, Copy, Debug, PartialEq, Eq, Structural)]
pub enum ColorChrome {
    Off,
    Weak,
    Strong,
}

/// The fixed color-chrome table: the variant for a raw code, or nothing.
pub open spec fn color_chrome_from_code(n: i32) -> Option<ColorChrome> {
    if n == 0 {
        Some(ColorChrome::Off)
    } else if n == 32 {
        Some(ColorChrome::Weak)
    } else if n == 64 {
        Some(ColorChrome::Strong)
    } else {
        None
    }
}

impl ColorChrome {
    /// Decode a raw color-chrome code; a code outside the table is rejected.
    pub fn from_i32(n: i32) -> (r: Result<ColorChrome, FilmError>)
        ensures
            r == (match color_chrome_from_code(n) {
                Some(v) => Ok::<ColorChrome, FilmError>(v),
                None => Err::<ColorChrome, FilmError>(
                    FilmError::UnexpectedValue(FieldKind::ColorChrome, n),
                ),
            }),
    {
        match n {
            0 => Ok(ColorChrome::Off),
            32 => Ok(ColorChrome::Weak),
            64 => Ok(ColorChrome::Strong),
            _ => Err(FilmError::UnexpectedValue(FieldKind::ColorChrome, n)),
        }
    }
}

#[derive(Clone, Copy, Debug, PartialEq, Eq, Structural)]
pub enum ColorChromeFxBlue {
    Off,
    Weak,
    Strong,
}

/// The fixed color-chrome-blue table: the variant for a raw code, or nothing.
pub open spec fn color_chrome_fx_blue_from_code(n: i32) -> Option<ColorChromeFxBlue> {
    if n == 0 {
        Some(ColorChromeFxBlue::Off)
    } else if n == 32 {
        Some(ColorChromeFxBlue::Weak)
    } else if n == 64 {
        Some(ColorChromeFxBlue::Strong)
    } else {
        None
    }
}

impl ColorChromeFxBlue {
    /// Decode a raw color-chrome-blue code; a code outside the table is
    /// rejected.
    pub fn from_i32(n: i32) -> (r: Result<ColorChromeFxBlue, FilmError>)
        ensures
            r == (match color_chrome_fx_blue_from_code(n) {
                Some(v) => Ok::<ColorChromeFxBlue, FilmError>(v),
                None => Err::<ColorChromeFxBlue, FilmError>(
                    FilmError::UnexpectedValue(FieldKind::ColorChromeFxBlue, n),
                ),
            }),
    {
        match n {
            0 => Ok(ColorChromeFxBlue::Off),
            32 => Ok(ColorChromeFxBlue::Weak),
            64 => Ok(ColorChromeFxBlue::Strong),
            _ => Err(FilmError::UnexpectedValue(FieldKind::ColorChromeFxBlue, n)),
        }
    }
}

#[derive(Clone, Copy, Debug, PartialEq, Eq, Structural)]
pub enum FilmMode {
    Provia,
    Velvia,
    Astia,
    ProNegStd,
    ProNegHi,
    ClassicChrome,
    Eterna,
    ClassicNegative,
    NostalgicNeg,
    RealaACE,
}

/// The fixed film-simulation table: the variant for a raw code, or nothing.
pub open spec fn film_mode_from_code(n: u16) -> Option<FilmMode> {
    if n == 0x0 {
        Some(FilmMode::Provia)
    } else if n == 0x120 {
        Some(FilmMode::Astia)
    } else if n == 0x400 {
        Some(FilmMode::Velvia)
    } else if n == 0x500 {
        Some(FilmMode::ProNegStd)
    } else if n == 0x501 {
        Some(FilmMode::ProNegHi)
    } else if n == 0x600 {
        Some(FilmMode::ClassicChrome)
    } else if n == 0x700 {
        Some(FilmMode::Eterna)
    } else if n == 0x800 {
        Some(FilmMode::ClassicNegative)
    } else if n == 0xa00 {
        Some(FilmMode::NostalgicNeg)
    } else if n == 0xb00 {
        Some(FilmMode::RealaACE)
    } else {
        None
    }
}

impl FilmMode {
    /// Decode a raw film-simulation code; a code outside the table is
    /// rejected.
    pub fn from_u16(n: u16) -> (r: Result<FilmMode, FilmError>)
        ensures
            r == (match film_mode_from_code(n) {
                Some(v) => Ok::<FilmMode, FilmError>(v),
                None => Err::<FilmMode, FilmError>(
                    FilmError::UnexpectedValue(FieldKind::FilmMode, n as i32),
                ),
            }),
    {
        match n {
            0x0 => Ok(FilmMode::Provia),
            0x120 => Ok(FilmMode::Astia),
            0x400 => Ok(FilmMode::Velvia),
            0x500 => Ok(FilmMode::ProNegStd),
            0x501 => Ok(FilmMode::ProNegHi),
            0x600 => Ok(FilmMode::ClassicChrome),
            0x700 => Ok(FilmMode::Eterna),
            0x800 => Ok(FilmMode::ClassicNegative),
            0xa00 => Ok(FilmMode::NostalgicNeg),
            0xb00 => Ok(FilmMode::RealaACE),
            _ => Err(FilmError::UnexpectedValue(FieldKind::FilmMode, n as i32)),
        }
    }
}

#[derive(Clone, Copy, Debug, PartialEq, Eq, Structural)]
pub enum Shadow {
    Plus4,
    Plus3,
    Plus2,
    Plus1,
    Zero,
    Minus1,
    Minus2,
}

/// The fixed shadow table. The raw wire codes run opposite to the semantic
/// level: the most negative code is the strongest "plus" setting.
pub open spec fn shadow_from_code(n: i32) -> Option<Shadow> {
    if n == -64 {
        Some(Shadow::Plus4)
    } else if n == -48 {
        Some(Shadow::Plus3)
    } else if n == -32 {
        Some(Shadow::Plus2)
    } else if n == -16 {
        Some(Shadow::Plus1)
    } else if n == 0 {
        Some(Shadow::Zero)
    } else if n == 16 {
        Some(Shadow::Minus1)
    } else if n == 32 {
        Some(Shadow::Minus2)
    } else {
        None
    }
}

impl Shadow {
    /// The signed level this variant serializes to: Plus4 is 4, Minus2
    /// is -2.
    pub open spec fn spec_level(self) -> int {
        match self {
            Shadow::Plus4 => 4,
            Shadow::Plus3 => 3,
            Shadow::Plus2 => 2,
            Shadow::Plus1 => 1,
            Shadow::Zero => 0,
            Shadow::Minus1 => -1,
            Shadow::Minus2 => -2,
        }
    }

    /// Decode a raw shadow code; a code outside the table is rejected.
    pub fn from_i32(n: i32) -> (r: Result<Shadow, FilmError>)
        ensures
            r == (match shadow_from_code(n) {
                Some(v) => Ok::<Shadow, FilmError>(v),
                None => Err::<Shadow, FilmError>(
                    FilmError::UnexpectedValue(FieldKind::Shadow, n),
                ),
            }),
    {
        match n {
            -64 => Ok(Shadow::Plus4),
            -48 => Ok(Shadow::Plus3),
            -32 => Ok(Shadow::Plus2),
            -16 => Ok(Shadow::Plus1),
            0 => Ok(Shadow::Zero),
            16 => Ok(Shadow::Minus1),
            32 => Ok(Shadow::Minus2),
            _ => Err(FilmError::UnexpectedValue(FieldKind::Shadow, n)),
        }
    }

    /// The signed level as a machine integer, for serialization.
    pub fn level(&self) -> (r: i8)
        ensures
            r == self.spec_level(),
    {
        match self {
            Shadow::Plus4 => 4,
            Shadow::Plus3 => 3,
            Shadow::Plus2 => 2,
            Shadow::Plus1 => 1,
            Shadow::Zero => 0,
            Shadow::Minus1 => -1,
            Shadow::Minus2 => -2,
        }
    }
}

#[derive(Clone, Copy, Debug, PartialEq, Eq, Structural)]
pub enum Highlight {
    Plus4,
    Plus3,
    Plus2,
    Plus1,
    Zero,
    Minus1,
    Minus2,
}

/// The fixed highlight table. The raw wire codes run opposite to the
/// semantic level, exactly as for shadow.
pub open spec fn highlight_from_code(n: i32) -> Option<Highlight> {
    if n == -64 {
        Some(Highlight::Plus4)
    } else if n == -48 {
        Some(Highlight::Plus3)
    } else if n == -32 {
        Some(Highlight::Plus2)
    } else if n == -16 {
        Some(Highlight::Plus1)
    } else if n == 0 {
        Some(Highlight::Zero)
    } else if n == 16 {
        Some(Highlight::Minus1)
    } else if n == 32 {
        Some(Highlight::Minus2)
    } else {
        None
    }
}

impl Highlight {
    /// The signed level this variant serializes to: Plus4 is 4, Minus2
    /// is -2.
    pub open spec fn spec_level(self) -> int {
        match self {
            Highlight::Plus4 => 4,
            Highlight::Plus3 => 3,
            Highlight::Plus2 => 2,
            Highlight::Plus1 => 1,
            Highlight::Zero => 0,
            Highlight::Minus1 => -1,
            Highlight::Minus2 => -2,
        }
    }

    /// Decode a raw highlight code; a code outside the table is rejected.
    pub fn from_i32(n: i32) -> (r: Result<Highlight, FilmError>)
        ensures
            r == (match highlight_from_code(n) {
                Some(v) => Ok::<Highlight, FilmError>(v),
                None => Err::<Highlight, FilmError>(
                    FilmError::UnexpectedValue(FieldKind::Highlight, n),
                ),
            }),
    {
        match n {
            -64 => Ok(Highlight::Plus4),
            -48 => Ok(Highlight::Plus3),
            -32 => Ok(Highlight::Plus2),
            -16 => Ok(Highlight::Plus1),
            0 => Ok(Highlight::Zero),
            16 => Ok(Highlight::Minus1),
            32 => Ok(Highlight::Minus2),
            _ => Err(FilmError::UnexpectedValue(FieldKind::Highlight, n)),
        }
    }

    /// The signed level as a machine integer, for serialization.
    pub fn level(&self) -> (r: i8)
        ensures
            r == self.spec_level(),
    {
        match self {
            Highlight::Plus4 => 4,
            Highlight::Plus3 => 3,
            Highlight::Plus2 => 2,
            Highlight::Plus1 => 1,
            Highlight::Zero => 0,
            Highlight::Minus1 => -1,
            Highlight::Minus2 => -2,
        }
    }
}

/// Round trip for shadow: for every raw code the table recognizes, the
/// serialized level of the decoded variant is the raw code scaled by
/// minus one sixteenth — the level depends only on the setting, never on
/// the negative wire encoding.
pub proof fn lemma_shadow_round_trip(n: i32)
    requires
        shadow_from_code(n) is Some,
    ensures
        shadow_from_code(n).unwrap().spec_level() == -(n as int) / 16,
{
}

/// Round trip for highlight: the same relation as for shadow.
pub proof fn lemma_highlight_round_trip(n: i32)
    requires
        highlight_from_code(n) is Some,
    ensures
        highlight_from_code(n).unwrap().spec_level() == -(n as int) / 16,
{
}

} // verus!
