//! Per-family decoder-table tests: every recognized raw code maps to its
//! variant, and codes outside a table are rejected carrying the exact code.

use film_detect::error::{FieldKind, FilmError};
use film_detect::fields::{
    ColorChrome, ColorChromeFxBlue, DynamicRange, FilmMode, GrainRoughness, GrainSize,
    Highlight, NoiseReduction, Saturation, Shadow, Sharpness, WhiteBalance,
    WhiteBalanceFineTune,
};

#[test]
fn saturation_table() {
    assert_eq!(Saturation::from_u16(0x0), Ok(Saturation::Normal));
    assert_eq!(Saturation::from_u16(0x80), Ok(Saturation::MediumHigh));
    assert_eq!(Saturation::from_u16(0xc0), Ok(Saturation::VeryHigh));
    assert_eq!(Saturation::from_u16(0xe0), Ok(Saturation::Highest));
    assert_eq!(Saturation::from_u16(0x100), Ok(Saturation::High));
    assert_eq!(Saturation::from_u16(0x180), Ok(Saturation::MediumLow));
    assert_eq!(Saturation::from_u16(0x200), Ok(Saturation::Low));
    assert_eq!(Saturation::from_u16(0x300), Ok(Saturation::NoneBW));
    assert_eq!(Saturation::from_u16(0x301), Ok(Saturation::BWRed));
    assert_eq!(Saturation::from_u16(0x302), Ok(Saturation::BWYellow));
    assert_eq!(Saturation::from_u16(0x303), Ok(Saturation::BWGreen));
    assert_eq!(Saturation::from_u16(0x310), Ok(Saturation::BWSepia));
    assert_eq!(Saturation::from_u16(0x4c0), Ok(Saturation::VeryLow));
    assert_eq!(Saturation::from_u16(0x4e0), Ok(Saturation::Lowest));
    assert_eq!(Saturation::from_u16(0x500), Ok(Saturation::Acros));
    assert_eq!(Saturation::from_u16(0x501), Ok(Saturation::AcrosRed));
    assert_eq!(Saturation::from_u16(0x502), Ok(Saturation::AcrosYellow));
    assert_eq!(Saturation::from_u16(0x503), Ok(Saturation::AcrosGreen));
}

#[test]
fn saturation_rejects_unknown_code() {
    assert_eq!(
        Saturation::from_u16(0x81),
        Err(FilmError::UnexpectedValue(FieldKind::Saturation, 0x81))
    );
}

#[test]
fn sharpness_table() {
    assert_eq!(Sharpness::from_u16(0x0), Ok(Sharpness::Softest));
    assert_eq!(Sharpness::from_u16(0x1), Ok(Sharpness::VerySoft));
    assert_eq!(Sharpness::from_u16(0x2), Ok(Sharpness::Soft));
    assert_eq!(Sharpness::from_u16(0x3), Ok(Sharpness::Normal));
    assert_eq!(Sharpness::from_u16(0x4), Ok(Sharpness::Hard));
    assert_eq!(Sharpness::from_u16(0x5), Ok(Sharpness::VeryHard));
    assert_eq!(Sharpness::from_u16(0x6), Ok(Sharpness::Hardest));
    assert_eq!(Sharpness::from_u16(0x82), Ok(Sharpness::MediumSoft));
    assert_eq!(Sharpness::from_u16(0x84), Ok(Sharpness::MediumHard));
}

#[test]
fn sharpness_rejects_unknown_code() {
    assert_eq!(
        Sharpness::from_u16(0x7),
        Err(FilmError::UnexpectedValue(FieldKind::Sharpness, 0x7))
    );
}

#[test]
fn sharpness_levels() {
    assert_eq!(Sharpness::Softest.level(), -4);
    assert_eq!(Sharpness::VerySoft.level(), -3);
    assert_eq!(Sharpness::Soft.level(), -2);
    assert_eq!(Sharpness::MediumSoft.level(), -1);
    assert_eq!(Sharpness::Normal.level(), 0);
    assert_eq!(Sharpness::MediumHard.level(), 1);
    assert_eq!(Sharpness::Hard.level(), 2);
    assert_eq!(Sharpness::VeryHard.level(), 3);
    assert_eq!(Sharpness::Hardest.level(), 4);
}

#[test]
fn white_balance_table() {
    assert_eq!(WhiteBalance::from_u16(0x0), Ok(WhiteBalance::Auto));
    assert_eq!(WhiteBalance::from_u16(0x1), Ok(WhiteBalance::AutoWhitePriority));
    assert_eq!(WhiteBalance::from_u16(0x2), Ok(WhiteBalance::AutoAmbiancePriority));
    assert_eq!(WhiteBalance::from_u16(0x100), Ok(WhiteBalance::Daylight));
    assert_eq!(WhiteBalance::from_u16(0x200), Ok(WhiteBalance::Cloudy));
    assert_eq!(WhiteBalance::from_u16(0x300), Ok(WhiteBalance::DaylightFluorescent));
    assert_eq!(WhiteBalance::from_u16(0x301), Ok(WhiteBalance::DayWhiteFluorescent));
    assert_eq!(WhiteBalance::from_u16(0x302), Ok(WhiteBalance::WhiteFluorescent));
    assert_eq!(WhiteBalance::from_u16(0x303), Ok(WhiteBalance::WarmWhiteFluorescent));
    assert_eq!(
        WhiteBalance::from_u16(0x304),
        Ok(WhiteBalance::LivingRoomWarmWhiteFluorescent)
    );
    assert_eq!(WhiteBalance::from_u16(0x400), Ok(WhiteBalance::Incandescent));
    assert_eq!(WhiteBalance::from_u16(0x500), Ok(WhiteBalance::Flash));
    assert_eq!(WhiteBalance::from_u16(0x600), Ok(WhiteBalance::Underwater));
    assert_eq!(WhiteBalance::from_u16(0xf00), Ok(WhiteBalance::Custom));
    assert_eq!(WhiteBalance::from_u16(0xf01), Ok(WhiteBalance::Custom2));
    assert_eq!(WhiteBalance::from_u16(0xf02), Ok(WhiteBalance::Custom3));
    assert_eq!(WhiteBalance::from_u16(0xf03), Ok(WhiteBalance::Custom4));
    assert_eq!(WhiteBalance::from_u16(0xf04), Ok(WhiteBalance::Custom5));
    assert_eq!(WhiteBalance::from_u16(0xff0), Ok(WhiteBalance::Kelvin));
}

#[test]
fn white_balance_rejects_unknown_code() {
    assert_eq!(
        WhiteBalance::from_u16(0x700),
        Err(FilmError::UnexpectedValue(FieldKind::WhiteBalance, 0x700))
    );
}

#[test]
fn noise_reduction_table() {
    assert_eq!(NoiseReduction::from_u16(0x0), Ok(NoiseReduction::Normal));
    assert_eq!(NoiseReduction::from_u16(0x100), Ok(NoiseReduction::Strong));
    assert_eq!(NoiseReduction::from_u16(0x180), Ok(NoiseReduction::MediumStrong));
    assert_eq!(NoiseReduction::from_u16(0x1c0), Ok(NoiseReduction::VeryStrong));
    assert_eq!(NoiseReduction::from_u16(0x1e0), Ok(NoiseReduction::Strongest));
    assert_eq!(NoiseReduction::from_u16(0x200), Ok(NoiseReduction::Weak));
    assert_eq!(NoiseReduction::from_u16(0x280), Ok(NoiseReduction::MediumWeak));
    assert_eq!(NoiseReduction::from_u16(0x2c0), Ok(NoiseReduction::VeryWeak));
    assert_eq!(NoiseReduction::from_u16(0x2e0), Ok(NoiseReduction::Weakest));
}

#[test]
fn noise_reduction_rejects_unknown_code() {
    assert_eq!(
        NoiseReduction::from_u16(0x140),
        Err(FilmError::UnexpectedValue(FieldKind::NoiseReduction, 0x140))
    );
}

#[test]
fn noise_reduction_levels() {
    assert_eq!(NoiseReduction::Weakest.level(), -4);
    assert_eq!(NoiseReduction::VeryWeak.level(), -3);
    assert_eq!(NoiseReduction::Weak.level(), -2);
    assert_eq!(NoiseReduction::MediumWeak.level(), -1);
    assert_eq!(NoiseReduction::Normal.level(), 0);
    assert_eq!(NoiseReduction::MediumStrong.level(), 1);
    assert_eq!(NoiseReduction::Strong.level(), 2);
    assert_eq!(NoiseReduction::VeryStrong.level(), 3);
    assert_eq!(NoiseReduction::Strongest.level(), 4);
}

#[test]
fn shadow_table_and_round_trip() {
    // the raw codes run opposite to the serialized level
    assert_eq!(Shadow::from_i32(-64), Ok(Shadow::Plus4));
    assert_eq!(Shadow::from_i32(-48), Ok(Shadow::Plus3));
    assert_eq!(Shadow::from_i32(-32), Ok(Shadow::Plus2));
    assert_eq!(Shadow::from_i32(-16), Ok(Shadow::Plus1));
    assert_eq!(Shadow::from_i32(0), Ok(Shadow::Zero));
    assert_eq!(Shadow::from_i32(16), Ok(Shadow::Minus1));
    assert_eq!(Shadow::from_i32(32), Ok(Shadow::Minus2));
    for (code, level) in [(-64, 4), (-48, 3), (-32, 2), (-16, 1), (0, 0), (16, -1), (32, -2)] {
        assert_eq!(Shadow::from_i32(code).unwrap().level(), level);
    }
}

#[test]
fn shadow_rejects_unknown_code() {
    assert_eq!(Shadow::from_i32(8), Err(FilmError::UnexpectedValue(FieldKind::Shadow, 8)));
    assert_eq!(Shadow::from_i32(-80), Err(FilmError::UnexpectedValue(FieldKind::Shadow, -80)));
}

#[test]
fn highlight_table_and_round_trip() {
    assert_eq!(Highlight::from_i32(-64), Ok(Highlight::Plus4));
    assert_eq!(Highlight::from_i32(-48), Ok(Highlight::Plus3));
    assert_eq!(Highlight::from_i32(-32), Ok(Highlight::Plus2));
    assert_eq!(Highlight::from_i32(-16), Ok(Highlight::Plus1));
    assert_eq!(Highlight::from_i32(0), Ok(Highlight::Zero));
    assert_eq!(Highlight::from_i32(16), Ok(Highlight::Minus1));
    assert_eq!(Highlight::from_i32(32), Ok(Highlight::Minus2));
    for (code, level) in [(-64, 4), (-48, 3), (-32, 2), (-16, 1), (0, 0), (16, -1), (32, -2)] {
        assert_eq!(Highlight::from_i32(code).unwrap().level(), level);
    }
}

#[test]
fn highlight_rejects_unknown_code() {
    assert_eq!(
        Highlight::from_i32(48),
        Err(FilmError::UnexpectedValue(FieldKind::Highlight, 48))
    );
}

#[test]
fn grain_roughness_table() {
    assert_eq!(GrainRoughness::from_i32(0), Ok(GrainRoughness::Off));
    assert_eq!(GrainRoughness::from_i32(32), Ok(GrainRoughness::Weak));
    assert_eq!(GrainRoughness::from_i32(64), Ok(GrainRoughness::Strong));
    assert_eq!(
        GrainRoughness::from_i32(16),
        Err(FilmError::UnexpectedValue(FieldKind::GrainRoughness, 16))
    );
}

#[test]
fn grain_size_table() {
    assert_eq!(GrainSize::from_u16(0), Ok(GrainSize::Off));
    assert_eq!(GrainSize::from_u16(16), Ok(GrainSize::Small));
    assert_eq!(GrainSize::from_u16(32), Ok(GrainSize::Large));
    assert_eq!(GrainSize::from_u16(64), Err(FilmError::UnexpectedValue(FieldKind::GrainSize, 64)));
}

#[test]
fn color_chrome_table() {
    assert_eq!(ColorChrome::from_i32(0), Ok(ColorChrome::Off));
    assert_eq!(ColorChrome::from_i32(32), Ok(ColorChrome::Weak));
    assert_eq!(ColorChrome::from_i32(64), Ok(ColorChrome::Strong));
    assert_eq!(
        ColorChrome::from_i32(96),
        Err(FilmError::UnexpectedValue(FieldKind::ColorChrome, 96))
    );
}

#[test]
fn color_chrome_fx_blue_table() {
    assert_eq!(ColorChromeFxBlue::from_i32(0), Ok(ColorChromeFxBlue::Off));
    assert_eq!(ColorChromeFxBlue::from_i32(32), Ok(ColorChromeFxBlue::Weak));
    assert_eq!(ColorChromeFxBlue::from_i32(64), Ok(ColorChromeFxBlue::Strong));
    assert_eq!(
        ColorChromeFxBlue::from_i32(-32),
        Err(FilmError::UnexpectedValue(FieldKind::ColorChromeFxBlue, -32))
    );
}

#[test]
fn film_mode_table() {
    assert_eq!(FilmMode::from_u16(0x0), Ok(FilmMode::Provia));
    assert_eq!(FilmMode::from_u16(0x120), Ok(FilmMode::Astia));
    assert_eq!(FilmMode::from_u16(0x400), Ok(FilmMode::Velvia));
    assert_eq!(FilmMode::from_u16(0x500), Ok(FilmMode::ProNegStd));
    assert_eq!(FilmMode::from_u16(0x501), Ok(FilmMode::ProNegHi));
    assert_eq!(FilmMode::from_u16(0x600), Ok(FilmMode::ClassicChrome));
    assert_eq!(FilmMode::from_u16(0x700), Ok(FilmMode::Eterna));
    assert_eq!(FilmMode::from_u16(0x800), Ok(FilmMode::ClassicNegative));
    assert_eq!(FilmMode::from_u16(0xa00), Ok(FilmMode::NostalgicNeg));
    assert_eq!(FilmMode::from_u16(0xb00), Ok(FilmMode::RealaACE));
    assert_eq!(
        FilmMode::from_u16(0x900),
        Err(FilmError::UnexpectedValue(FieldKind::FilmMode, 0x900))
    );
}

#[test]
fn dynamic_range_table() {
    assert_eq!(DynamicRange::from_u16(0), Ok(DynamicRange::Auto));
    assert_eq!(DynamicRange::from_u16(100), Ok(DynamicRange::DR100));
    assert_eq!(DynamicRange::from_u16(200), Ok(DynamicRange::DR200));
    assert_eq!(DynamicRange::from_u16(400), Ok(DynamicRange::DR400));
    assert_eq!(
        DynamicRange::from_u16(300),
        Err(FilmError::UnexpectedValue(FieldKind::DynamicRange, 300))
    );
}

#[test]
fn fine_tune_scales_by_twenty() {
    // the documented pair: raw (40, -20) scales to (2, -1)
    let p = WhiteBalanceFineTune::from_i32(40, -20);
    assert_eq!(p.red, 2);
    assert_eq!(p.blue, -1);
}

#[test]
fn fine_tune_truncates_toward_zero() {
    let p = WhiteBalanceFineTune::from_i32(39, -39);
    assert_eq!(p.red, 1);
    assert_eq!(p.blue, -1);
}

#[test]
fn fine_tune_narrows_like_a_cast() {
    // 6000 / 20 = 300, which wraps to 44 in a signed byte, exactly as an
    // unchecked narrowing cast would
    let p = WhiteBalanceFineTune::from_i32(6000, -6000);
    assert_eq!(p.red, 300i32 as i8);
    assert_eq!(p.blue, -300i32 as i8);
}
