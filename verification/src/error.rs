//! The decoder's error taxonomy. Every error is fatal to the decode that
//! raised it; no partial settings are ever returned.

use vstd::prelude::*;

verus! {

/// The camera setting a record encodes, named so that a rejected raw code
/// can say which field refused it.
#[derive(Clone, Copy, Debug, PartialEq, Eq, Structural)]
pub enum FieldKind {
    Sharpness,
    WhiteBalance,
    Saturation,
    NoiseReduction,
    Shadow,
    Highlight,
    GrainRoughness,
    GrainSize,
    ColorChrome,
    ColorChromeFxBlue,
    FilmMode,
    DynamicRange,
}

/// Why a decode failed.
#[derive(Clone, Copy, Debug, PartialEq, Eq, Structural)]
pub enum FilmError {
    /// The buffer does not open with the expected vendor signature.
    NotAFujifilmFile,
    /// The raw-sensor marker stood where a normal record was expected.
    UnexpectedRawBlock,
    /// The buffer ended inside a record, or an indirect offset pointed
    /// past the end of the buffer.
    TruncatedRecord,
    /// A recognized tag carried a raw code outside its fixed table; the
    /// field and the offending code are carried along.
    UnexpectedValue(FieldKind, i32),
}

} // verus!
