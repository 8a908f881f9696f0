//! The tag-record walker: a single forward pass over the maker-note buffer.
//!
//! The buffer opens with the 8-byte ASCII vendor signature, then carries a
//! sequence of records: a 2-byte little-endian tag, a 2-byte data-type code,
//! a 4-byte component count, and a 4-byte inline value — 12 bytes in all.
//! One irregular tag marks an embedded raw-sensor sub-block and is followed
//! by 16 opaque bytes instead of the type/count/value triple. One tag's
//! inline value is an indirect byte offset into the same buffer, at which
//! the real payload (two signed 32-bit values) resides.
//!
//! `walk` is the mathematical definition of the pass; `decode` is the
//! executable cursor loop, proved to return exactly `decode_spec`.

use vstd::prelude::*;

use crate::bytes::{
    div_trunc, div_trunc_i32, le_i32, le_u16, le_u32, read_i32, slurp_i32, slurp_string,
    slurp_u16, slurp_u32, wrap_i8,
};
use crate::error::{FieldKind, FilmError};
use crate::fields::{
    color_chrome_from_code, color_chrome_fx_blue_from_code, dynamic_range_from_code,
    film_mode_from_code, grain_roughness_from_code, grain_size_from_code,
    highlight_from_code, noise_reduction_from_code, saturation_from_code,
    shadow_from_code, sharpness_from_code, white_balance_from_code, ColorChrome, ColorChromeFxBlue, DynamicRange,
    FilmMode, GrainRoughness, GrainSize, Highlight, NoiseReduction, Saturation, Shadow,
    Sharpness, WhiteBalance, WhiteBalanceFineTune,
};
use crate::settings::FujifilmSettings;

verus! {

/// The tag that introduces the raw-sensor sub-block: 16 opaque bytes follow
/// the tag itself, with no type/count/value triple.
pub const RAF_TAG: u16 = 0xc;

/// The buffer opens with the ASCII bytes of "FUJIFILM".
pub open spec fn has_signature(data: Seq<u8>) -> bool {
    &&& data.len() >= 8
    &&& data[0] == 0x46u8
    &&& data[1] == 0x55u8
    &&& data[2] == 0x4au8
    &&& data[3] == 0x49u8
    &&& data[4] == 0x46u8
    &&& data[5] == 0x49u8
    &&& data[6] == 0x4cu8
    &&& data[7] == 0x4du8
}

/// The tags the decoder table models.
pub open spec fn recognized_tag(tag: int) -> bool {
    ||| tag == 0x1001
    ||| tag == 0x1002
    ||| tag == 0x1003
    ||| tag == 0x100a
    ||| tag == 0x100e
    ||| tag == 0x100f
    ||| tag == 0x1040
    ||| tag == 0x1041
    ||| tag == 0x1047
    ||| tag == 0x1048
    ||| tag == 0x104c
    ||| tag == 0x104e
    ||| tag == 0x1401
    ||| tag == 0x1403
}

/// A position clipped to the end of the buffer, where a skip that overshoots
/// the final record comes to rest.
pub open spec fn clip(data: Seq<u8>, pos: int) -> int {
    if pos <= data.len() {
        pos
    } else {
        data.len() as int
    }
}

/// What one recognized (or unrecognized) record does to the settings being
/// accumulated. `vpos` is the position of the record's 4-byte inline value;
/// the caller guarantees `vpos + 4 <= data.len()`. The irregular raw-sensor
/// tag never reaches this table.
pub open spec fn step_tag(data: Seq<u8>, tag: int, vpos: int, cur: FujifilmSettings) -> Result<
    FujifilmSettings,
    FilmError,
> {
    if tag == 0x1001 {
        let code = (le_u32(data, vpos) % 0x1_0000) as u16;
        match sharpness_from_code(code) {
            Some(v) => Ok(FujifilmSettings { sharpness: v, ..cur }),
            None => Err(FilmError::UnexpectedValue(FieldKind::Sharpness, code as i32)),
        }
    } else if tag == 0x1002 {
        let code = (le_u32(data, vpos) % 0x1_0000) as u16;
        match white_balance_from_code(code) {
            Some(v) => Ok(FujifilmSettings { white_balance: v, ..cur }),
            None => Err(FilmError::UnexpectedValue(FieldKind::WhiteBalance, code as i32)),
        }
    } else if tag == 0x1003 {
        let code = (le_u32(data, vpos) % 0x1_0000) as u16;
        match saturation_from_code(code) {
            Some(v) => Ok(FujifilmSettings { saturation: v, ..cur }),
            None => Err(FilmError::UnexpectedValue(FieldKind::Saturation, code as i32)),
        }
    } else if tag == 0x100a {
        let dv = le_u32(data, vpos);
        if dv + 8 > data.len() {
            Err(FilmError::TruncatedRecord)
        } else {
            Ok(FujifilmSettings {
                white_balance_fine_tune: WhiteBalanceFineTune {
                    red: wrap_i8(div_trunc(le_i32(data, dv), 20)) as i8,
                    blue: wrap_i8(div_trunc(le_i32(data, dv + 4), 20)) as i8,
                },
                ..cur
            })
        }
    } else if tag == 0x100e {
        let code = (le_u32(data, vpos) % 0x1_0000) as u16;
        match noise_reduction_from_code(code) {
            Some(v) => Ok(FujifilmSettings { noise_reduction: v, ..cur }),
            None => Err(FilmError::UnexpectedValue(FieldKind::NoiseReduction, code as i32)),
        }
    } else if tag == 0x100f {
        Ok(FujifilmSettings { clarity: div_trunc(le_i32(data, vpos), 1000) as i32, ..cur })
    } else if tag == 0x1040 {
        let code = le_i32(data, vpos) as i32;
        match shadow_from_code(code) {
            Some(v) => Ok(FujifilmSettings { shadow: v, ..cur }),
            None => Err(FilmError::UnexpectedValue(FieldKind::Shadow, code)),
        }
    } else if tag == 0x1041 {
        let code = le_i32(data, vpos) as i32;
        match highlight_from_code(code) {
            Some(v) => Ok(FujifilmSettings { highlight: v, ..cur }),
            None => Err(FilmError::UnexpectedValue(FieldKind::Highlight, code)),
        }
    } else if tag == 0x1047 {
        let code = (le_u32(data, vpos) % 0x1_0000) as i32;
        match grain_roughness_from_code(code) {
            Some(v) => Ok(FujifilmSettings { grain_roughness: v, ..cur }),
            None => Err(FilmError::UnexpectedValue(FieldKind::GrainRoughness, code)),
        }
    } else if tag == 0x1048 {
        let code = (le_u32(data, vpos) % 0x1_0000) as i32;
        match color_chrome_from_code(code) {
            Some(v) => Ok(FujifilmSettings { color_chrome: v, ..cur }),
            None => Err(FilmError::UnexpectedValue(FieldKind::ColorChrome, code)),
        }
    } else if tag == 0x104c {
        let code = le_u16(data, vpos) as u16;
        match grain_size_from_code(code) {
            Some(v) => Ok(FujifilmSettings { grain_size: v, ..cur }),
            None => Err(FilmError::UnexpectedValue(FieldKind::GrainSize, code as i32)),
        }
    } else if tag == 0x104e {
        let code = (le_u32(data, vpos) % 0x1_0000) as i32;
        match color_chrome_fx_blue_from_code(code) {
            Some(v) => Ok(FujifilmSettings { color_chrome_fx_blue: v, ..cur }),
            None => Err(FilmError::UnexpectedValue(FieldKind::ColorChromeFxBlue, code)),
        }
    } else if tag == 0x1401 {
        let code = le_u16(data, vpos) as u16;
        match film_mode_from_code(code) {
            Some(v) => Ok(FujifilmSettings { film_mode: v, ..cur }),
            None => Err(FilmError::UnexpectedValue(FieldKind::FilmMode, code as i32)),
        }
    } else if tag == 0x1403 {
        // the dynamic-range tag may be firmware-dependent; this mapping is
        // the one observed on current bodies and is not verified against
        // every model
        let code = le_u16(data, vpos) as u16;
        match dynamic_range_from_code(code) {
            Some(v) => Ok(FujifilmSettings { dynamic_range: v, ..cur }),
            None => Err(FilmError::UnexpectedValue(FieldKind::DynamicRange, code as i32)),
        }
    } else {
        // an unrecognized tag: its 12 bytes are consumed and discarded, so
        // record framing is preserved
        Ok(cur)
    }
}

/// The walk from position `pos` to the end of the buffer, accumulating into
/// `cur`. A record that the buffer cannot hold whole is a truncation error;
/// a walk that stands at or past the end is complete.
pub open spec fn walk(data: Seq<u8>, pos: int, cur: FujifilmSettings) -> Result<
    FujifilmSettings,
    FilmError,
>
    decreases data.len() - pos,
{
    if pos >= data.len() {
        Ok(cur)
    } else if data.len() - pos < 2 {
        Err(FilmError::TruncatedRecord)
    } else {
        let tag = le_u16(data, pos);
        if tag == RAF_TAG {
            walk(data, clip(data, pos + 18), cur)
        } else if data.len() - pos < 12 {
            Err(FilmError::TruncatedRecord)
        } else {
            match step_tag(data, tag, pos + 8, cur) {
                Ok(next) => walk(data, pos + 12, next),
                Err(e) => Err(e),
            }
        }
    }
}

/// What decoding a maker-note buffer returns: a signature check, then the
/// record walk from the first byte after the signature, starting at the
/// camera's baseline settings.
pub open spec fn decode_spec(data: Seq<u8>) -> Result<FujifilmSettings, FilmError> {
    if !has_signature(data) {
        Err(FilmError::NotAFujifilmFile)
    } else {
        walk(data, 8, FujifilmSettings::spec_new())
    }
}

/// A buffer that does not open with the vendor signature always fails with
/// `NotAFujifilmFile`, whatever the rest of the buffer holds: no byte past
/// the signature is ever consulted.
pub proof fn lemma_unrecognized_signature_fails(data: Seq<u8>)
    requires
        !has_signature(data),
    ensures
        decode_spec(data) == Err::<FujifilmSettings, FilmError>(FilmError::NotAFujifilmFile),
{
}

/// The raw-sensor sub-block consumes exactly 16 bytes beyond its 2-byte tag
/// — 18 in all, clipped to the end of the buffer — and leaves the settings
/// untouched, whatever those 16 bytes hold.
pub proof fn lemma_raf_block_skipped(data: Seq<u8>, pos: int, cur: FujifilmSettings)
    requires
        0 <= pos < data.len(),
        data.len() - pos >= 2,
        le_u16(data, pos) == RAF_TAG,
    ensures
        walk(data, pos, cur) == walk(data, clip(data, pos + 18), cur),
{
}

/// An unrecognized tag — not in the decoder table and not the raw-sensor
/// marker — consumes exactly its whole 12-byte record and leaves the
/// settings untouched, so record framing is preserved for the records that
/// follow it.
pub proof fn lemma_unrecognized_tag_skipped(data: Seq<u8>, pos: int, cur: FujifilmSettings)
    requires
        0 <= pos < data.len(),
        data.len() - pos >= 12,
        !recognized_tag(le_u16(data, pos)),
        le_u16(data, pos) != RAF_TAG,
    ensures
        walk(data, pos, cur) == walk(data, pos + 12, cur),
{
    assert(step_tag(data, le_u16(data, pos), pos + 8, cur) == Ok::<
        FujifilmSettings,
        FilmError,
    >(cur));
}

/// Clarity is linear in the raw value: a clarity record always stores the
/// raw signed value divided by 1000, truncating toward zero, and touches
/// nothing else.
pub proof fn lemma_clarity_linear(data: Seq<u8>, pos: int, cur: FujifilmSettings)
    requires
        0 <= pos < data.len(),
        data.len() - pos >= 12,
        le_u16(data, pos) == 0x100f,
    ensures
        walk(data, pos, cur) == walk(
            data,
            pos + 12,
            FujifilmSettings { clarity: div_trunc(le_i32(data, pos + 8), 1000) as i32, ..cur },
        ),
{
}

/// Decode a maker-note buffer into the settings it records.
pub fn decode(data: &[u8]) -> (r: Result<FujifilmSettings, FilmError>)
    ensures
        r == decode_spec(data@),
{
    let n = data.len();
    if n < 8 {
        return Err(FilmError::NotAFujifilmFile);
    }
    let mut offset: usize = 0;
    let sig = slurp_string(data, &mut offset, 8);
    if !(sig[0] == 0x46 && sig[1] == 0x55 && sig[2] == 0x4a && sig[3] == 0x49 && sig[4] == 0x46
        && sig[5] == 0x49 && sig[6] == 0x4c && sig[7] == 0x4d) {
        return Err(FilmError::NotAFujifilmFile);
    }
    let mut result = FujifilmSettings::new();
    while offset < n
        invariant
            n == data@.len(),
            8 <= offset <= n,
            has_signature(data@),
            walk(data@, offset as int, result) == decode_spec(data@),
        decreases n - offset,
    {
        let ghost pos = offset as int;
        let ghost cur = result;
        if n - offset < 2 {
            return Err(FilmError::TruncatedRecord);
        }
        let tag = slurp_u16(data, &mut offset);

        // the raw-sensor sub-block: skip its 16 opaque bytes and resume at
        // the next record
        if tag == RAF_TAG {
            if n - offset < 16 {
                offset = n;
            } else {
                offset = offset + 16;
            }
            proof {
                assert(offset as int == clip(data@, pos + 18));
            }
            continue;
        }

        if n - offset < 10 {
            return Err(FilmError::TruncatedRecord);
        }
        let _data_type: u16 = slurp_u16(data, &mut offset);
        let _comp_count: u32 = slurp_u32(data, &mut offset);
        let ghost vpos = pos + 8;

        match tag {
            // the raw-sensor marker after the type/count header would be an
            // internal inconsistency of the layout; it is unreachable, since
            // the marker is always caught before the header is read
            0xc => {
                return Err(FilmError::UnexpectedRawBlock);
            }
            0x1001 => {
                let v = slurp_u32(data, &mut offset);
                let code = (v % 0x1_0000) as u16;
                match Sharpness::from_u16(code) {
                    Ok(x) => {
                        result.sharpness = x;
                    }
                    Err(e) => {
                        return Err(e);
                    }
                }
            }
            0x1002 => {
                let v = slurp_u32(data, &mut offset);
                let code = (v % 0x1_0000) as u16;
                match WhiteBalance::from_u16(code) {
                    Ok(x) => {
                        result.white_balance = x;
                    }
                    Err(e) => {
                        return Err(e);
                    }
                }
            }
            0x1003 => {
                let v = slurp_u32(data, &mut offset);
                let code = (v % 0x1_0000) as u16;
                match Saturation::from_u16(code) {
                    Ok(x) => {
                        result.saturation = x;
                    }
                    Err(e) => {
                        return Err(e);
                    }
                }
            }
            0x100a => {
                let dv = slurp_u32(data, &mut offset);
                if dv as usize > n - 8 {
                    return Err(FilmError::TruncatedRecord);
                }
                let red_raw = read_i32(data, dv as usize);
                let blue_raw = read_i32(data, dv as usize + 4);
                result.white_balance_fine_tune = WhiteBalanceFineTune::from_i32(
                    red_raw,
                    blue_raw,
                );
            }
            0x100e => {
                let v = slurp_u32(data, &mut offset);
                let code = (v % 0x1_0000) as u16;
                match NoiseReduction::from_u16(code) {
                    Ok(x) => {
                        result.noise_reduction = x;
                    }
                    Err(e) => {
                        return Err(e);
                    }
                }
            }
            0x100f => {
                let v = slurp_i32(data, &mut offset);
                result.clarity = div_trunc_i32(v, 1000);
            }
            0x1040 => {
                let v = slurp_i32(data, &mut offset);
                match Shadow::from_i32(v) {
                    Ok(x) => {
                        result.shadow = x;
                    }
                    Err(e) => {
                        return Err(e);
                    }
                }
            }
            0x1041 => {
                let v = slurp_i32(data, &mut offset);
                match Highlight::from_i32(v) {
                    Ok(x) => {
                        result.highlight = x;
                    }
                    Err(e) => {
                        return Err(e);
                    }
                }
            }
            0x1047 => {
                let v = slurp_u32(data, &mut offset);
                let code = (v % 0x1_0000) as i32;
                match GrainRoughness::from_i32(code) {
                    Ok(x) => {
                        result.grain_roughness = x;
                    }
                    Err(e) => {
                        return Err(e);
                    }
                }
            }
            0x1048 => {
                let v = slurp_u32(data, &mut offset);
                let code = (v % 0x1_0000) as i32;
                match ColorChrome::from_i32(code) {
                    Ok(x) => {
                        result.color_chrome = x;
                    }
                    Err(e) => {
                        return Err(e);
                    }
                }
            }
            0x104c => {
                let code = slurp_u16(data, &mut offset);
                offset = offset + 2;
                match GrainSize::from_u16(code) {
                    Ok(x) => {
                        result.grain_size = x;
                    }
                    Err(e) => {
                        return Err(e);
                    }
                }
            }
            0x104e => {
                let v = slurp_u32(data, &mut offset);
                let code = (v % 0x1_0000) as i32;
                match ColorChromeFxBlue::from_i32(code) {
                    Ok(x) => {
                        result.color_chrome_fx_blue = x;
                    }
                    Err(e) => {
                        return Err(e);
                    }
                }
            }
            0x1401 => {
                let code = slurp_u16(data, &mut offset);
                offset = offset + 2;
                match FilmMode::from_u16(code) {
                    Ok(x) => {
                        result.film_mode = x;
                    }
                    Err(e) => {
                        return Err(e);
                    }
                }
            }
            0x1403 => {
                let code = slurp_u16(data, &mut offset);
                offset = offset + 2;
                match DynamicRange::from_u16(code) {
                    Ok(x) => {
                        result.dynamic_range = x;
                    }
                    Err(e) => {
                        return Err(e);
                    }
                }
            }
            _ => {
                let _data_value: u32 = slurp_u32(data, &mut offset);
            }
        }
        proof {
            assert(offset as int == pos + 12);
            assert(step_tag(data@, tag as int, vpos, cur) == Ok::<FujifilmSettings, FilmError>(
                result,
            ));
        }
    }
    Ok(result)
}

} // verus!
