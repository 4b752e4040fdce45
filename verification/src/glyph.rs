//! Glyph source: one random visible character per call, drawn either from the
//! printable ASCII band or from the half-width katakana block.

use vstd::prelude::*;
use vstd::pervasive::unreached;
use crate::rng::gen_range_usize;
use rand_xorshift::XorShiftRng;

verus! {

/// Lowest printable ASCII glyph code point (`!`).
pub const ASCII_MIN: u32 = 0x21;

/// Highest printable ASCII glyph code point (`~`).
pub const ASCII_MAX: u32 = 0x7e;

/// Lowest half-width katakana glyph code point.
pub const KANA_MIN: u32 = 0xff62;

/// Highest half-width katakana glyph code point.
pub const KANA_MAX: u32 = 0xff9d;

/// Which alphabet streams draw their glyphs from.
#[derive(Clone, Copy, Debug, PartialEq, Eq, Structural)]
pub enum CharType {
    Ascii,
    Kana,
}

/// A code point that could not be decoded into a character, because it is no
/// Unicode scalar value.
#[derive(Clone, Copy, Debug, PartialEq, Eq, Structural)]
pub struct DecodeError {
    pub code: u32,
}

/// Whether a code point is a Unicode scalar value: anything up to 0x10FFFF
/// except the surrogate block.
pub open spec fn spec_valid_scalar(code: u32) -> bool {
    code < 0xD800 || (0xDFFF < code && code <= 0x10FFFF)
}

/// Whether a character belongs to the alphabet of the given mode.
pub open spec fn glyph_in_mode(mode: CharType, c: char) -> bool {
    match mode {
        CharType::Ascii => ASCII_MIN <= c as u32 && c as u32 <= ASCII_MAX,
        CharType::Kana => KANA_MIN <= c as u32 && c as u32 <= KANA_MAX,
    }
}

/// Relies on char::from_u32: returns Some exactly when the code point is a
/// Unicode scalar value (not a surrogate, at most 0x10FFFF), and the returned
/// character then has exactly that code point.
#[verifier::external_body]
fn char_from_u32(code: u32) -> (r: Option<char>)
    ensures
        r is Some <==> spec_valid_scalar(code),
        r is Some ==> r.unwrap() as u32 == code,
{
    char::from_u32(code)
}

/// Decode a code point into a character: succeeds exactly on Unicode scalar
/// values; anything else is reported, never silently dropped.
pub fn decode_glyph(code: u32) -> (r: Result<char, DecodeError>)
    ensures
        r is Ok <==> spec_valid_scalar(code),
        r is Ok ==> r.unwrap() as u32 == code,
        r is Err ==> r.unwrap_err() == (DecodeError { code }),
{
    match char_from_u32(code) {
        Some(c) => Ok(c),
        None => Err(DecodeError { code }),
    }
}

/// One uniformly random printable ASCII glyph (code points 0x21 through 0x7e,
/// space and DEL excluded).
pub fn random_ascii(rng: &mut XorShiftRng) -> (c: char)
    ensures
        glyph_in_mode(CharType::Ascii, c),
{
    let code: usize = gen_range_usize(rng, 0x21, 0x7f);
    match decode_glyph(code as u32) {
        Ok(c) => c,
        Err(_) => unreached(),
    }
}

/// One uniformly random half-width katakana glyph (code points 0xff62 through
/// 0xff9d). The fixed range holds only scalar values, so decoding is shown to
/// never fail here.
pub fn random_kana(rng: &mut XorShiftRng) -> (c: char)
    ensures
        glyph_in_mode(CharType::Kana, c),
{
    let code: usize = gen_range_usize(rng, 0xff62, 0xff9e);
    match decode_glyph(code as u32) {
        Ok(c) => c,
        Err(_) => unreached(),
    }
}

/// One random glyph from the alphabet of the given mode.
pub fn next_glyph(rng: &mut XorShiftRng, mode: CharType) -> (c: char)
    ensures
        glyph_in_mode(mode, c),
{
    match mode {
        CharType::Ascii => random_ascii(rng),
        CharType::Kana => random_kana(rng),
    }
}

} // verus!
