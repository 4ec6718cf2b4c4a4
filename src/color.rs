//! Line colours written as `#RRGGBB`.
use vstd::prelude::*;

verus! {

/// An opaque colour as three channel bytes.
#[derive(Clone, Copy, Debug, PartialEq, Eq, Structural)]
pub struct Rgb {
    pub r: u8,
    pub g: u8,
    pub b: u8,
}

/// Why a colour string was refused.
#[derive(Clone, Copy, Debug, PartialEq, Eq, Structural)]
pub enum ColorConversionError {
    /// The string does not start with `#`.
    WrongBeginning,
    /// After `#` there are not exactly six hexadecimal digits.
    ParseInt,
}

/// The value of a hexadecimal digit, either case.
pub open spec fn hex_value(c: char) -> Option<u8> {
    if '0' <= c && c <= '9' {
        Some((c as u32 - '0' as u32) as u8)
    } else if 'a' <= c && c <= 'f' {
        Some((c as u32 - 'a' as u32 + 10) as u8)
    } else if 'A' <= c && c <= 'F' {
        Some((c as u32 - 'A' as u32 + 10) as u8)
    } else {
        None
    }
}

pub open spec fn is_hex(c: char) -> bool {
    hex_value(c) is Some
}

/// The byte written by the two digits at `i` and `i + 1`.
pub open spec fn byte_at(s: Seq<char>, i: int) -> u8 {
    (16 * hex_value(s[i])->Some_0 + hex_value(s[i + 1])->Some_0) as u8
}

/// What a colour string denotes.
pub open spec fn color_of(s: Seq<char>) -> Result<Rgb, ColorConversionError> {
    if s.len() == 0 || s[0] != '#' {
        Err(ColorConversionError::WrongBeginning)
    } else if s.len() != 7 || exists|i: int| 1 <= i < 7 && !is_hex(#[trigger] s[i]) {
        Err(ColorConversionError::ParseInt)
    } else {
        Ok(Rgb { r: byte_at(s, 1), g: byte_at(s, 3), b: byte_at(s, 5) })
    }
}

fn hex_digit(c: char) -> (r: Option<u8>)
    ensures
        r == hex_value(c),
        r matches Some(v) ==> v < 16,
{
    if '0' <= c && c <= '9' {
        Some((c as u32 - '0' as u32) as u8)
    } else if 'a' <= c && c <= 'f' {
        Some((c as u32 - 'a' as u32 + 10) as u8)
    } else if 'A' <= c && c <= 'F' {
        Some((c as u32 - 'A' as u32 + 10) as u8)
    } else {
        None
    }
}

fn hex_pair(s: &str, i: usize) -> (r: Option<u8>)
    requires
        s@.len() == 7,
        i < 6,
    ensures
        match r {
            Some(v) => is_hex(s@[i as int]) && is_hex(s@[i + 1]) && v == byte_at(s@, i as int),
            None => !is_hex(s@[i as int]) || !is_hex(s@[i + 1]),
        },
{
    match (hex_digit(s.get_char(i)), hex_digit(s.get_char(i + 1))) {
        (Some(hi), Some(lo)) => Some(16 * hi + lo),
        _ => None,
    }
}

/// Reads a colour written as `#` and six hexadecimal digits.
pub fn try_color_from_string(s: &str) -> (r: Result<Rgb, ColorConversionError>)
    ensures
        r == color_of(s@),
{
    let n = s.unicode_len();
    if n == 0 || s.get_char(0) != '#' {
        return Err(ColorConversionError::WrongBeginning);
    }
    if n != 7 {
        return Err(ColorConversionError::ParseInt);
    }
    let r = hex_pair(s, 1);
    let g = hex_pair(s, 3);
    let b = hex_pair(s, 5);
    match (r, g, b) {
        (Some(r), Some(g), Some(b)) => {
            assert forall|i: int| 1 <= i < 7 implies is_hex(#[trigger] s@[i]) by {
                assert(i == 1 || i == 2 || i == 3 || i == 4 || i == 5 || i == 6);
            }
            Ok(Rgb { r, g, b })
        },
        _ => Err(ColorConversionError::ParseInt),
    }
}

} // verus!
