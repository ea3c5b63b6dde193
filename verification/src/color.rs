//! Colours written as hexadecimal digits.

use vstd::prelude::*;
use vstd::string::StringSliceAdditionalSpecFns;

verus! {

/// A colour: red, green, blue and alpha, each from 0 to 255.
#[derive(Clone, Copy, Debug, Default, PartialEq, Eq, Structural)]
pub struct Color(pub u8, pub u8, pub u8, pub u8);

/// Why a text is not a colour.
#[derive(Clone, Copy, Debug, PartialEq, Eq, Structural)]
pub enum ColorError {
    InvalidRed,
    InvalidGreen,
    InvalidBlue,
    InvalidAlpha,
    /// The text is not 3, 4, 6 or 8 bytes long.
    InvalidLength,
}

/// The value of a hexadecimal digit, in either case.
pub open spec fn spec_hex_digit(b: u8) -> Option<u8> {
    if 0x30 <= b <= 0x39 {
        Some((b - 0x30) as u8)
    } else if 0x41 <= b <= 0x46 {
        Some((b - 0x41 + 10) as u8)
    } else if 0x61 <= b <= 0x66 {
        Some((b - 0x61 + 10) as u8)
    } else {
        None
    }
}

/// The component that one digit stands for: the digit doubled, so that `f`
/// is 255.
pub open spec fn spec_short(b: u8) -> Option<u8> {
    match spec_hex_digit(b) {
        Some(d) => Some((17 * d) as u8),
        None => None,
    }
}

/// The component that two bytes stand for: two digits, or a plus sign and
/// one digit.
pub open spec fn spec_long(hi: u8, lo: u8) -> Option<u8> {
    match spec_hex_digit(lo) {
        Some(l) => if hi == 0x2b {
            Some(l)
        } else {
            match spec_hex_digit(hi) {
                Some(h) => Some((16 * h + l) as u8),
                None => None,
            }
        },
        None => None,
    }
}

/// The component at place `k` of a text of `bytes`, where each component
/// takes `width` bytes, one or two.
pub open spec fn spec_component(bytes: Seq<u8>, width: int, k: int) -> Option<u8> {
    if width == 1 {
        spec_short(bytes[k])
    } else {
        spec_long(bytes[2 * k], bytes[2 * k + 1])
    }
}

/// The colour that a text of `bytes` stands for. Three or four bytes are
/// one digit per component, six or eight are two bytes per component; where
/// the alpha component is missing it is 255. The first component that is
/// not a number, in the order red, green, blue, alpha, is the error.
pub open spec fn spec_color(bytes: Seq<u8>) -> Result<Color, ColorError> {
    let n = bytes.len();
    if n != 3 && n != 4 && n != 6 && n != 8 {
        Err(ColorError::InvalidLength)
    } else {
        let width: int = if n <= 4 {
            1
        } else {
            2
        };
        let with_alpha = n == 4 || n == 8;
        match spec_component(bytes, width, 0) {
            None => Err(ColorError::InvalidRed),
            Some(r) => match spec_component(bytes, width, 1) {
                None => Err(ColorError::InvalidGreen),
                Some(g) => match spec_component(bytes, width, 2) {
                    None => Err(ColorError::InvalidBlue),
                    Some(b) => if with_alpha {
                        match spec_component(bytes, width, 3) {
                            None => Err(ColorError::InvalidAlpha),
                            Some(a) => Ok(Color(r, g, b, a)),
                        }
                    } else {
                        Ok(Color(r, g, b, 255))
                    },
                },
            },
        }
    }
}

fn hex_digit(b: u8) -> (r: Option<u8>)
    ensures
        r == spec_hex_digit(b),
        r.is_some() ==> r.unwrap() < 16,
{
    if 0x30 <= b && b <= 0x39 {
        Some(b - 0x30)
    } else if 0x41 <= b && b <= 0x46 {
        Some(b - 0x41 + 10)
    } else if 0x61 <= b && b <= 0x66 {
        Some(b - 0x61 + 10)
    } else {
        None
    }
}

fn component(bytes: &[u8], wide: bool, k: usize) -> (r: Option<u8>)
    requires
        k < 4,
        wide ==> 2 * k + 1 < bytes@.len(),
        !wide ==> k < bytes@.len(),
    ensures
        r == spec_component(bytes@, if wide { 2int } else { 1int }, k as int),
{
    if wide {
        let lo = hex_digit(bytes[2 * k + 1]);
        match lo {
            Some(l) => {
                if bytes[2 * k] == 0x2b {
                    Some(l)
                } else {
                    match hex_digit(bytes[2 * k]) {
                        Some(h) => Some(16 * h + l),
                        None => None,
                    }
                }
            },
            None => None,
        }
    } else {
        match hex_digit(bytes[k]) {
            Some(d) => Some(17 * d),
            None => None,
        }
    }
}

impl Color {
    /// Reads a colour from its hexadecimal text.
    pub fn from_str(s: &str) -> (r: Result<Color, ColorError>)
        ensures
            r == spec_color(s.spec_bytes()),
    {
        let bytes = s.as_bytes();
        let n = bytes.len();
        if n != 3 && n != 4 && n != 6 && n != 8 {
            return Err(ColorError::InvalidLength);
        }
        let wide = n > 4;
        let with_alpha = n == 4 || n == 8;
        let r = match component(bytes, wide, 0) {
            Some(v) => v,
            None => {
                return Err(ColorError::InvalidRed);
            },
        };
        let g = match component(bytes, wide, 1) {
            Some(v) => v,
            None => {
                return Err(ColorError::InvalidGreen);
            },
        };
        let b = match component(bytes, wide, 2) {
            Some(v) => v,
            None => {
                return Err(ColorError::InvalidBlue);
            },
        };
        if with_alpha {
            match component(bytes, wide, 3) {
                Some(a) => Ok(Color(r, g, b, a)),
                None => Err(ColorError::InvalidAlpha),
            }
        } else {
            Ok(Color(r, g, b, 255))
        }
    }
}

} // verus!
