use vstd::prelude::*;

verus! {

/// The value of a hexadecimal digit, or -1 for any other character.
pub open spec fn hex_digit_value(c: char) -> int {
    if '0' <= c && c <= '9' {
        c as int - '0' as int
    } else if 'a' <= c && c <= 'f' {
        c as int - 'a' as int + 10
    } else if 'A' <= c && c <= 'F' {
        c as int - 'A' as int + 10
    } else {
        -1
    }
}

/// A colour in the form `RRGGBB` or `RRGGBBAA`.
pub open spec fn valid_hex_color(s: Seq<char>) -> bool {
    &&& s.len() == 6 || s.len() == 8
    &&& forall|i: int| 0 <= i < 6 ==> hex_digit_value(#[trigger] s[i]) >= 0
}

/// The channel written by the two digits at position `i` of `s`.
pub open spec fn channel_at(s: Seq<char>, i: int) -> int {
    16 * hex_digit_value(s[i]) + hex_digit_value(s[i + 1])
}

/// Why a colour could not be read.
#[derive(Debug, PartialEq, Eq, Structural)]
pub enum ColorError {
    /// Neither six nor eight characters long.
    BadLength,
    /// A character of the red, green or blue channel is no hexadecimal digit.
    BadDigit,
}

fn hex_digit(c: char) -> (r: Option<u8>)
    ensures
        hex_digit_value(c) < 0 ==> r is None,
        hex_digit_value(c) >= 0 ==> r == Some(hex_digit_value(c) as u8),
{
    if '0' <= c && c <= '9' {
        Some((c as u32 - '0' as u32) as u8)
    } else if 'a' <= c && c <= 'f' {
        Some((c as u32 - 'a' as u32 + 10) as u8)
    } else if 'A' <= c && c <= 'F' {
        Some((c as u32 - 'A' as u32 + 10) as u8)
    } else {
        None
    }
}

fn channel(s: &str, i: usize) -> (r: Option<u8>)
    requires
        i <= 4,
        i + 1 < s@.len(),
    ensures
        hex_digit_value(s@[i as int]) >= 0 && hex_digit_value(s@[i + 1]) >= 0 ==> r == Some(
            channel_at(s@, i as int) as u8,
        ),
        !(hex_digit_value(s@[i as int]) >= 0 && hex_digit_value(s@[i + 1]) >= 0) ==> r is None,
{
    let hi = match hex_digit(s.get_char(i)) {
        Some(d) => d,
        None => return None,
    };
    let lo = match hex_digit(s.get_char(i + 1)) {
        Some(d) => d,
        None => return None,
    };
    Some(16 * hi + lo)
}

/// Reads the red, green and blue channels of a colour written `RRGGBB` or
/// `RRGGBBAA` (the alpha pair is not read).
pub fn hex_color_components_from_str(s: &str) -> (r: Result<(u8, u8, u8), ColorError>)
    ensures
        s@.len() != 6 && s@.len() != 8 ==> r == Err::<(u8, u8, u8), ColorError>(
            ColorError::BadLength,
        ),
        (s@.len() == 6 || s@.len() == 8) && !valid_hex_color(s@) ==> r == Err::<
            (u8, u8, u8),
            ColorError,
        >(ColorError::BadDigit),
        valid_hex_color(s@) ==> r == Ok::<(u8, u8, u8), ColorError>(
            (
                channel_at(s@, 0) as u8,
                channel_at(s@, 2) as u8,
                channel_at(s@, 4) as u8,
            ),
        ),
{
    let n = s.unicode_len();
    if n != 6 && n != 8 {
        return Err(ColorError::BadLength);
    }
    let red = channel(s, 0);
    let green = channel(s, 2);
    let blue = channel(s, 4);
    match (red, green, blue) {
        (Some(red), Some(green), Some(blue)) => Ok((red, green, blue)),
        _ => {
            assert(!valid_hex_color(s@)) by {
                if red is None {
                    assert(hex_digit_value(s@[0]) < 0 || hex_digit_value(s@[1]) < 0);
                } else if green is None {
                    assert(hex_digit_value(s@[2]) < 0 || hex_digit_value(s@[3]) < 0);
                } else {
                    assert(hex_digit_value(s@[4]) < 0 || hex_digit_value(s@[5]) < 0);
                }
            }
            Err(ColorError::BadDigit)
        },
    }
}

} // verus!
