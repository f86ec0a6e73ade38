//! Colours held as channel bytes, and the `#RRGGBB` parser.

use vstd::prelude::*;

verus! {

/// An RGBA colour. Each channel is a byte `v` standing for the intensity
/// `v / 255` on the usual `0.0 ..= 1.0` scale.
#[derive(Clone, Copy, Debug, PartialEq, Eq, Structural)]
pub struct Color {
    pub r: u8,
    pub g: u8,
    pub b: u8,
    pub a: u8,
}

/// The alpha byte of a fully opaque colour (intensity 1.0).
pub const OPAQUE: u8 = 255;

/// Whether `c` is a hexadecimal digit, in either case.
pub open spec fn is_hex_digit(c: char) -> bool {
    ('0' <= c && c <= '9') || ('a' <= c && c <= 'f') || ('A' <= c && c <= 'F')
}

/// The value of the hexadecimal digit `c` (0 for any other character).
pub open spec fn hex_digit_value(c: char) -> nat {
    if '0' <= c && c <= '9' {
        (c as u32 - '0' as u32) as nat
    } else if 'a' <= c && c <= 'f' {
        (c as u32 - 'a' as u32 + 10) as nat
    } else if 'A' <= c && c <= 'F' {
        (c as u32 - 'A' as u32 + 10) as nat
    } else {
        0
    }
}

/// The byte written by the two hexadecimal digits at `i` and `i + 1` of `s`.
pub open spec fn hex_byte_at(s: Seq<char>, i: int) -> u8 {
    (16 * hex_digit_value(s[i]) + hex_digit_value(s[i + 1])) as u8
}

/// Whether `s` is a `#RRGGBB` colour: exactly seven characters, a `#`,
/// then six hexadecimal digits.
pub open spec fn is_hex_color(s: Seq<char>) -> bool {
    &&& s.len() == 7
    &&& s[0] == '#'
    &&& forall|i: int| 1 <= i < 7 ==> is_hex_digit(#[trigger] s[i])
}

/// The opaque colour that the `#RRGGBB` string `s` writes.
pub open spec fn hex_color_of(s: Seq<char>) -> Color {
    Color { r: hex_byte_at(s, 1), g: hex_byte_at(s, 3), b: hex_byte_at(s, 5), a: OPAQUE }
}

/// The value of a hexadecimal digit, or `None` for any other character.
fn hex_digit(c: char) -> (r: Option<u8>)
    ensures
        r.is_some() <==> is_hex_digit(c),
        r.is_some() ==> r.unwrap() as nat == hex_digit_value(c),
        r.is_some() ==> r.unwrap() < 16,
{
    if '0' <= c && c <= '9' {
        Some((c as u32 - '0' as u32) as u8)
    } else if 'a' <= c && c <= 'f' {
        Some((c as u32 - 'a' as u32 + 10) as u8)
    } else if 'A' <= c && c <= 'F' {
        Some((c as u32 - 'A' as u32 + 10) as u8)
    } else {
        None
    }
}

/// The byte written by two hexadecimal digits, high digit first.
fn hex_byte(s: &str, i: usize) -> (r: Option<u8>)
    requires
        s@.len() == 7,
        i < 6,
    ensures
        r.is_some() <==> is_hex_digit(s@[i as int]) && is_hex_digit(s@[i + 1]),
        r.is_some() ==> r.unwrap() == hex_byte_at(s@, i as int),
{
    match (hex_digit(s.get_char(i)), hex_digit(s.get_char(i + 1))) {
        (Some(hi), Some(lo)) => Some(16 * hi + lo),
        _ => None,
    }
}

/// Parses a `#RRGGBB` colour string into an opaque colour.
///
/// Returns `None` unless the string is exactly seven characters: a `#`
/// followed by six hexadecimal digits (either case). There is no shorthand
/// form, no alpha form and no form without the `#`.
pub fn hex_to_color(hex: &str) -> (r: Option<Color>)
    ensures
        r.is_some() <==> is_hex_color(hex@),
        r.is_some() ==> r.unwrap() == hex_color_of(hex@),
{
    if hex.unicode_len() != 7 || hex.get_char(0) != '#' {
        return None;
    }
    let red = hex_byte(hex, 1);
    let green = hex_byte(hex, 3);
    let blue = hex_byte(hex, 5);
    match (red, green, blue) {
        (Some(r), Some(g), Some(b)) => Some(Color { r, g, b, a: OPAQUE }),
        _ => {
            assert(!is_hex_color(hex@)) by {
                if red.is_none() {
                    assert(!is_hex_digit(hex@[1]) || !is_hex_digit(hex@[2]));
                } else if green.is_none() {
                    assert(!is_hex_digit(hex@[3]) || !is_hex_digit(hex@[4]));
                } else {
                    assert(!is_hex_digit(hex@[5]) || !is_hex_digit(hex@[6]));
                }
            }
            None
        },
    }
}

} // verus!
