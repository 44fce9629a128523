//! Colour values and parsing of `#RRGGBB` hex strings.

use vstd::prelude::*;

verus! {

/// An 8-bit-per-channel RGB colour.
#[derive(Clone, Copy, PartialEq, Eq, Structural, Debug)]
pub struct Rgb8 {
    pub r: u8,
    pub g: u8,
    pub b: u8,
}

/// The value of an ASCII hex digit, or `None` for any other character.
pub open spec fn spec_hex_digit(c: char) -> Option<u8> {
    if '0' <= c && c <= '9' {
        Some((c as u8 - '0' as u8) as u8)
    } else if 'a' <= c && c <= 'f' {
        Some((c as u8 - 'a' as u8 + 10) as u8)
    } else if 'A' <= c && c <= 'F' {
        Some((c as u8 - 'A' as u8 + 10) as u8)
    } else {
        None
    }
}

/// Two hex digits read as one byte, high digit first.
pub open spec fn spec_hex_byte(hi: char, lo: char) -> Option<u8> {
    match (spec_hex_digit(hi), spec_hex_digit(lo)) {
        (Some(h), Some(l)) => Some((h * 16 + l) as u8),
        _ => None,
    }
}

/// A colour string the parser accepts: `#` followed by six hex digits.
pub open spec fn spec_valid_hex_color(s: Seq<char>) -> bool {
    &&& s.len() == 7
    &&& s[0] == '#'
    &&& forall|i: int| 1 <= i < 7 ==> spec_hex_digit(#[trigger] s[i]) is Some
}

/// The colour denoted by a valid `#RRGGBB` string.
pub open spec fn spec_hex_color(s: Seq<char>) -> Rgb8
    recommends
        spec_valid_hex_color(s),
{
    Rgb8 {
        r: spec_hex_byte(s[1], s[2]).unwrap(),
        g: spec_hex_byte(s[3], s[4]).unwrap(),
        b: spec_hex_byte(s[5], s[6]).unwrap(),
    }
}

fn hex_digit(c: char) -> (r: Option<u8>)
    ensures
        r == spec_hex_digit(c),
        r is Some ==> r.unwrap() < 16,
{
    if '0' <= c && c <= '9' {
        Some(c as u8 - '0' as u8)
    } else if 'a' <= c && c <= 'f' {
        Some(c as u8 - 'a' as u8 + 10)
    } else if 'A' <= c && c <= 'F' {
        Some(c as u8 - 'A' as u8 + 10)
    } else {
        None
    }
}

/// Parses a `#RRGGBB` string; returns `None` exactly on malformed input.
pub fn parse_hex_color(s: &str) -> (r: Option<Rgb8>)
    ensures
        r is Some <==> spec_valid_hex_color(s@),
        r is Some ==> r.unwrap() == spec_hex_color(s@),
{
    let len = s.unicode_len();
    if len != 7 {
        return None;
    }
    if s.get_char(0) != '#' {
        return None;
    }
    let mut digits: [u8; 6] = [0; 6];
    let mut i: usize = 1;
    while i < 7
        invariant
            1 <= i <= 7,
            s@.len() == 7,
            forall|j: int| 1 <= j < i ==> spec_hex_digit(#[trigger] s@[j]) is Some,
            forall|j: int| 1 <= j < i ==> digits@[j - 1] == spec_hex_digit(s@[j]).unwrap(),
            forall|j: int| 0 <= j < i - 1 ==> digits@[j] < 16,
        decreases 7 - i,
    {
        match hex_digit(s.get_char(i)) {
            Some(d) => {
                digits[i - 1] = d;
            },
            None => {
                return None;
            },
        }
        i = i + 1;
    }
    Some(Rgb8 {
        r: digits[0] * 16 + digits[1],
        g: digits[2] * 16 + digits[3],
        b: digits[4] * 16 + digits[5],
    })
}

/// Parses a hex colour string that is known to be well formed, as the
/// fixed sky-colour constant is.
pub fn from_hex(hex: &str) -> (c: Rgb8)
    requires
        spec_valid_hex_color(hex@),
    ensures
        c == spec_hex_color(hex@),
{
    parse_hex_color(hex).unwrap()
}

} // verus!
