//! The colour of a list, read from the text that the host supplies.

use crate::text::{parse_radix, radix_value, str_strip_prefix};
use vstd::prelude::*;

verus! {

/// The colour in which a list is marked.
#[derive(Clone, Copy, Debug, PartialEq, Eq, Structural)]
pub enum ListColor {
    Rgb(u8, u8, u8),
    /// The colour of a list whose colour text cannot be read.
    Blue,
}

/// The colour whose red, green and blue parts are the three lowest bytes of
/// `hex`, red highest.
pub open spec fn rgb_of(hex: u32) -> ListColor {
    ListColor::Rgb(
        ((hex / 65536) % 256) as u8,
        ((hex / 256) % 256) as u8,
        (hex % 256) as u8,
    )
}

/// The colour that a colour text stands for: `#` followed by a hexadecimal
/// number gives that number's colour, and every other text gives blue.
pub open spec fn color_of(text: Seq<char>) -> ListColor {
    if text.len() > 0 && text[0] == '#' {
        match radix_value(text.skip(1), 16) {
            Some(hex) => rgb_of(hex),
            None => ListColor::Blue,
        }
    } else {
        ListColor::Blue
    }
}

/// Splits a number into its colour.
pub fn color_from_hex(hex: u32) -> (color: ListColor)
    ensures
        color == rgb_of(hex),
{
    let r = (hex >> 16) & 0xff;
    let g = (hex >> 8) & 0xff;
    let b = hex & 0xff;
    assert(r == (hex / 65536) % 256 && g == (hex / 256) % 256 && b == hex % 256 && r < 256 && g
        < 256 && b < 256) by (bit_vector)
        requires
            r == (hex >> 16) & 0xff,
            g == (hex >> 8) & 0xff,
            b == hex & 0xff,
    ;
    ListColor::Rgb(r as u8, g as u8, b as u8)
}

/// Reads the colour of a list from its colour text.
pub fn parse_color(color_str: &str) -> (color: ListColor)
    ensures
        color == color_of(color_str@),
{
    proof {
        reveal_strlit("#");
    }
    match str_strip_prefix(color_str, "#") {
        Some(digits) => {
            assert(color_str@.skip(1) == digits@);
            match parse_radix(digits, 16) {
                Some(hex) => color_from_hex(hex),
                None => ListColor::Blue,
            }
        },
        None => {
            assert(color_str@.len() > 0 && color_str@[0] == '#' ==> "#"@.is_prefix_of(
                color_str@,
            ));
            ListColor::Blue
        },
    }
}

} // verus!
