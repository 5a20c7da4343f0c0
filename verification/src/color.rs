//! Colours: 8-bit red, green and blue channels with an optional alpha
//! channel, and how a colour is written in a style attribute.

use colorsys::Rgb;
use vstd::prelude::*;

verus! {

/// A colour. The alpha channel is carried along and does not show in the
/// document.
#[derive(Clone, Copy, Debug, PartialEq, Eq, Structural)]
pub struct Color {
    pub red: u8,
    pub green: u8,
    pub blue: u8,
    pub alpha: Option<u8>,
}

/// The character of one hexadecimal digit, in lower case.
pub open spec fn hex_digit_char(digit: int) -> char {
    if digit == 0 {
        '0'
    } else if digit == 1 {
        '1'
    } else if digit == 2 {
        '2'
    } else if digit == 3 {
        '3'
    } else if digit == 4 {
        '4'
    } else if digit == 5 {
        '5'
    } else if digit == 6 {
        '6'
    } else if digit == 7 {
        '7'
    } else if digit == 8 {
        '8'
    } else if digit == 9 {
        '9'
    } else if digit == 10 {
        'a'
    } else if digit == 11 {
        'b'
    } else if digit == 12 {
        'c'
    } else if digit == 13 {
        'd'
    } else if digit == 14 {
        'e'
    } else {
        'f'
    }
}

/// `#rrggbb`: a hash sign and two lower-case hexadecimal digits for each
/// of the three channels.
pub open spec fn hex_text(red: u8, green: u8, blue: u8) -> Seq<char> {
    seq![
        '#',
        hex_digit_char(red as int / 16),
        hex_digit_char(red as int % 16),
        hex_digit_char(green as int / 16),
        hex_digit_char(green as int % 16),
        hex_digit_char(blue as int / 16),
        hex_digit_char(blue as int % 16),
    ]
}

/// `colorsys::Rgb::to_hex_string`, on the colour that `colorsys` makes of
/// three 8-bit channels. It formats each channel in lower-case hexadecimal,
/// puts a zero before a single digit, and writes a hash sign before the
/// three pairs.
#[verifier::external_body]
fn rgb_to_hex_string(red: u8, green: u8, blue: u8) -> (text: String)
    ensures
        text@ == hex_text(red, green, blue),
{
    Rgb::from((red, green, blue)).to_hex_string()
}

impl Color {
    /// A colour of the given channels.
    pub fn new(red: u8, green: u8, blue: u8, alpha: Option<u8>) -> (color: Color)
        ensures
            color == (Color { red, green, blue, alpha }),
    {
        Color { red, green, blue, alpha }
    }

    /// What stands for this colour in a style attribute.
    pub open spec fn hex(self) -> Seq<char> {
        hex_text(self.red, self.green, self.blue)
    }

    /// Writes the colour as `#rrggbb`.
    pub fn to_hex_string(&self) -> (text: String)
        ensures
            text@ == self.hex(),
    {
        rgb_to_hex_string(self.red, self.green, self.blue)
    }
}

} // verus!
