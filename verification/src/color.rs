//! The sixteen text-mode colours and the attribute byte that packs two of them.

use vstd::prelude::*;

verus! {

/// One of the sixteen colours that the text-mode hardware can show.
#[derive(Clone, Copy, PartialEq, Eq, Structural, Debug)]
pub enum Color {
    Black,
    Blue,
    Green,
    Cyan,
    Red,
    Magenta,
    Brown,
    LightGrey,
    DarkGrey,
    LightBlue,
    LightGreen,
    LightCyan,
    LightRed,
    Pink,
    Yellow,
    White,
}

impl Color {
    /// The 4-bit hardware code of a colour, as a table.
    pub open spec fn spec_code(self) -> u8 {
        match self {
            Color::Black => 0,
            Color::Blue => 1,
            Color::Green => 2,
            Color::Cyan => 3,
            Color::Red => 4,
            Color::Magenta => 5,
            Color::Brown => 6,
            Color::LightGrey => 7,
            Color::DarkGrey => 8,
            Color::LightBlue => 9,
            Color::LightGreen => 10,
            Color::LightCyan => 11,
            Color::LightRed => 12,
            Color::Pink => 13,
            Color::Yellow => 14,
            Color::White => 15,
        }
    }

    /// Returns the 4-bit hardware code of the colour.
    #[verifier::when_used_as_spec(spec_code)]
    pub fn code(self) -> (code: u8)
        ensures
            code == self.spec_code(),
            code < 16,
    {
        match self {
            Color::Black => 0,
            Color::Blue => 1,
            Color::Green => 2,
            Color::Cyan => 3,
            Color::Red => 4,
            Color::Magenta => 5,
            Color::Brown => 6,
            Color::LightGrey => 7,
            Color::DarkGrey => 8,
            Color::LightBlue => 9,
            Color::LightGreen => 10,
            Color::LightCyan => 11,
            Color::LightRed => 12,
            Color::Pink => 13,
            Color::Yellow => 14,
            Color::White => 15,
        }
    }
}

/// The attribute byte of a colour pair: the background code in the high
/// nibble, the foreground code in the low nibble.
pub open spec fn spec_encode(foreground: Color, background: Color) -> u8 {
    (background.code() << 4) | foreground.code()
}

/// Packs a foreground and a background colour into one attribute byte.
#[verifier::when_used_as_spec(spec_encode)]
pub fn encode(foreground: Color, background: Color) -> (byte: u8)
    ensures
        byte == (background.code() << 4) | foreground.code(),
        byte == 16 * background.code() + foreground.code(),
{
    let low: u8 = foreground.code();
    let high: u8 = background.code();
    assert((high << 4) | low == 16 * high + low) by (bit_vector)
        requires
            low < 16,
            high < 16,
    ;
    (high << 4) | low
}

/// The attribute byte read as a number: sixteen times the background code
/// plus the foreground code, so each colour keeps a nibble to itself.
pub proof fn encode_as_sum(foreground: Color, background: Color)
    ensures
        encode(foreground, background) == 16 * background.code() + foreground.code(),
        encode(foreground, background) & 0x0F == foreground.code(),
        encode(foreground, background) >> 4 == background.code(),
{
    let low: u8 = foreground.code();
    let high: u8 = background.code();
    assert((high << 4) | low == 16 * high + low && ((high << 4) | low) & 0x0F == low && ((high
        << 4) | low) >> 4 == high) by (bit_vector)
        requires
            low < 16,
            high < 16,
    ;
}

/// Every colour code fits in four bits.
pub proof fn code_fits_nibble(color: Color)
    ensures
        0 <= color.code() <= 15,
{
}

/// Two colours with the same code are the same colour.
pub proof fn code_is_injective(a: Color, b: Color)
    requires
        a.code() == b.code(),
    ensures
        a == b,
{
}

/// Two colour pairs with the same attribute byte are the same pair: the 256
/// pairs map onto 256 distinct bytes.
pub proof fn encode_is_injective(fg1: Color, bg1: Color, fg2: Color, bg2: Color)
    requires
        encode(fg1, bg1) == encode(fg2, bg2),
    ensures
        fg1 == fg2,
        bg1 == bg2,
{
    encode_as_sum(fg1, bg1);
    encode_as_sum(fg2, bg2);
    code_is_injective(fg1, fg2);
    code_is_injective(bg1, bg2);
}

/// A foreground and a background colour, as applied to written characters.
#[derive(Clone, Copy, PartialEq, Eq, Structural, Debug)]
pub struct ColorScheme {
    pub foreground: Color,
    pub background: Color,
}

impl ColorScheme {
    /// Pairs a foreground with a background colour.
    pub fn new(foreground: Color, background: Color) -> (scheme: Self)
        ensures
            scheme.foreground == foreground,
            scheme.background == background,
    {
        ColorScheme { foreground, background }
    }

    /// The attribute byte of the scheme.
    pub open spec fn spec_attribute(self) -> u8 {
        encode(self.foreground, self.background)
    }

    /// Returns the attribute byte that the hardware reads for this scheme.
    #[verifier::when_used_as_spec(spec_attribute)]
    pub fn attribute(self) -> (byte: u8)
        ensures
            byte == encode(self.foreground, self.background),
            byte == 16 * self.background.code() + self.foreground.code(),
    {
        encode(self.foreground, self.background)
    }
}

impl Default for ColorScheme {
    /// Light grey on black, the scheme that the hardware starts with.
    fn default() -> (scheme: Self)
        ensures
            scheme.foreground == Color::LightGrey,
            scheme.background == Color::Black,
    {
        ColorScheme { foreground: Color::LightGrey, background: Color::Black }
    }
}

} // verus!
