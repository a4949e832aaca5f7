//! A colour of a theme, read from the notations of CSS.

use std::str::FromStr;
use vstd::prelude::*;
use vstd::string::*;
use vstd::utf8::is_ascii_chars;

verus! {

/// Why a text is no colour.
#[derive(Clone, Copy, Debug, PartialEq, Eq, Structural)]
pub enum ParseColorError {
    InvalidHex,
    InvalidRgb,
    InvalidHsl,
    InvalidHwb,
    InvalidHsv,
    InvalidOklab,
    InvalidOklch,
    InvalidFunction,
    InvalidUnknown,
    /// The text holds a parenthesis, as the notations with a function do, and
    /// a character outside ASCII, which none of them has.
    NonAsciiFunction,
}

/// A colour: red, green, blue and opacity, each in 0..=255.
#[derive(Clone, Copy, Debug, PartialEq, Eq, PartialOrd, Ord)]
pub struct Color {
    r: u8,
    g: u8,
    b: u8,
    a: u8,
}

/// The four channels of a colour.
pub ghost struct Rgba {
    pub r: u8,
    pub g: u8,
    pub b: u8,
    pub a: u8,
}

/// The colour that a text denotes in the notations of CSS (a name, `#rgb`,
/// `rgb(..)`, `hsl(..)` and the like), rounded to four channels, or the
/// reason why it denotes none.
pub uninterp spec fn css_color(text: Seq<char>) -> Result<Rgba, ParseColorError>;

/// Whether `text` holds no `(`.
pub open spec fn without_parenthesis(text: Seq<char>) -> bool {
    forall|i: int| 0 <= i < text.len() ==> #[trigger] text[i] != '('
}

/// Whether `text` is one that the notations of CSS are read from: it is
/// ASCII, or it holds no `(` and so is no notation with a function.
pub open spec fn readable(text: Seq<char>) -> bool {
    is_ascii_chars(text) || without_parenthesis(text)
}

/// The colour that a text denotes: what the notations of CSS give for a text
/// that they are read from, and an error of its own for any other text.
pub open spec fn text_color(text: Seq<char>) -> Result<Rgba, ParseColorError> {
    if readable(text) {
        css_color(text)
    } else {
        Err(ParseColorError::NonAsciiFunction)
    }
}

/// The digit of `n` in base sixteen, in lower case.
pub open spec fn hex_digit(n: int) -> char
    recommends
        0 <= n < 16,
{
    "0123456789abcdef"@[n]
}

/// The two digits of a channel in base sixteen.
pub open spec fn hex_pair(channel: u8) -> Seq<char> {
    seq![hex_digit(channel as int / 16), hex_digit(channel as int % 16)]
}

/// A colour in the notation `#rrggbb`, or `#rrggbbaa` if it is not opaque.
pub open spec fn hex_text(c: Rgba) -> Seq<char> {
    "#"@ + hex_pair(c.r) + hex_pair(c.g) + hex_pair(c.b) + if c.a < 255 {
        hex_pair(c.a)
    } else {
        Seq::empty()
    }
}

/// The channels of an array of four.
pub open spec fn rgba_of(channels: [u8; 4]) -> Rgba {
    Rgba { r: channels[0], g: channels[1], b: channels[2], a: channels[3] }
}

/// `Color::from_rgba8` and `Color::to_rgba8` of csscolorparser: a colour made
/// of four channels in 0..=255 gives the same four channels back.
#[verifier::external_body]
fn channels_of_rgba8(r: u8, g: u8, b: u8, a: u8) -> (channels: [u8; 4])
    ensures
        rgba_of(channels) == (Rgba { r, g, b, a }),
{
    csscolorparser::Color::from_rgba8(r, g, b, a).to_rgba8()
}

/// `csscolorparser::parse`, with `Color::to_rgba8` on what it parsed: the
/// colour that the text denotes. What it gives for a given text is named by
/// [`css_color`]. The parser cuts the arguments of a function at bytes that
/// it counts from their end, which is safe in ASCII; a text without `(` has
/// no function.
#[verifier::external_body]
fn parse_css(text: &str) -> (r: Result<[u8; 4], ParseColorError>)
    requires
        readable(text@),
    ensures
        match r {
            Ok(channels) => css_color(text@) == Ok::<Rgba, ParseColorError>(rgba_of(channels)),
            Err(e) => css_color(text@) == Err::<Rgba, ParseColorError>(e),
        },
{
    match csscolorparser::parse(text) {
        Ok(color) => Ok(color.to_rgba8()),
        Err(csscolorparser::ParseColorError::InvalidHex) => Err(ParseColorError::InvalidHex),
        Err(csscolorparser::ParseColorError::InvalidRgb) => Err(ParseColorError::InvalidRgb),
        Err(csscolorparser::ParseColorError::InvalidHsl) => Err(ParseColorError::InvalidHsl),
        Err(csscolorparser::ParseColorError::InvalidHwb) => Err(ParseColorError::InvalidHwb),
        Err(csscolorparser::ParseColorError::InvalidHsv) => Err(ParseColorError::InvalidHsv),
        Err(csscolorparser::ParseColorError::InvalidOklab) => Err(ParseColorError::InvalidOklab),
        Err(csscolorparser::ParseColorError::InvalidOklch) => Err(ParseColorError::InvalidOklch),
        Err(csscolorparser::ParseColorError::InvalidFunction) => Err(ParseColorError::InvalidFunction),
        Err(csscolorparser::ParseColorError::InvalidUnknown) => Err(ParseColorError::InvalidUnknown),
    }
}

/// `Color::from_rgba8` and `Color::to_hex_string` of csscolorparser: `#` and
/// two digits in base sixteen for each of red, green and blue, and two more
/// for the opacity unless it is 255.
#[verifier::external_body]
#[allow(deprecated)]
fn hex_of_rgba8(r: u8, g: u8, b: u8, a: u8) -> (text: String)
    ensures
        text@ == hex_text(Rgba { r, g, b, a }),
{
    csscolorparser::Color::from_rgba8(r, g, b, a).to_hex_string()
}

impl View for Color {
    type V = Rgba;

    closed spec fn view(&self) -> Rgba {
        Rgba { r: self.r, g: self.g, b: self.b, a: self.a }
    }
}

impl Color {
    /// The opaque colour with the given red, green and blue.
    pub fn from_rgb(r: u8, g: u8, b: u8) -> (color: Color)
        ensures
            color@ == (Rgba { r, g, b, a: 255 }),
    {
        Color::from_channels(channels_of_rgba8(r, g, b, 255))
    }

    /// The colour with the given four channels: red, green, blue, opacity.
    pub fn from_channels(channels: [u8; 4]) -> (color: Color)
        ensures
            color@ == rgba_of(channels),
    {
        Color { r: channels[0], g: channels[1], b: channels[2], a: channels[3] }
    }

    /// The colour that parsing came to: the parsed channels as a colour, or
    /// the parser's error.
    pub fn from_parsed(parsed: Result<[u8; 4], ParseColorError>) -> (r: Result<
        Color,
        ParseColorError,
    >)
        ensures
            match parsed {
                Ok(channels) => r matches Ok(color) && color@ == rgba_of(channels),
                Err(e) => r == Err::<Color, ParseColorError>(e),
            },
    {
        match parsed {
            Ok(channels) => Ok(Color::from_channels(channels)),
            Err(e) => Err(e),
        }
    }

    /// Whether `text` is one that the notations of CSS are read from.
    pub fn is_readable(text: &str) -> (r: bool)
        ensures
            r == readable(text@),
    {
        if text.is_ascii() {
            return true;
        }
        let len = text.unicode_len();
        let mut i: usize = 0;
        while i < len
            invariant
                i <= len,
                len == text@.len(),
                !is_ascii_chars(text@),
                forall|j: int| 0 <= j < i ==> #[trigger] text@[j] != '(',
            decreases len - i,
        {
            if text.get_char(i) == '(' {
                return false;
            }
            i = i + 1;
        }
        true
    }

    /// The colour that `text` denotes in the notations of CSS. A text with a
    /// parenthesis and a character outside ASCII denotes none.
    pub fn parse(text: &str) -> (r: Result<Color, ParseColorError>)
        ensures
            match r {
                Ok(color) => text_color(text@) == Ok::<Rgba, ParseColorError>(color@),
                Err(e) => text_color(text@) == Err::<Rgba, ParseColorError>(e),
            },
    {
        if Color::is_readable(text) {
            Color::from_parsed(parse_css(text))
        } else {
            Err(ParseColorError::NonAsciiFunction)
        }
    }

    /// Red, green and blue.
    pub fn to_rgb(&self) -> (rgb: [u8; 3])
        ensures
            rgb[0] == self@.r,
            rgb[1] == self@.g,
            rgb[2] == self@.b,
    {
        [self.r, self.g, self.b]
    }

    /// Red, green, blue and opacity.
    pub fn to_rgba(&self) -> (channels: [u8; 4])
        ensures
            rgba_of(channels) == self@,
    {
        [self.r, self.g, self.b, self.a]
    }

    /// The colour as `#rrggbb`, or as `#rrggbbaa` if it is not opaque.
    pub fn to_hex_string(&self) -> (text: String)
        ensures
            text@ == hex_text(self@),
    {
        hex_of_rgba8(self.r, self.g, self.b, self.a)
    }
}

impl Default for Color {
    /// Opaque black.
    fn default() -> (color: Color)
        ensures
            color@ == (Rgba { r: 0, g: 0, b: 0, a: 255 }),
    {
        Color::from_rgb(0, 0, 0)
    }
}

impl FromStr for Color {
    type Err = ParseColorError;

    /// The colour that `s` denotes in the notations of CSS.
    fn from_str(s: &str) -> (r: Result<Color, ParseColorError>)
        ensures
            match r {
                Ok(color) => text_color(s@) == Ok::<Rgba, ParseColorError>(color@),
                Err(e) => text_color(s@) == Err::<Rgba, ParseColorError>(e),
            },
    {
        Color::parse(s)
    }
}

} // verus!
