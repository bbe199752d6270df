//! The display color, read from a hexadecimal string.

use vstd::prelude::*;
use vstd::string::*;
use colors_transform::Color;

verus! {

/// The color in which a frame is drawn.
#[derive(Clone, Copy, Debug, PartialEq, Eq, Structural)]
pub struct DisplayColor {
    /// Red, 0 to 255.
    pub red: u8,
    /// Green, 0 to 255.
    pub green: u8,
    /// Blue, 0 to 255.
    pub blue: u8,
}

/// A color string that is no hexadecimal color.
#[derive(Debug, PartialEq, Eq)]
pub struct ColorError {
    /// The sentence that reports the string.
    pub message: String,
}

/// The red, green and blue that `colors_transform` reads out of a
/// hexadecimal color string, or `None` where it refuses the string.
pub uninterp spec fn hex_channels(hex: Seq<char>) -> Option<(u8, u8, u8)>;

/// What `colors_transform` says of a string that it refuses.
pub open spec fn refusal_text(hex: Seq<char>) -> Seq<char> {
    "cannot parse string `"@ + hex + "` as hex"@
}

/// `colors_transform::Rgb::from_hex_str`, with each channel of the color cut
/// to a byte. The outcome is a function of the string alone and is named, not
/// spelled out; a refusal carries the crate's own message, which quotes the
/// string.
#[verifier::external_body]
fn read_hex(hex: &str) -> (r: Result<(u8, u8, u8), String>)
    ensures
        r is Ok <==> hex_channels(hex@) is Some,
        r is Ok ==> r->Ok_0 == hex_channels(hex@).unwrap(),
        r is Err ==> r->Err_0@ == refusal_text(hex@),
{
    match colors_transform::Rgb::from_hex_str(hex) {
        Ok(c) => Ok((c.get_red() as u8, c.get_green() as u8, c.get_blue() as u8)),
        Err(e) => Err(e.message),
    }
}

/// The color of three channels that were read, or the error of a refusal.
pub fn color_from_channels(read: Result<(u8, u8, u8), String>) -> (r: Result<
    DisplayColor,
    ColorError,
>)
    ensures
        read is Ok ==> r == Ok::<DisplayColor, ColorError>(
            DisplayColor { red: read->Ok_0.0, green: read->Ok_0.1, blue: read->Ok_0.2 },
        ),
        read is Err ==> r is Err && r->Err_0.message@ == read->Err_0@,
{
    match read {
        Ok((red, green, blue)) => Ok(DisplayColor { red, green, blue }),
        Err(message) => Err(ColorError { message }),
    }
}

/// Reads the display color from a hexadecimal string such as `#FFFFFF`.
pub fn parse_color(hex: &str) -> (r: Result<DisplayColor, ColorError>)
    ensures
        r is Ok <==> hex_channels(hex@) is Some,
        r is Ok ==> (r->Ok_0.red, r->Ok_0.green, r->Ok_0.blue) == hex_channels(hex@).unwrap(),
        r is Err ==> r->Err_0.message@ == refusal_text(hex@),
{
    color_from_channels(read_hex(hex))
}

} // verus!
