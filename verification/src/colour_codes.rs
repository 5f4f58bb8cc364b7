//! The palette shared by terminal output and rendered notices.

use vstd::prelude::*;
use vstd::string::*;

verus! {

/// A semantic colour: what a piece of output means, not how it looks.
#[derive(Clone, Copy, Debug, PartialEq, Eq, Structural)]
pub enum ColourCode {
    /// Resets the colour choice
    Reset,
    Info,
    Field,
    Error,
    Warning,
    Caution,
    Success,
    Location,
}

/// The red, green and blue parts of the colour that `code` has on a notice.
pub open spec fn embed_rgb(code: ColourCode) -> (u8, u8, u8) {
    match code {
        ColourCode::Reset => (0, 0, 0),
        ColourCode::Info => (0, 255, 255),
        ColourCode::Field => (0, 0, 255),
        ColourCode::Error => (255, 0, 0),
        ColourCode::Warning => (128, 128, 0),
        ColourCode::Caution => (255, 255, 0),
        ColourCode::Success => (0, 255, 0),
        ColourCode::Location => (255, 0, 255),
    }
}

/// Three colour parts packed into one number, red in the highest byte.
pub open spec fn packed_rgb(rgb: (u8, u8, u8)) -> int {
    rgb.0 * 65536 + rgb.1 * 256 + rgb.2
}

/// The escape sequence that switches a terminal's foreground to `code`.
pub open spec fn ansi_sequence(code: ColourCode) -> Seq<char> {
    match code {
        ColourCode::Reset => "\x1B[39m"@,
        ColourCode::Info => "\x1B[38;5;14m"@,
        ColourCode::Field => "\x1B[38;5;12m"@,
        ColourCode::Error => "\x1B[38;5;9m"@,
        ColourCode::Warning => "\x1B[38;5;3m"@,
        ColourCode::Caution => "\x1B[38;5;11m"@,
        ColourCode::Success => "\x1B[38;5;10m"@,
        ColourCode::Location => "\x1B[38;5;5m"@,
    }
}

/// `serenity::model::Colour::from_rgb`, read back through the colour's public
/// number: the three parts packed as `0xRRGGBB`.
#[verifier::external_body]
fn colour_from_rgb(red: u8, green: u8, blue: u8) -> (value: u32)
    ensures
        value == packed_rgb((red, green, blue)),
{
    serenity::model::Colour::from_rgb(red, green, blue).0
}

/// `termion::color::Reset::fg_str`: the sequence that restores the default
/// foreground.
#[verifier::external_body]
fn reset_fg() -> (sequence: &'static str)
    ensures
        sequence@ == "\x1B[39m"@,
{
    termion::color::Reset.fg_str()
}

/// `termion::color::LightCyan::fg_str`: foreground colour 14 of the 256-colour
/// palette.
#[verifier::external_body]
fn light_cyan_fg() -> (sequence: &'static str)
    ensures
        sequence@ == "\x1B[38;5;14m"@,
{
    termion::color::LightCyan.fg_str()
}

/// `termion::color::LightBlue::fg_str`: foreground colour 12 of the 256-colour
/// palette.
#[verifier::external_body]
fn light_blue_fg() -> (sequence: &'static str)
    ensures
        sequence@ == "\x1B[38;5;12m"@,
{
    termion::color::LightBlue.fg_str()
}

/// `termion::color::LightRed::fg_str`: foreground colour 9 of the 256-colour
/// palette.
#[verifier::external_body]
fn light_red_fg() -> (sequence: &'static str)
    ensures
        sequence@ == "\x1B[38;5;9m"@,
{
    termion::color::LightRed.fg_str()
}

/// `termion::color::Yellow::fg_str`: foreground colour 3 of the 256-colour
/// palette.
#[verifier::external_body]
fn yellow_fg() -> (sequence: &'static str)
    ensures
        sequence@ == "\x1B[38;5;3m"@,
{
    termion::color::Yellow.fg_str()
}

/// `termion::color::LightYellow::fg_str`: foreground colour 11 of the
/// 256-colour palette.
#[verifier::external_body]
fn light_yellow_fg() -> (sequence: &'static str)
    ensures
        sequence@ == "\x1B[38;5;11m"@,
{
    termion::color::LightYellow.fg_str()
}

/// `termion::color::LightGreen::fg_str`: foreground colour 10 of the
/// 256-colour palette.
#[verifier::external_body]
fn light_green_fg() -> (sequence: &'static str)
    ensures
        sequence@ == "\x1B[38;5;10m"@,
{
    termion::color::LightGreen.fg_str()
}

/// `termion::color::Magenta::fg_str`: foreground colour 5 of the 256-colour
/// palette.
#[verifier::external_body]
fn magenta_fg() -> (sequence: &'static str)
    ensures
        sequence@ == "\x1B[38;5;5m"@,
{
    termion::color::Magenta.fg_str()
}

impl ColourCode {
    /// The colour of a notice, as the number `0xRRGGBB`.
    pub fn to_embed_colour(&self) -> (value: u32)
        ensures
            value == packed_rgb(embed_rgb(*self)),
    {
        match self {
            ColourCode::Reset => colour_from_rgb(0, 0, 0),
            ColourCode::Info => colour_from_rgb(0, 255, 255),
            ColourCode::Field => colour_from_rgb(0, 0, 255),
            ColourCode::Error => colour_from_rgb(255, 0, 0),
            ColourCode::Warning => colour_from_rgb(128, 128, 0),
            ColourCode::Caution => colour_from_rgb(255, 255, 0),
            ColourCode::Success => colour_from_rgb(0, 255, 0),
            ColourCode::Location => colour_from_rgb(255, 0, 255),
        }
    }

    /// The escape sequence that switches a terminal's foreground to this
    /// colour.
    pub fn fg_str(&self) -> (sequence: &'static str)
        ensures
            sequence@ == ansi_sequence(*self),
    {
        match self {
            ColourCode::Reset => reset_fg(),
            ColourCode::Info => light_cyan_fg(),
            ColourCode::Field => light_blue_fg(),
            ColourCode::Error => light_red_fg(),
            ColourCode::Warning => yellow_fg(),
            ColourCode::Caution => light_yellow_fg(),
            ColourCode::Success => light_green_fg(),
            ColourCode::Location => magenta_fg(),
        }
    }

    /// The same sequence as an owned text.
    pub fn to_text(&self) -> (text: String)
        ensures
            text@ == ansi_sequence(*self),
    {
        String::from_str(self.fg_str())
    }
}

/// `text` in the colour `code` on a terminal, followed by a return to the
/// default colour.
pub open spec fn coloured(code: ColourCode, text: Seq<char>) -> Seq<char> {
    ansi_sequence(code) + text + ansi_sequence(ColourCode::Reset)
}

/// Writes `text` in the colour `code` at the end of `out`, followed by a
/// return to the default colour.
pub fn append_coloured(out: &mut String, code: ColourCode, text: &str)
    ensures
        final(out)@ == old(out)@ + coloured(code, text@),
{
    out.append(code.fg_str());
    out.append(text);
    out.append(ColourCode::Reset.fg_str());
    assert(out@ =~= old(out)@ + coloured(code, text@));
}

} // verus!
