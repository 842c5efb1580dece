//! The escape sequences of the terminal commands.
//!
//! The first half of this file says which characters each command stands
//! for. The encoding itself is `crossterm`'s: the functions in the second
//! half make those calls, and their contracts are taken on trust.

use crate::text::decimal;
use crossterm::Command;
use vstd::prelude::*;

verus! {

/// A colour given by its red, green and blue parts.
#[derive(Debug, Clone, Copy, PartialEq, Eq, Structural)]
pub struct Color {
    pub r: u8,
    pub g: u8,
    pub b: u8,
}

/// The part of the screen that a clear command wipes.
#[derive(Debug, Clone, Copy, PartialEq, Eq, Structural)]
pub enum ClearArea {
    /// Every cell of the screen.
    Screen,
    /// The line the cursor is on.
    CurrentLine,
}

/// The sequence that clears `area`.
pub open spec fn clear_seq(area: ClearArea) -> Seq<char> {
    match area {
        ClearArea::Screen => "\x1b[2J"@,
        ClearArea::CurrentLine => "\x1b[2K"@,
    }
}

/// The sequence that makes the cursor visible.
pub open spec fn show_cursor_seq() -> Seq<char> {
    "\x1b[?25h"@
}

/// The sequence that makes the cursor invisible.
pub open spec fn hide_cursor_seq() -> Seq<char> {
    "\x1b[?25l"@
}

/// The sequence that puts the cursor on column `x` of row `y`, both counted
/// from zero; the terminal counts from one and takes the row first.
pub open spec fn move_to_seq(x: u16, y: u16) -> Seq<char> {
    "\x1b["@ + decimal((y + 1) as nat) + ";"@ + decimal((x + 1) as nat) + "H"@
}

/// The sequence that returns both colours to the terminal's defaults.
pub open spec fn reset_color_seq() -> Seq<char> {
    "\x1b[0m"@
}

/// The parameters that select `color` as a 24-bit colour.
pub open spec fn rgb_params(color: Color) -> Seq<char> {
    "2;"@ + decimal(color.r as nat) + ";"@ + decimal(color.g as nat) + ";"@ + decimal(
        color.b as nat,
    )
}

/// The sequence of a foreground colour change. Where colour output is
/// switched off for the process, `colored` is false and the sequence names no
/// colour.
pub open spec fn foreground_seq(color: Color, colored: bool) -> Seq<char> {
    if colored {
        "\x1b[38;"@ + rgb_params(color) + "m"@
    } else {
        "\x1b[m"@
    }
}

/// The sequence of a background colour change; `colored` as in
/// [`foreground_seq`].
pub open spec fn background_seq(color: Color, colored: bool) -> Seq<char> {
    if colored {
        "\x1b[48;"@ + rgb_params(color) + "m"@
    } else {
        "\x1b[m"@
    }
}

/// Calls `crossterm::terminal::Clear::write_ansi`. Trusted: the call appends
/// the clear sequence of the chosen area, `ESC [ 2 J` for the screen and
/// `ESC [ 2 K` for the current line, and nothing else.
#[verifier::external_body]
pub(crate) fn queue_clear(out: &mut String, area: ClearArea)
    ensures
        final(out)@ == old(out)@ + clear_seq(area),
{
    let kind = match area {
        ClearArea::Screen => crossterm::terminal::ClearType::All,
        ClearArea::CurrentLine => crossterm::terminal::ClearType::CurrentLine,
    };
    let _ = crossterm::terminal::Clear(kind).write_ansi(out);
}

/// Calls `crossterm::cursor::Show::write_ansi`. Trusted: the call appends
/// `ESC [ ? 2 5 h`.
#[verifier::external_body]
pub(crate) fn queue_show_cursor(out: &mut String)
    ensures
        final(out)@ == old(out)@ + show_cursor_seq(),
{
    let _ = crossterm::cursor::Show.write_ansi(out);
}

/// Calls `crossterm::cursor::Hide::write_ansi`. Trusted: the call appends
/// `ESC [ ? 2 5 l`.
#[verifier::external_body]
pub(crate) fn queue_hide_cursor(out: &mut String)
    ensures
        final(out)@ == old(out)@ + hide_cursor_seq(),
{
    let _ = crossterm::cursor::Hide.write_ansi(out);
}

/// Calls `crossterm::cursor::MoveTo::write_ansi`. Trusted: the call appends
/// `ESC [ row ; column H` with both numbers in decimal and one more than the
/// zero-based arguments. The callee adds that one in `u16`, so the largest
/// value of either coordinate is left out.
#[verifier::external_body]
pub(crate) fn queue_move_to(out: &mut String, x: u16, y: u16)
    requires
        x < u16::MAX,
        y < u16::MAX,
    ensures
        final(out)@ == old(out)@ + move_to_seq(x, y),
{
    let _ = crossterm::cursor::MoveTo(x, y).write_ansi(out);
}

/// Calls `crossterm::style::Print::write_ansi` on a string slice. Trusted:
/// the call appends the text as it is.
#[verifier::external_body]
pub(crate) fn queue_print(out: &mut String, text: &str)
    ensures
        final(out)@ == old(out)@ + text@,
{
    let _ = crossterm::style::Print(text).write_ansi(out);
}

/// Calls `crossterm::style::SetForegroundColor::write_ansi` with an RGB
/// colour. Trusted: the call appends `ESC [ 3 8 ; 2 ; r ; g ; b m`, or, where
/// colour output is switched off for the process, `ESC [ m`. The callee
/// decides that by a process-wide switch, first set from the `NO_COLOR`
/// variable, so the contract allows both.
#[verifier::external_body]
pub(crate) fn queue_foreground(out: &mut String, color: Color)
    ensures
        final(out)@ == old(out)@ + foreground_seq(color, true) || final(out)@ == old(out)@
            + foreground_seq(color, false),
{
    let rgb = crossterm::style::Color::Rgb { r: color.r, g: color.g, b: color.b };
    let _ = crossterm::style::SetForegroundColor(rgb).write_ansi(out);
}

/// Calls `crossterm::style::SetBackgroundColor::write_ansi` with an RGB
/// colour. Trusted: the call appends `ESC [ 4 8 ; 2 ; r ; g ; b m`, or, where
/// colour output is switched off for the process, `ESC [ m`; the contract
/// allows both, as for the foreground.
#[verifier::external_body]
pub(crate) fn queue_background(out: &mut String, color: Color)
    ensures
        final(out)@ == old(out)@ + background_seq(color, true) || final(out)@ == old(out)@
            + background_seq(color, false),
{
    let rgb = crossterm::style::Color::Rgb { r: color.r, g: color.g, b: color.b };
    let _ = crossterm::style::SetBackgroundColor(rgb).write_ansi(out);
}

/// Calls `crossterm::style::ResetColor::write_ansi`. Trusted: the call
/// appends `ESC [ 0 m`.
#[verifier::external_body]
pub(crate) fn queue_reset_color(out: &mut String)
    ensures
        final(out)@ == old(out)@ + reset_color_seq(),
{
    let _ = crossterm::style::ResetColor.write_ansi(out);
}

} // verus!
