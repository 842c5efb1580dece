//! What the screen holds: the content rows, the status bar and the message
//! bar, as the characters that draw them.

use crate::ansi::{background_seq, clear_seq, foreground_seq, reset_color_seq, ClearArea, Color};
use crate::term::Size;
use crate::text::{decimal, padded, truncated};
use vstd::prelude::*;

verus! {

/// How long a status message stays on screen, in milliseconds.
pub const MESSAGE_WINDOW_MILLIS: u128 = 5000;

/// How many rows at the bottom of the screen are kept for the two bars.
pub const BAR_ROWS: u16 = 2;

/// The foreground colour of the status bar: a dark grey.
pub open spec fn status_fg_color() -> Color {
    Color { r: 63, g: 63, b: 63 }
}

/// The background colour of the status bar: a light grey.
pub open spec fn status_bg_color() -> Color {
    Color { r: 239, g: 239, b: 239 }
}

/// The message an editor starts with.
pub open spec fn welcome_seq() -> Seq<char> {
    "HELP: Ctrl-F = find | Ctrl-Q = quit"@
}

/// The number of content rows on a screen of the given size: all but the two
/// rows of the bars, and none where the screen has no room for them.
pub open spec fn content_row_count(size: Size) -> nat {
    if size.height >= BAR_ROWS {
        (size.height - BAR_ROWS) as nat
    } else {
        0
    }
}

/// One content row: the line is cleared, then comes the marker and the line
/// ending.
pub open spec fn content_row_seq() -> Seq<char> {
    clear_seq(ClearArea::CurrentLine) + "~\r\n"@
}

/// `n` content rows, one after the other.
pub open spec fn content_rows_seq(n: nat) -> Seq<char>
    decreases n,
{
    if n == 0 {
        Seq::empty()
    } else {
        content_rows_seq((n - 1) as nat) + content_row_seq()
    }
}

/// The text of the status bar before padding.
pub open spec fn status_text_seq(size: Size) -> Seq<char> {
    "Status bar: Size { width: "@ + decimal(size.width as nat) + ", height: "@ + decimal(
        size.height as nat,
    ) + " }"@
}

/// The text of the status bar, padded with spaces to the screen's width.
pub open spec fn status_line_seq(size: Size) -> Seq<char> {
    padded(status_text_seq(size), size.width as nat)
}

/// The status bar as it is queued: the line is cleared, the bar's colours
/// are set, the padded text and a line ending follow, and the colours are
/// reset. `bg` and `fg` say whether the two colour changes name a colour.
pub open spec fn status_bar_seq(size: Size, bg: bool, fg: bool) -> Seq<char> {
    clear_seq(ClearArea::CurrentLine) + background_seq(status_bg_color(), bg) + foreground_seq(
        status_fg_color(),
        fg,
    ) + status_line_seq(size) + "\r\n"@ + reset_color_seq()
}

/// Whether a message of the given age, in milliseconds, is still shown.
pub open spec fn within_window(age_millis: u128) -> bool {
    age_millis < MESSAGE_WINDOW_MILLIS
}

/// The message bar as it is queued: the line is cleared, and a message that
/// is still shown follows, cut to the screen's width.
pub open spec fn message_bar_seq(text: Seq<char>, size: Size, shown: bool) -> Seq<char> {
    if shown {
        clear_seq(ClearArea::CurrentLine) + truncated(text, size.width as nat)
    } else {
        clear_seq(ClearArea::CurrentLine)
    }
}

} // verus!
