//! What holds of the editor whatever its input, stated over the models that
//! the contracts use.

use crate::ansi::{
    background_seq, clear_seq, foreground_seq, hide_cursor_seq, move_to_seq, show_cursor_seq,
    ClearArea,
};
use crate::editor::{events_read, EditorView};
use crate::event::Event;
use crate::layout::{
    content_row_count, content_row_seq, content_rows_seq, message_bar_seq, status_bg_color,
    status_fg_color, status_line_seq, status_text_seq, within_window,
};
use crate::term::{Size, TerminalView};
use crate::text::{decimal, padded, truncated};
use vstd::prelude::*;

verus! {

/// A decimal numeral has one digit for each power of ten that the number
/// reaches: at least one, and no more than five below a hundred thousand.
pub proof fn law_decimal_len(n: nat)
    ensures
        decimal(n).len() >= 1,
        n < 10 ==> decimal(n).len() == 1,
        10 <= n < 100 ==> decimal(n).len() == 2,
        100 <= n < 1000 ==> decimal(n).len() == 3,
        1000 <= n < 10000 ==> decimal(n).len() == 4,
        10000 <= n < 100000 ==> decimal(n).len() == 5,
    decreases n,
{
    if n >= 10 {
        law_decimal_len(n / 10);
    }
}

/// Padding never shortens a text and fills a shorter one to the width: the
/// result has the larger of the two lengths, begins with the text, and holds
/// only spaces behind it.
pub proof fn law_padded(s: Seq<char>, width: nat)
    ensures
        padded(s, width).len() == if s.len() >= width {
            s.len()
        } else {
            width
        },
        padded(s, width).take(s.len() as int) == s,
        forall|i: int| s.len() <= i < padded(s, width).len() ==> padded(s, width)[i] == ' ',
{
    assert(padded(s, width).take(s.len() as int) =~= s);
}

/// Truncation keeps a prefix: the result has the smaller of the text's
/// length and the width, and agrees with the text on every character it
/// keeps.
pub proof fn law_truncated(s: Seq<char>, width: nat)
    ensures
        truncated(s, width).len() == if s.len() <= width {
            s.len()
        } else {
            width
        },
        truncated(s, width) == s.take(truncated(s, width).len() as int),
{
    assert(truncated(s, width) =~= s.take(truncated(s, width).len() as int));
}

/// A screen of at least two rows has two fewer content rows than rows; a
/// smaller screen has none.
pub proof fn law_content_row_count(size: Size)
    ensures
        size.height >= 2 ==> content_row_count(size) == size.height - 2,
        size.height < 2 ==> content_row_count(size) == 0,
{
}

/// `n` content rows are `n` copies of one row, end to end: seven characters
/// each, every one of them the clear-line sequence followed by the marker and
/// the line ending.
pub proof fn law_content_rows(n: nat)
    ensures
        content_row_seq().len() == 7,
        content_rows_seq(n).len() == 7 * n,
        forall|i: int|
            0 <= i < n ==> #[trigger] content_rows_seq(n).subrange(7 * i, 7 * i + 7)
                == content_row_seq(),
    decreases n,
{
    reveal_strlit("\x1b[2K");
    reveal_strlit("~\r\n");
    if n > 0 {
        let fewer = (n - 1) as nat;
        law_content_rows(fewer);
        assert forall|i: int| 0 <= i < n implies #[trigger] content_rows_seq(n).subrange(
            7 * i,
            7 * i + 7,
        ) == content_row_seq() by {
            if i < fewer {
                assert(content_rows_seq(n).subrange(7 * i, 7 * i + 7) =~= content_rows_seq(
                    fewer,
                ).subrange(7 * i, 7 * i + 7));
            } else {
                assert(content_rows_seq(n).subrange(7 * i, 7 * i + 7) =~= content_row_seq());
            }
        }
    }
}

/// The status text has between 40 and 48 characters, whatever the size.
pub proof fn law_status_text_len(size: Size)
    ensures
        40 <= status_text_seq(size).len() <= 48,
{
    reveal_strlit("Status bar: Size { width: ");
    reveal_strlit(", height: ");
    reveal_strlit(" }");
    law_decimal_len(size.width as nat);
    law_decimal_len(size.height as nat);
}

/// The status line spans the screen: where the screen is at least as wide as
/// the status text, and so on every screen of 48 columns or more, the padded
/// line has exactly as many characters as the screen has columns. On a
/// narrower screen the text is left whole.
pub proof fn law_status_line_spans_width(size: Size)
    ensures
        size.width >= status_text_seq(size).len() ==> status_line_seq(size).len() == size.width,
        size.width >= 48 ==> status_line_seq(size).len() == size.width,
        size.width < status_text_seq(size).len() ==> status_line_seq(size) == status_text_seq(
            size,
        ),
        status_line_seq(size).len() >= size.width,
{
    law_status_text_len(size);
    law_padded(status_text_seq(size), size.width as nat);
}

/// The message bar shows the message, cut to the screen's width, as long as
/// the message is younger than five seconds, and only clears the line from
/// then on.
pub proof fn law_message_bar_window(text: Seq<char>, size: Size, age_millis: u128)
    ensures
        within_window(age_millis) <==> age_millis < 5000,
        age_millis < 5000 ==> message_bar_seq(text, size, within_window(age_millis)) == clear_seq(
            ClearArea::CurrentLine,
        ) + truncated(text, size.width as nat),
        age_millis >= 5000 ==> message_bar_seq(text, size, within_window(age_millis))
            == clear_seq(ClearArea::CurrentLine),
        truncated(text, size.width as nat).len() <= size.width,
{
    law_truncated(text, size.width as nat);
}

/// The top left corner is row one, column one, to the terminal.
pub proof fn law_top_left_corner()
    ensures
        move_to_seq(0, 0) == "\x1b[1;1H"@,
{
    reveal_strlit("\x1b[");
    reveal_strlit(";");
    reveal_strlit("H");
    reveal_strlit("\x1b[1;1H");
    assert(move_to_seq(0, 0) =~= "\x1b[1;1H"@);
}

/// The status bar is set in dark grey on light grey, where colours are named
/// at all.
pub proof fn law_status_bar_colors()
    ensures
        foreground_seq(status_fg_color(), true) == "\x1b[38;2;63;63;63m"@,
        background_seq(status_bg_color(), true) == "\x1b[48;2;239;239;239m"@,
{
    reveal_strlit("\x1b[38;");
    reveal_strlit("\x1b[48;");
    reveal_strlit("2;");
    reveal_strlit(";");
    reveal_strlit("m");
    reveal_strlit("\x1b[38;2;63;63;63m");
    reveal_strlit("\x1b[48;2;239;239;239m");
    reveal_with_fuel(decimal, 3);
    assert(decimal(63) =~= seq!['6', '3']);
    assert(decimal(239) =~= seq!['2', '3', '9']);
    assert(foreground_seq(status_fg_color(), true) =~= "\x1b[38;2;63;63;63m"@);
    assert(background_seq(status_bg_color(), true) =~= "\x1b[48;2;239;239;239m"@);
}

/// Every repaint hides the cursor before it draws anything and shows it
/// again as its last act.
pub proof fn law_repaint_hides_the_cursor_while_drawing(
    view: EditorView,
    shown: bool,
    bg: bool,
    fg: bool,
)
    ensures
        hide_cursor_seq().is_prefix_of(view.repaint(shown, bg, fg)),
        show_cursor_seq().is_suffix_of(view.repaint(shown, bg, fg)),
{
    let frame = view.repaint(shown, bg, fg);
    let shows_at = frame.len() - show_cursor_seq().len();
    assert(frame.subrange(0, hide_cursor_seq().len() as int) =~= hide_cursor_seq());
    assert(frame.subrange(shows_at, frame.len() as int) =~= show_cursor_seq());
}

/// The repaint of a quitting editor clears the whole screen and draws
/// nothing else, whatever the clock and the colour setting.
pub proof fn law_quitting_repaint_only_clears(view: EditorView, frame: Seq<char>)
    requires
        view.quitting,
        view.paints(frame),
    ensures
        frame == view.terminal.pending + (hide_cursor_seq() + move_to_seq(0, 0) + clear_seq(
            ClearArea::Screen,
        ) + show_cursor_seq()),
{
}

/// The quit chord, and no other event, makes a running editor quit.
pub proof fn law_only_quit_chord_quits(view: EditorView, event: Event)
    requires
        !view.quitting,
    ensures
        view.handle(event).quitting <==> event.is_quit_chord(),
{
}

/// An editor that is quitting stays so, whatever it handles.
pub proof fn law_quitting_is_final(view: EditorView, events: Seq<Event>)
    requires
        view.quitting,
    ensures
        view.after_events(events).quitting,
    decreases events.len(),
{
    if events.len() > 0 {
        law_quitting_is_final(view, events.drop_last());
    }
}

/// After any number of events an editor is quitting exactly if it was so
/// before or one of the events is the quit chord.
pub proof fn law_quitting_after_events(view: EditorView, events: Seq<Event>)
    ensures
        view.after_events(events).quitting <==> view.quitting || exists|i: int|
            0 <= i < events.len() && (#[trigger] events[i]).is_quit_chord(),
    decreases events.len(),
{
    if events.len() > 0 {
        let front = events.drop_last();
        law_quitting_after_events(view, front);
        if exists|i: int| 0 <= i < front.len() && (#[trigger] front[i]).is_quit_chord() {
            let i = choose|i: int| 0 <= i < front.len() && (#[trigger] front[i]).is_quit_chord();
            assert(events[i].is_quit_chord());
        }
        if exists|i: int| 0 <= i < events.len() && (#[trigger] events[i]).is_quit_chord() {
            let i = choose|i: int| 0 <= i < events.len() && (#[trigger] events[i]).is_quit_chord();
            if i < front.len() {
                assert(front[i].is_quit_chord());
            } else {
                assert(events.last().is_quit_chord());
            }
        }
    }
}

/// A resize sets the screen's size to the reported one and changes nothing
/// else.
pub proof fn law_resize_sets_size(view: EditorView, width: u16, height: u16)
    ensures
        view.handle(Event::Resize(width, height)) == (EditorView {
            quitting: view.quitting,
            status: view.status,
            terminal: TerminalView {
                size: Size { width, height },
                pending: view.terminal.pending,
            },
        }),
{
}

/// An event that is neither the quit chord nor a resize changes nothing.
pub proof fn law_other_events_are_dropped(view: EditorView, event: Event)
    requires
        !event.is_quit_chord(),
        !(event is Resize),
    ensures
        view.handle(event) == view,
{
}

/// A session reads no event behind the first quit chord: it reads at most
/// all events, none of those before the last one read is a quit chord, and
/// where it stops early the last one read is.
pub proof fn law_session_stops_at_quit(events: Seq<Event>)
    ensures
        events_read(events) <= events.len(),
        forall|i: int| 0 <= i < events_read(events) - 1 ==> !(#[trigger] events[i]).is_quit_chord(),
        events_read(events) < events.len() ==> events[events_read(events) - 1].is_quit_chord(),
    decreases events.len(),
{
    if events.len() > 0 && !events.first().is_quit_chord() {
        let rest = events.drop_first();
        law_session_stops_at_quit(rest);
        assert forall|i: int| 0 <= i < events_read(events) - 1 implies !(#[trigger] events[i])
            .is_quit_chord() by {
            if i > 0 {
                assert(events[i] == rest[i - 1]);
            }
        }
        if events_read(events) < events.len() {
            assert(events[events_read(events) - 1] == rest[events_read(rest) - 1]);
        }
    }
}

/// The session of a running editor ends with the editor quitting exactly if
/// one of its events is the quit chord.
pub proof fn law_session_quits_on_quit_chord(view: EditorView, events: Seq<Event>)
    requires
        !view.quitting,
    ensures
        view.session_state(events, view.session_len(events)).quitting <==> exists|i: int|
            0 <= i < events.len() && (#[trigger] events[i]).is_quit_chord(),
{
    let n = events_read(events);
    let read = events.take(n as int);
    law_session_stops_at_quit(events);
    law_quitting_after_events(view.flushed(), read);
    if exists|i: int| 0 <= i < read.len() && (#[trigger] read[i]).is_quit_chord() {
        let i = choose|i: int| 0 <= i < read.len() && (#[trigger] read[i]).is_quit_chord();
        assert(events[i].is_quit_chord());
    }
    if exists|i: int| 0 <= i < events.len() && (#[trigger] events[i]).is_quit_chord() {
        if n < events.len() {
            assert(read[n - 1].is_quit_chord());
        } else {
            assert(read =~= events);
        }
    }
}

} // verus!
