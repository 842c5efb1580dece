//! The editor loop: session state, the repaint, and the reaction to input.

use crate::ansi::{
    background_seq, clear_seq, foreground_seq, hide_cursor_seq, move_to_seq, reset_color_seq,
    show_cursor_seq, ClearArea, Color,
};
use crate::event::Event;
use crate::layout::{
    content_row_count, content_rows_seq, message_bar_seq, status_bar_seq, status_bg_color,
    status_fg_color, status_line_seq, welcome_seq, within_window, BAR_ROWS,
    MESSAGE_WINDOW_MILLIS,
};
use crate::term::{Size, Terminal, TerminalView};
use crate::text::{pad_to_width, push_decimal, truncate_to_width};
use std::time::Instant;
use vstd::prelude::*;
use vstd::seq_lib::lemma_concat_associative;
use vstd::string::*;

verus! {

/// What an [`Editor`] stands for.
pub struct EditorView {
    /// Whether the quit chord has been seen.
    pub quitting: bool,
    /// The text of the status message.
    pub status: Seq<char>,
    /// The terminal surface.
    pub terminal: TerminalView,
}

impl EditorView {
    /// The editor with `s` queued on its terminal.
    pub open spec fn queue(self, s: Seq<char>) -> EditorView {
        EditorView { quitting: self.quitting, status: self.status, terminal: self.terminal.queue(s) }
    }

    /// Queuing one text and then another is queuing the two joined.
    pub proof fn lemma_queue_joins(self, a: Seq<char>, b: Seq<char>)
        ensures
            self.queue(a).queue(b) == self.queue(a + b),
    {
        assert((self.terminal.pending + a) + b =~= self.terminal.pending + (a + b));
    }

    /// The editor after its terminal's queue has been handed out.
    pub open spec fn flushed(self) -> EditorView {
        EditorView {
            quitting: self.quitting,
            status: self.status,
            terminal: self.terminal.flushed(),
        }
    }

    /// One repaint as it is queued: the cursor is hidden and sent to the top
    /// left corner; a quitting editor then clears the screen, any other draws
    /// the content rows, the status bar and the message bar, in that order;
    /// at the end the cursor is shown again. `shown` says whether the status
    /// message is still on display, `bg` and `fg` whether the status bar's
    /// colour changes name a colour.
    pub open spec fn repaint(self, shown: bool, bg: bool, fg: bool) -> Seq<char> {
        let size = self.terminal.size;
        if self.quitting {
            hide_cursor_seq() + move_to_seq(0, 0) + clear_seq(ClearArea::Screen)
                + show_cursor_seq()
        } else {
            hide_cursor_seq() + move_to_seq(0, 0) + content_rows_seq(content_row_count(size))
                + status_bar_seq(size, bg, fg) + message_bar_seq(self.status, size, shown)
                + show_cursor_seq()
        }
    }

    /// Whether `frame` is what a repaint of this editor hands out: whatever
    /// was pending, followed by one repaint.
    pub open spec fn paints(self, frame: Seq<char>) -> bool {
        exists|shown: bool, bg: bool, fg: bool|
            frame == self.terminal.pending + #[trigger] self.repaint(shown, bg, fg)
    }

    /// The editor after one input event. The quit chord makes it quit, a
    /// resize sets the screen's size, and every other event changes nothing.
    pub open spec fn handle(self, event: Event) -> EditorView {
        if event.is_quit_chord() {
            EditorView { quitting: true, status: self.status, terminal: self.terminal }
        } else {
            match event {
                Event::Resize(width, height) => EditorView {
                    quitting: self.quitting,
                    status: self.status,
                    terminal: self.terminal.resized(Size { width, height }),
                },
                _ => self,
            }
        }
    }
}

/// How many of `events` a running editor reads before it stops: every event
/// up to and including the first quit chord, and all of them where there is
/// none.
pub open spec fn events_read(events: Seq<Event>) -> nat
    decreases events.len(),
{
    if events.len() == 0 {
        0
    } else if events.first().is_quit_chord() {
        1
    } else {
        1 + events_read(events.drop_first())
    }
}

impl EditorView {
    /// The editor after it has handled `events`, one after the other.
    pub open spec fn after_events(self, events: Seq<Event>) -> EditorView
        decreases events.len(),
    {
        if events.len() == 0 {
            self
        } else {
            self.after_events(events.drop_last()).handle(events.last())
        }
    }

    /// How many of `events` a session of this editor reads: none where it is
    /// quitting already.
    pub open spec fn session_len(self, events: Seq<Event>) -> nat {
        if self.quitting {
            0
        } else {
            events_read(events)
        }
    }

    /// The editor as a session finds it before the repaint that follows its
    /// `k`-th event. Before the first repaint that is the editor itself;
    /// later its queue has been handed out and `k` events have been handled.
    pub open spec fn session_state(self, events: Seq<Event>, k: nat) -> EditorView {
        if k == 0 {
            self
        } else {
            self.flushed().after_events(events.take(k as int))
        }
    }
}

/// Handling events leaves the status message and the queue as they are.
pub proof fn lemma_events_keep_status_and_queue(view: EditorView, events: Seq<Event>)
    ensures
        view.after_events(events).status == view.status,
        view.after_events(events).terminal.pending == view.terminal.pending,
    decreases events.len(),
{
    if events.len() > 0 {
        lemma_events_keep_status_and_queue(view, events.drop_last());
    }
}

/// A transient notice for the message bar, with the moment it was made.
#[derive(Debug)]
struct StatusMessage {
    text: String,
    time: Instant,
}

impl StatusMessage {
    /// A message with the given text, made now.
    fn new(text: String) -> (message: StatusMessage)
        ensures
            message@ == text@,
    {
        StatusMessage { text, time: Instant::now() }
    }

    /// The time since the message was made, in whole milliseconds, as the
    /// clock has it at the moment of the call.
    fn age_millis(&self) -> u128 {
        self.time.elapsed().as_millis()
    }
}

impl View for StatusMessage {
    type V = Seq<char>;

    closed spec fn view(&self) -> Seq<char> {
        self.text@
    }
}

/// The editor: whether it is quitting, its status message, and the terminal
/// it draws on.
#[derive(Debug)]
pub struct Editor {
    should_quit: bool,
    status: StatusMessage,
    terminal: Terminal,
}

impl View for Editor {
    type V = EditorView;

    closed spec fn view(&self) -> EditorView {
        EditorView { quitting: self.should_quit, status: self.status@, terminal: self.terminal@ }
    }
}

impl Editor {
    /// An editor on the given terminal: running, with the welcome message.
    pub fn new(terminal: Terminal) -> (editor: Editor)
        ensures
            editor@ == (EditorView {
                quitting: false,
                status: welcome_seq(),
                terminal: terminal@,
            }),
    {
        let text = String::from_str("HELP: Ctrl-F = find | Ctrl-Q = quit");
        Editor { should_quit: false, status: StatusMessage::new(text), terminal }
    }

    /// Whether the editor is quitting.
    pub fn should_quit(&self) -> (quitting: bool)
        ensures
            quitting == self@.quitting,
    {
        self.should_quit
    }

    /// The terminal the editor draws on.
    pub fn terminal(&self) -> (terminal: &Terminal)
        ensures
            terminal@ == self@.terminal,
    {
        &self.terminal
    }

    /// The terminal the editor draws on, for the caller to draw on or to
    /// flush. The rest of the editor stays as it is.
    pub fn terminal_mut(&mut self) -> (terminal: &mut Terminal)
        ensures
            terminal@ == old(self)@.terminal,
            final(self)@ == (EditorView {
                quitting: old(self)@.quitting,
                status: old(self)@.status,
                terminal: final(terminal)@,
            }),
    {
        &mut self.terminal
    }

    /// Reacts to one input event: the quit chord makes the editor quit, a
    /// resize sets the screen's size, and every other event is dropped.
    pub fn handle_events(&mut self, event: &Event)
        ensures
            final(self)@ == old(self)@.handle(*event),
    {
        if event.is_quit() {
            self.should_quit = true;
        } else {
            match event {
                Event::Resize(width, height) => {
                    self.terminal.resize(Size { width: *width, height: *height });
                },
                _ => {},
            }
        }
    }

    /// Draws the content rows: for each, the line is cleared and the marker
    /// printed.
    pub fn draw_rows(&mut self)
        ensures
            final(self)@ == old(self)@.queue(
                content_rows_seq(content_row_count(old(self)@.terminal.size)),
            ),
    {
        let height: u16 = self.terminal.size().height.saturating_sub(BAR_ROWS);
        let ghost start = self@;
        proof {
            assert(start.terminal.pending + content_rows_seq(0) =~= start.terminal.pending);
        }
        for row in 0..height
            invariant
                height as nat == content_row_count(start.terminal.size),
                self@ == start.queue(content_rows_seq(row as nat)),
        {
            let ghost drawn = content_rows_seq(row as nat);
            self.terminal.clear_current_line();
            self.terminal.print("~\r\n");
            proof {
                start.lemma_queue_joins(drawn, clear_seq(ClearArea::CurrentLine));
                start.lemma_queue_joins(drawn + clear_seq(ClearArea::CurrentLine), "~\r\n"@);
                lemma_concat_associative(drawn, clear_seq(ClearArea::CurrentLine), "~\r\n"@);
            }
        }
    }

    /// Draws the status bar: the line is cleared, the bar's colours are set,
    /// the status text is printed, padded with spaces to the full width of
    /// the screen, and the colours are reset. Whether the colour changes name
    /// a colour is the terminal layer's choice.
    pub fn draw_status_bar(&mut self)
        ensures
            exists|bg: bool, fg: bool|
                final(self)@ == old(self)@.queue(
                    #[trigger] status_bar_seq(old(self)@.terminal.size, bg, fg),
                ),
    {
        let size = self.terminal.size();
        let mut line = String::from_str("Status bar: Size { width: ");
        push_decimal(&mut line, size.width);
        line.append(", height: ");
        push_decimal(&mut line, size.height);
        line.append(" }");
        pad_to_width(&mut line, size.width as usize);
        line.append("\r\n");

        let ghost start = self@;
        self.terminal.clear_current_line();
        let ghost cleared = self@;
        self.terminal.set_bg_color(Color { r: 239, g: 239, b: 239 });
        let ghost bg = self@ == cleared.queue(background_seq(status_bg_color(), true));
        let ghost filled = self@;
        self.terminal.set_fg_color(Color { r: 63, g: 63, b: 63 });
        let ghost fg = self@ == filled.queue(foreground_seq(status_fg_color(), true));
        self.terminal.print(line.as_str());
        self.terminal.reset_color();
        proof {
            let clear = clear_seq(ClearArea::CurrentLine);
            let ground = background_seq(status_bg_color(), bg);
            let ink = foreground_seq(status_fg_color(), fg);
            let colors = clear + ground + ink;
            start.lemma_queue_joins(clear, ground);
            start.lemma_queue_joins(clear + ground, ink);
            start.lemma_queue_joins(colors, line@);
            start.lemma_queue_joins(colors + line@, reset_color_seq());
            assert(line@ == status_line_seq(size) + "\r\n"@);
            lemma_concat_associative(colors, status_line_seq(size), "\r\n"@);
            assert(self@ == start.queue(status_bar_seq(size, bg, fg)));
        }
    }

    /// Draws the message bar for a message of the given age: the line is
    /// cleared, and the message follows, cut to the screen's width, unless
    /// the age has reached the display window.
    pub fn draw_message_bar_at_age(&mut self, age_millis: u128)
        ensures
            final(self)@ == old(self)@.queue(
                message_bar_seq(
                    old(self)@.status,
                    old(self)@.terminal.size,
                    within_window(age_millis),
                ),
            ),
    {
        self.terminal.clear_current_line();
        if age_millis < MESSAGE_WINDOW_MILLIS {
            let width: u16 = self.terminal.size().width;
            let text = truncate_to_width(self.status.text.as_str(), width as usize);
            self.terminal.print(text);
            proof {
                old(self)@.lemma_queue_joins(clear_seq(ClearArea::CurrentLine), text@);
            }
        }
    }

    /// Draws the message bar for the message's age at the moment of the
    /// call. The clock decides whether the message is still shown.
    pub fn draw_message_bar(&mut self)
        ensures
            exists|shown: bool|
                final(self)@ == old(self)@.queue(
                    #[trigger] message_bar_seq(old(self)@.status, old(self)@.terminal.size, shown),
                ),
    {
        let age: u128 = self.status.age_millis();
        self.draw_message_bar_at_age(age);
    }

    /// Repaints the screen for a status message of the given age and hands
    /// out the frame: everything that was pending, followed by the repaint.
    /// Nothing stays queued.
    pub fn refresh_screen_at_age(&mut self, age_millis: u128) -> (frame: String)
        ensures
            final(self)@ == old(self)@.flushed(),
            exists|bg: bool, fg: bool|
                frame@ == old(self)@.terminal.pending + #[trigger] old(self)@.repaint(
                    within_window(age_millis),
                    bg,
                    fg,
                ),
    {
        let ghost start = self@;
        let ghost size = start.terminal.size;
        let ghost shown = within_window(age_millis);
        self.terminal.hide_cursor();
        self.terminal.move_to_top();
        let ghost top = hide_cursor_seq() + move_to_seq(0, 0);
        proof {
            start.lemma_queue_joins(hide_cursor_seq(), move_to_seq(0, 0));
        }
        if self.should_quit {
            self.terminal.clear_screen();
            self.terminal.show_cursor();
            proof {
                let clear = clear_seq(ClearArea::Screen);
                start.lemma_queue_joins(top, clear);
                start.lemma_queue_joins(top + clear, show_cursor_seq());
                assert(self@ == start.queue(start.repaint(shown, true, true)));
            }
        } else {
            self.draw_rows();
            let ghost rows_drawn = self@;
            self.draw_status_bar();
            let ghost (bg, fg) = choose|bg: bool, fg: bool|
                self@ == rows_drawn.queue(#[trigger] status_bar_seq(size, bg, fg));
            self.draw_message_bar_at_age(age_millis);
            self.terminal.show_cursor();
            proof {
                let rows = content_rows_seq(content_row_count(size));
                let status = status_bar_seq(size, bg, fg);
                let message = message_bar_seq(start.status, size, shown);
                start.lemma_queue_joins(top, rows);
                start.lemma_queue_joins(top + rows, status);
                start.lemma_queue_joins(top + rows + status, message);
                start.lemma_queue_joins(top + rows + status + message, show_cursor_seq());
                assert(self@ == start.queue(start.repaint(shown, bg, fg)));
            }
        }
        self.terminal.flush()
    }

    /// Repaints the screen and hands out the frame. The clock decides
    /// whether the status message is still shown.
    pub fn refresh_screen(&mut self) -> (frame: String)
        ensures
            final(self)@ == old(self)@.flushed(),
            old(self)@.paints(frame@),
    {
        let age: u128 = self.status.age_millis();
        self.refresh_screen_at_age(age)
    }

    /// Runs the repaint and input cycle over a recorded sequence of events:
    /// repaint; stop if the editor is quitting or no event is left; handle
    /// the next event; repeat. Returns the frames, one per repaint, in
    /// order. No event behind the first quit chord is read.
    pub fn run(&mut self, events: &[Event]) -> (frames: Vec<String>)
        ensures
            frames@.len() == old(self)@.session_len(events@) + 1,
            final(self)@ == old(self)@.session_state(
                events@,
                old(self)@.session_len(events@),
            ).flushed(),
            forall|k: int|
                0 <= k < frames@.len() ==> old(self)@.session_state(events@, k as nat).paints(
                    #[trigger] frames@[k]@,
                ),
    {
        let ghost start = self@;
        let mut frames: Vec<String> = Vec::new();
        let mut next: usize = 0;
        proof {
            assert(events@.skip(0) =~= events@);
        }
        loop
            invariant_except_break
                next <= events.len(),
                frames@.len() == next,
                self@ == start.session_state(events@, next as nat),
                start.session_len(events@) == next + self@.session_len(events@.skip(next as int)),
                forall|k: int|
                    0 <= k < frames@.len() ==> start.session_state(events@, k as nat).paints(
                        #[trigger] frames@[k]@,
                    ),
            ensures
                frames@.len() == start.session_len(events@) + 1,
                self@ == start.session_state(events@, start.session_len(events@)).flushed(),
                forall|k: int|
                    0 <= k < frames@.len() ==> start.session_state(events@, k as nat).paints(
                        #[trigger] frames@[k]@,
                    ),
            decreases events.len() - next,
        {
            let ghost before = self@;
            let frame = self.refresh_screen();
            frames.push(frame);
            if self.should_quit || next >= events.len() {
                break;
            }
            let ghost rest = events@.skip(next as int);
            self.handle_events(&events[next]);
            next += 1;
            proof {
                let taken = events@.take(next as int);
                assert(taken.drop_last() =~= events@.take(next - 1));
                assert(taken.last() == events@[next - 1]);
                assert(rest.drop_first() =~= events@.skip(next as int));
                lemma_events_keep_status_and_queue(start.flushed(), taken.drop_last());
                assert(before.flushed() == start.flushed().after_events(taken.drop_last()));
            }
        }
        frames
    }
}

} // verus!
