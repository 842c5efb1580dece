//! The terminal surface: the screen's size and the output queued for it.

use crate::ansi::{
    background_seq, clear_seq, foreground_seq, hide_cursor_seq, move_to_seq, queue_background,
    queue_clear, queue_foreground, queue_hide_cursor, queue_move_to, queue_print,
    queue_reset_color, queue_show_cursor, reset_color_seq, show_cursor_seq, ClearArea, Color,
};
use vstd::prelude::*;

verus! {

/// The dimensions of the terminal's character grid.
#[derive(Debug, Clone, Copy, PartialEq, Eq, Structural)]
pub struct Size {
    pub width: u16,
    pub height: u16,
}

/// What a [`Terminal`] stands for: the size it last learnt of and the
/// characters queued since the last flush.
pub struct TerminalView {
    pub size: Size,
    pub pending: Seq<char>,
}

impl TerminalView {
    /// The surface with `s` queued behind what is already pending.
    pub open spec fn queue(self, s: Seq<char>) -> TerminalView {
        TerminalView { size: self.size, pending: self.pending + s }
    }

    /// The surface after its queue has been handed out.
    pub open spec fn flushed(self) -> TerminalView {
        TerminalView { size: self.size, pending: Seq::empty() }
    }

    /// The surface after it has learnt of a new size.
    pub open spec fn resized(self, size: Size) -> TerminalView {
        TerminalView { size, pending: self.pending }
    }
}

/// A terminal surface. Drawing operations only queue characters; `flush`
/// hands the queue to the caller, who writes it to the device.
#[derive(Debug)]
pub struct Terminal {
    size: Size,
    pending: String,
}

impl View for Terminal {
    type V = TerminalView;

    closed spec fn view(&self) -> TerminalView {
        TerminalView { size: self.size, pending: self.pending@ }
    }
}

impl Terminal {
    /// A surface of the given size with nothing queued.
    pub fn new(size: Size) -> (terminal: Terminal)
        ensures
            terminal@ == (TerminalView { size, pending: Seq::empty() }),
    {
        Terminal { size, pending: String::new() }
    }

    /// The size the surface last learnt of.
    pub fn size(&self) -> (size: Size)
        ensures
            size == self@.size,
    {
        self.size
    }

    /// Records a new size; the queue is untouched.
    pub fn resize(&mut self, size: Size)
        ensures
            final(self)@ == old(self)@.resized(size),
    {
        self.size = size;
    }

    /// Queues the instruction that clears the whole screen.
    pub fn clear_screen(&mut self)
        ensures
            final(self)@ == old(self)@.queue(clear_seq(ClearArea::Screen)),
    {
        queue_clear(&mut self.pending, ClearArea::Screen);
    }

    /// Queues the instruction that clears the line the cursor is on.
    pub fn clear_current_line(&mut self)
        ensures
            final(self)@ == old(self)@.queue(clear_seq(ClearArea::CurrentLine)),
    {
        queue_clear(&mut self.pending, ClearArea::CurrentLine);
    }

    /// Queues the instruction that makes the cursor visible.
    pub fn show_cursor(&mut self)
        ensures
            final(self)@ == old(self)@.queue(show_cursor_seq()),
    {
        queue_show_cursor(&mut self.pending);
    }

    /// Queues the instruction that makes the cursor invisible.
    pub fn hide_cursor(&mut self)
        ensures
            final(self)@ == old(self)@.queue(hide_cursor_seq()),
    {
        queue_hide_cursor(&mut self.pending);
    }

    /// Queues the instruction that puts the cursor on column `x` of row `y`,
    /// both counted from zero. The terminal counts from one, so the largest
    /// `u16` cannot be addressed.
    pub fn move_position(&mut self, x: u16, y: u16)
        requires
            x < u16::MAX,
            y < u16::MAX,
        ensures
            final(self)@ == old(self)@.queue(move_to_seq(x, y)),
    {
        queue_move_to(&mut self.pending, x, y);
    }

    /// Queues the instruction that puts the cursor in the top left corner.
    pub fn move_to_top(&mut self)
        ensures
            final(self)@ == old(self)@.queue(move_to_seq(0, 0)),
    {
        self.move_position(0, 0);
    }

    /// Queues `text` as it is, to appear where the cursor then stands. Line
    /// endings are the caller's business.
    pub fn print(&mut self, text: &str)
        ensures
            final(self)@ == old(self)@.queue(text@),
    {
        queue_print(&mut self.pending, text);
    }

    /// Queues a change of the foreground colour. Where colour output is
    /// switched off for the process the queued sequence names no colour.
    pub fn set_fg_color(&mut self, color: Color)
        ensures
            final(self)@ == old(self)@.queue(foreground_seq(color, true)) || final(self)@ == old(
                self,
            )@.queue(foreground_seq(color, false)),
    {
        queue_foreground(&mut self.pending, color);
    }

    /// Queues a change of the background colour. Where colour output is
    /// switched off for the process the queued sequence names no colour.
    pub fn set_bg_color(&mut self, color: Color)
        ensures
            final(self)@ == old(self)@.queue(background_seq(color, true)) || final(self)@ == old(
                self,
            )@.queue(background_seq(color, false)),
    {
        queue_background(&mut self.pending, color);
    }

    /// Queues the instruction that returns both colours to their defaults.
    pub fn reset_color(&mut self)
        ensures
            final(self)@ == old(self)@.queue(reset_color_seq()),
    {
        queue_reset_color(&mut self.pending);
    }

    /// Hands out everything queued since the last flush, in order, and
    /// leaves the queue empty. The caller writes the frame to the device in
    /// one piece.
    pub fn flush(&mut self) -> (frame: String)
        ensures
            frame@ == old(self)@.pending,
            final(self)@ == old(self)@.flushed(),
    {
        let mut frame = String::new();
        std::mem::swap(&mut self.pending, &mut frame);
        frame
    }
}

} // verus!
