//! The rendering and input core of a minimal full-screen text editor.
//!
//! The terminal surface queues escape sequences in memory and hands them out
//! frame by frame; the editor composes those primitives into a repaint and
//! interprets input events. Nothing here touches the terminal itself: the
//! caller writes each frame to it and reads each event from it.

pub mod ansi;
pub mod clock;
pub mod editor;
pub mod event;
pub mod laws;
pub mod layout;
pub mod term;
pub mod text;
