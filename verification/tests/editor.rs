use mini_editor::editor::Editor;
use mini_editor::event::{Event, KeyCode, ALT, CONTROL, SHIFT};
use mini_editor::term::{Size, Terminal};

const HELP: &str = "HELP: Ctrl-F = find | Ctrl-Q = quit";
const ROW: &str = "\x1b[2K~\r\n";
const BAR_ON: &str = "\x1b[2K\x1b[48;2;239;239;239m\x1b[38;2;63;63;63m";
const BAR_OFF: &str = "\r\n\x1b[0m";
const QUIT: Event = Event::Key { code: KeyCode::Char('q'), modifiers: CONTROL };

fn editor(width: u16, height: u16) -> Editor {
    crossterm::style::force_color_output(true);
    Editor::new(Terminal::new(Size { width, height }))
}

fn drawn(editor: &mut Editor) -> String {
    editor.terminal_mut().flush()
}

#[test]
fn new_editor_runs_on_the_given_terminal() {
    let mut t = Terminal::new(Size { width: 80, height: 24 });
    t.print("queued before");
    let mut e = Editor::new(t);
    assert!(!e.should_quit());
    assert_eq!(e.terminal().size(), Size { width: 80, height: 24 });
    assert_eq!(drawn(&mut e), "queued before");
}

#[test]
fn draw_rows_draws_all_rows_but_two() {
    let mut e = editor(80, 24);
    e.draw_rows();
    assert_eq!(drawn(&mut e), ROW.repeat(22));
}

#[test]
fn draw_rows_draws_one_row_on_three_lines() {
    let mut e = editor(80, 3);
    e.draw_rows();
    assert_eq!(drawn(&mut e), "\x1b[2K~\r\n");
}

#[test]
fn draw_rows_draws_nothing_where_only_the_bars_fit() {
    let mut e = editor(80, 2);
    e.draw_rows();
    assert_eq!(drawn(&mut e), "");
}

#[test]
fn draw_rows_draws_nothing_on_a_screen_too_small_for_the_bars() {
    let mut e = editor(80, 1);
    e.draw_rows();
    assert_eq!(drawn(&mut e), "");
    let mut none = editor(80, 0);
    none.draw_rows();
    assert_eq!(drawn(&mut none), "");
}

#[test]
fn draw_rows_on_the_tallest_screen() {
    let mut e = editor(1, u16::MAX);
    e.draw_rows();
    assert_eq!(drawn(&mut e).matches(ROW).count(), 65533);
}

#[test]
fn draw_rows_queues_behind_what_is_pending() {
    let mut e = editor(80, 4);
    e.terminal_mut().print("first");
    e.draw_rows();
    assert_eq!(drawn(&mut e), format!("first{}{}", ROW, ROW));
}

#[test]
fn draw_status_bar_spans_the_full_width() {
    let mut e = editor(80, 24);
    e.draw_status_bar();
    let bar = drawn(&mut e);
    let line = "Status bar: Size { width: 80, height: 24 }                                      ";
    assert_eq!(line.len(), 80);
    assert_eq!(bar, format!("{}{}{}", BAR_ON, line, BAR_OFF));
}

#[test]
fn draw_status_bar_pads_to_the_width_exactly() {
    let mut e = editor(48, 65535);
    e.draw_status_bar();
    let bar = drawn(&mut e);
    let text = "Status bar: Size { width: 48, height: 65535 }";
    assert_eq!(text.len(), 45);
    assert_eq!(bar, format!("{}{}   {}", BAR_ON, text, BAR_OFF));
}

#[test]
fn draw_status_bar_adds_no_space_where_the_text_fills_the_width() {
    let mut e = editor(41, 7);
    e.draw_status_bar();
    let text = "Status bar: Size { width: 41, height: 7 }";
    assert_eq!(text.len(), 41);
    assert_eq!(drawn(&mut e), format!("{}{}{}", BAR_ON, text, BAR_OFF));
}

#[test]
fn draw_status_bar_leaves_the_text_whole_on_a_narrow_screen() {
    let mut e = editor(10, 24);
    e.draw_status_bar();
    let text = "Status bar: Size { width: 10, height: 24 }";
    assert_eq!(drawn(&mut e), format!("{}{}{}", BAR_ON, text, BAR_OFF));
    let mut none = editor(0, 0);
    none.draw_status_bar();
    let empty = "Status bar: Size { width: 0, height: 0 }";
    assert_eq!(drawn(&mut none), format!("{}{}{}", BAR_ON, empty, BAR_OFF));
}

#[test]
fn draw_status_bar_names_the_size_as_its_debug_form_does() {
    let sizes = [(0, 0), (9, 10), (99, 100), (999, 1000), (9999, 10000), (65535, 65535)];
    for (width, height) in sizes {
        let mut e = editor(width, height);
        e.draw_status_bar();
        let bar = drawn(&mut e);
        let text = format!("Status bar: {:?}", Size { width, height });
        assert!(bar[BAR_ON.len()..].starts_with(&text), "{}", text);
    }
}

#[test]
fn draw_status_bar_on_the_widest_screen() {
    let mut e = editor(u16::MAX, 1);
    e.draw_status_bar();
    let bar = drawn(&mut e);
    let text = "Status bar: Size { width: 65535, height: 1 }";
    let line = &bar[BAR_ON.len()..bar.len() - BAR_OFF.len()];
    assert_eq!(line.len(), 65535);
    assert!(line.starts_with(text));
    assert!(line[text.len()..].bytes().all(|b| b == b' '));
}

#[test]
fn draw_message_bar_shows_a_fresh_message() {
    let mut e = editor(80, 24);
    e.draw_message_bar_at_age(0);
    assert_eq!(drawn(&mut e), format!("\x1b[2K{}", HELP));
}

#[test]
fn draw_message_bar_shows_the_message_just_inside_the_window() {
    let mut e = editor(80, 24);
    e.draw_message_bar_at_age(4999);
    assert_eq!(drawn(&mut e), format!("\x1b[2K{}", HELP));
}

#[test]
fn draw_message_bar_is_blank_just_outside_the_window() {
    let mut e = editor(80, 24);
    e.draw_message_bar_at_age(5001);
    assert_eq!(drawn(&mut e), "\x1b[2K");
}

#[test]
fn draw_message_bar_is_blank_at_the_end_of_the_window() {
    let mut e = editor(80, 24);
    e.draw_message_bar_at_age(5000);
    assert_eq!(drawn(&mut e), "\x1b[2K");
    e.draw_message_bar_at_age(u128::MAX);
    assert_eq!(drawn(&mut e), "\x1b[2K");
}

#[test]
fn draw_message_bar_checks_the_age_on_every_call() {
    let mut e = editor(80, 24);
    e.draw_message_bar_at_age(6000);
    e.draw_message_bar_at_age(10);
    assert_eq!(drawn(&mut e), format!("\x1b[2K\x1b[2K{}", HELP));
}

#[test]
fn draw_message_bar_cuts_the_message_to_the_width() {
    let mut e = editor(10, 24);
    e.draw_message_bar_at_age(0);
    assert_eq!(drawn(&mut e), "\x1b[2KHELP: Ctrl");
    let mut exact = editor(35, 24);
    exact.draw_message_bar_at_age(0);
    assert_eq!(drawn(&mut exact), format!("\x1b[2K{}", HELP));
    let mut one_short = editor(34, 24);
    one_short.draw_message_bar_at_age(0);
    assert_eq!(drawn(&mut one_short), "\x1b[2KHELP: Ctrl-F = find | Ctrl-Q = qui");
    let mut none = editor(0, 24);
    none.draw_message_bar_at_age(0);
    assert_eq!(drawn(&mut none), "\x1b[2K");
}

#[test]
fn draw_message_bar_shows_a_message_made_just_now() {
    let mut e = editor(80, 24);
    e.draw_message_bar();
    assert_eq!(drawn(&mut e), format!("\x1b[2K{}", HELP));
}

#[test]
fn quit_chord_makes_the_editor_quit() {
    let mut e = editor(80, 24);
    e.handle_events(&QUIT);
    assert!(e.should_quit());
    assert_eq!(e.terminal().size(), Size { width: 80, height: 24 });
    assert_eq!(drawn(&mut e), "");
}

#[test]
fn no_other_event_makes_the_editor_quit() {
    let others = [
        Event::Key { code: KeyCode::Char('q'), modifiers: 0 },
        Event::Key { code: KeyCode::Char('q'), modifiers: SHIFT },
        Event::Key { code: KeyCode::Char('q'), modifiers: ALT },
        Event::Key { code: KeyCode::Char('q'), modifiers: CONTROL | SHIFT },
        Event::Key { code: KeyCode::Char('q'), modifiers: CONTROL | ALT },
        Event::Key { code: KeyCode::Char('q'), modifiers: 0xff },
        Event::Key { code: KeyCode::Char('Q'), modifiers: CONTROL },
        Event::Key { code: KeyCode::Char('f'), modifiers: CONTROL },
        Event::Key { code: KeyCode::Char('\u{11}'), modifiers: 0 },
        Event::Key { code: KeyCode::Other, modifiers: CONTROL },
        Event::Resize(0, 0),
        Event::Resize(113, 2),
        Event::Other,
    ];
    for event in others.iter() {
        let mut e = editor(80, 24);
        e.handle_events(event);
        assert!(!e.should_quit(), "{:?}", event);
        assert!(!Event::is_quit(event));
    }
    assert!(QUIT.is_quit());
}

#[test]
fn events_that_are_no_command_change_nothing() {
    let mut e = editor(80, 24);
    e.terminal_mut().print("pending");
    e.handle_events(&Event::Other);
    e.handle_events(&Event::Key { code: KeyCode::Char('x'), modifiers: 0 });
    e.handle_events(&Event::Key { code: KeyCode::Other, modifiers: SHIFT });
    assert!(!e.should_quit());
    assert_eq!(e.terminal().size(), Size { width: 80, height: 24 });
    assert_eq!(drawn(&mut e), "pending");
}

#[test]
fn resize_sets_the_reported_size_and_nothing_else() {
    let mut e = editor(80, 24);
    e.terminal_mut().print("pending");
    e.handle_events(&Event::Resize(132, 43));
    assert_eq!(e.terminal().size(), Size { width: 132, height: 43 });
    assert!(!e.should_quit());
    e.draw_message_bar_at_age(0);
    assert_eq!(drawn(&mut e), format!("pending\x1b[2K{}", HELP));
    e.handle_events(&Event::Resize(0, 65535));
    assert_eq!(e.terminal().size(), Size { width: 0, height: 65535 });
}

#[test]
fn a_quitting_editor_never_runs_again() {
    let mut e = editor(80, 24);
    e.handle_events(&QUIT);
    e.handle_events(&Event::Other);
    e.handle_events(&Event::Key { code: KeyCode::Char('x'), modifiers: 0 });
    e.handle_events(&Event::Resize(40, 10));
    e.handle_events(&QUIT);
    assert!(e.should_quit());
    assert_eq!(e.terminal().size(), Size { width: 40, height: 10 });
    let _ = e.refresh_screen();
    e.draw_rows();
    e.draw_status_bar();
    e.draw_message_bar();
    assert!(e.should_quit());
}

#[test]
fn refresh_screen_paints_rows_status_and_message() {
    let mut e = editor(80, 24);
    let frame = e.refresh_screen_at_age(0);
    let status = format!("{:<80}", "Status bar: Size { width: 80, height: 24 }");
    assert_eq!(status.len(), 80);
    let expected = format!(
        "\x1b[?25l\x1b[1;1H{}{}{}{}\x1b[2K{}\x1b[?25h",
        ROW.repeat(22),
        BAR_ON,
        status,
        BAR_OFF,
        HELP
    );
    assert_eq!(frame, expected);
    assert_eq!(frame.matches(ROW).count(), 22);
    assert_eq!(drawn(&mut e), "");
}

#[test]
fn refresh_screen_reads_the_clock_for_the_message() {
    let mut e = editor(80, 24);
    let by_clock = e.refresh_screen();
    let fresh = e.refresh_screen_at_age(0);
    assert_eq!(by_clock, fresh);
}

#[test]
fn refresh_screen_drops_an_expired_message() {
    let mut e = editor(20, 3);
    let frame = e.refresh_screen_at_age(5001);
    let expected = format!(
        "\x1b[?25l\x1b[1;1H{}{}{}{}\x1b[2K\x1b[?25h",
        ROW, BAR_ON, "Status bar: Size { width: 20, height: 3 }", BAR_OFF
    );
    assert_eq!(frame, expected);
}

#[test]
fn refresh_screen_hands_out_what_was_pending_first() {
    let mut e = editor(80, 2);
    e.terminal_mut().print("left over");
    let frame = e.refresh_screen_at_age(9000);
    assert!(frame.starts_with("left over\x1b[?25l\x1b[1;1H\x1b[2K\x1b[48;2;"));
    assert!(frame.ends_with("\x1b[0m\x1b[2K\x1b[?25h"));
}

#[test]
fn refresh_screen_after_quit_only_clears_the_screen() {
    let mut e = editor(80, 24);
    e.handle_events(&QUIT);
    assert_eq!(e.refresh_screen(), "\x1b[?25l\x1b[1;1H\x1b[2J\x1b[?25h");
    assert_eq!(e.refresh_screen_at_age(0), "\x1b[?25l\x1b[1;1H\x1b[2J\x1b[?25h");
    assert_eq!(drawn(&mut e), "");
}

#[test]
fn rows_follow_a_resize() {
    let mut e = editor(80, 24);
    e.handle_events(&Event::Resize(40, 10));
    e.draw_rows();
    assert_eq!(drawn(&mut e), ROW.repeat(8));
}

#[test]
fn run_stops_at_the_quit_chord_and_reads_no_further() {
    let mut e = editor(80, 24);
    let frames = e.run(&[QUIT, Event::Resize(40, 10)]);
    assert_eq!(frames.len(), 2);
    assert_eq!(frames[0], editor(80, 24).refresh_screen_at_age(0));
    assert_eq!(frames[1], "\x1b[?25l\x1b[1;1H\x1b[2J\x1b[?25h");
    assert!(e.should_quit());
    assert_eq!(e.terminal().size(), Size { width: 80, height: 24 });
    assert_eq!(drawn(&mut e), "");
}

#[test]
fn run_repaints_after_every_event() {
    let mut e = editor(80, 24);
    let frames = e.run(&[
        Event::Other,
        Event::Resize(60, 5),
        Event::Key { code: KeyCode::Char('q'), modifiers: 0 },
        QUIT,
        QUIT,
        Event::Resize(1, 1),
    ]);
    assert_eq!(frames.len(), 5);
    let wide = editor(80, 24).refresh_screen_at_age(0);
    let small = editor(60, 5).refresh_screen_at_age(0);
    assert_eq!(frames[0], wide);
    assert_eq!(frames[1], wide);
    assert_eq!(frames[2], small);
    assert_eq!(frames[3], small);
    assert_eq!(frames[4], "\x1b[?25l\x1b[1;1H\x1b[2J\x1b[?25h");
    assert!(e.should_quit());
    assert_eq!(e.terminal().size(), Size { width: 60, height: 5 });
}

#[test]
fn run_without_a_quit_chord_reads_every_event() {
    let mut e = editor(80, 24);
    let frames = e.run(&[Event::Resize(50, 4), Event::Other]);
    assert_eq!(frames.len(), 3);
    assert!(!e.should_quit());
    assert_eq!(e.terminal().size(), Size { width: 50, height: 4 });
    assert_eq!(frames[2], editor(50, 4).refresh_screen_at_age(0));
}

#[test]
fn run_without_events_repaints_once() {
    let mut e = editor(80, 24);
    e.terminal_mut().print("pending");
    let frames = e.run(&[]);
    assert_eq!(frames.len(), 1);
    assert_eq!(frames[0], format!("pending{}", editor(80, 24).refresh_screen_at_age(0)));
    assert!(!e.should_quit());
}

#[test]
fn run_of_a_quitting_editor_reads_nothing() {
    let mut e = editor(80, 24);
    e.handle_events(&QUIT);
    let frames = e.run(&[Event::Resize(40, 10), Event::Other]);
    assert_eq!(frames, vec!["\x1b[?25l\x1b[1;1H\x1b[2J\x1b[?25h".to_string()]);
    assert_eq!(e.terminal().size(), Size { width: 80, height: 24 });
    assert!(e.should_quit());
}
