use mini_editor::ansi::Color;
use mini_editor::editor::Editor;
use mini_editor::term::{Size, Terminal};

#[test]
fn color_changes_name_no_color_where_color_output_is_off() {
    crossterm::style::force_color_output(false);
    let mut t = Terminal::new(Size { width: 80, height: 24 });
    t.set_fg_color(Color { r: 1, g: 2, b: 3 });
    t.set_bg_color(Color { r: 4, g: 5, b: 6 });
    t.reset_color();
    assert_eq!(t.flush(), "\x1b[m\x1b[m\x1b[0m");

    let mut editor = Editor::new(Terminal::new(Size { width: 50, height: 3 }));
    editor.draw_status_bar();
    let bar = editor.terminal_mut().flush();
    let text = "Status bar: Size { width: 50, height: 3 }";
    assert_eq!(bar, format!("\x1b[2K\x1b[m\x1b[m{:<50}\r\n\x1b[0m", text));
}
