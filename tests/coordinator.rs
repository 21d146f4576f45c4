use kilo_view::editor::Editor;
use kilo_view::keys::{EditorKey, Key};
use kilo_view::screen::{Command, Position};

fn editor(lines: &[&str], width: u16, height: u16) -> Editor {
    let data: Vec<String> = lines.iter().map(|s| s.to_string()).collect();
    Editor::build(&data, width, height)
}

fn at(e: &Editor) -> (usize, usize) {
    let p = e.cursor();
    (p.y, p.x)
}

fn visible(e: &Editor, width: usize, height: usize) -> bool {
    let p = e.cursor();
    let rx = if p.y < e.rows().len() { e.rows()[p.y].cx_to_rx(p.x) } else { 0 };
    e.row_offset() <= p.y
        && p.y < e.row_offset() + height
        && e.col_offset() <= rx
        && rx < e.col_offset() + width
}

#[test]
fn three_line_file_down_twice_right_five_times() {
    let mut e = editor(&["abc", "de", "fghij"], 80, 10);
    e.move_cursor(EditorKey::Down);
    e.move_cursor(EditorKey::Down);
    for _ in 0..5 {
        e.move_cursor(EditorKey::Right);
    }
    assert_eq!(e.cursor(), Position { x: 5, y: 2 });
    e.move_cursor(EditorKey::Right);
    assert_eq!(e.cursor(), Position { x: 5, y: 2 });
}

#[test]
fn moving_down_to_shorter_line_clamps_column() {
    let mut e = editor(&["abcdefghijklmnopqrstuvwxy", "hello"], 80, 10);
    for _ in 0..20 {
        e.move_cursor(EditorKey::Right);
    }
    assert_eq!(at(&e), (0, 20));
    e.move_cursor(EditorKey::Down);
    assert_eq!(at(&e), (1, 5));
}

#[test]
fn down_stops_at_line_past_end() {
    let mut e = editor(&["a", "b", "c"], 80, 10);
    for _ in 0..10 {
        e.move_cursor(EditorKey::Down);
        assert!(e.cursor().y <= 3);
    }
    assert_eq!(at(&e), (3, 0));
    e.move_cursor(EditorKey::Right);
    assert_eq!(at(&e), (3, 0));
}

#[test]
fn right_stops_at_end_of_line() {
    let mut e = editor(&["abcd"], 80, 10);
    for _ in 0..10 {
        e.move_cursor(EditorKey::Right);
        assert!(e.cursor().x <= 4);
    }
    assert_eq!(at(&e), (0, 4));
}

#[test]
fn up_and_left_stop_at_zero() {
    let mut e = editor(&["abc"], 80, 10);
    e.move_cursor(EditorKey::Up);
    e.move_cursor(EditorKey::Left);
    assert_eq!(at(&e), (0, 0));
}

#[test]
fn empty_buffer_cursor_stays_at_origin() {
    let mut e = Editor::new(80, 24);
    for k in [EditorKey::Down, EditorKey::Right, EditorKey::Down] {
        e.move_cursor(k);
    }
    assert_eq!(at(&e), (0, 0));
}

#[test]
fn home_and_end_go_to_line_ends() {
    let mut e = editor(&["a\tbcd", "xy"], 80, 10);
    assert!(!e.process_keypress(Key::End));
    assert_eq!(at(&e), (0, 5));
    e.process_keypress(Key::Home);
    assert_eq!(at(&e), (0, 0));
    e.process_keypress(Key::Down);
    e.process_keypress(Key::End);
    assert_eq!(at(&e), (1, 2));
}

#[test]
fn page_down_and_up_move_by_screen_height() {
    let mut e = editor(&["0", "1", "2", "3", "4", "5", "6"], 80, 3);
    e.process_keypress(Key::PageDown);
    assert_eq!(at(&e), (3, 0));
    e.process_keypress(Key::PageDown);
    assert_eq!(at(&e), (6, 0));
    e.process_keypress(Key::PageDown);
    assert_eq!(at(&e), (7, 0));
    e.process_keypress(Key::PageUp);
    assert_eq!(at(&e), (4, 0));
    e.process_keypress(Key::PageUp);
    e.process_keypress(Key::PageUp);
    assert_eq!(at(&e), (0, 0));
}

#[test]
fn scroll_follows_cursor_down_and_up() {
    let lines: Vec<String> = (0..10).map(|i| i.to_string()).collect();
    let mut e = Editor::build(&lines, 80, 3);
    for _ in 0..5 {
        e.process_keypress(Key::Down);
    }
    assert_eq!(e.cursor().y, 5);
    assert_eq!(e.row_offset(), 3);
    for _ in 0..4 {
        e.process_keypress(Key::Up);
    }
    assert_eq!(e.row_offset(), 1);
}

#[test]
fn horizontal_scroll_uses_rendered_column() {
    let mut e = editor(&["\t\tab"], 4, 5);
    e.process_keypress(Key::End);
    assert_eq!(at(&e), (0, 4));
    assert_eq!(e.col_offset(), 10 - 4 + 1);
    e.process_keypress(Key::Home);
    assert_eq!(e.col_offset(), 0);
}

#[test]
fn scroll_without_movement_keeps_visible_offsets() {
    let mut e = editor(&["abc"], 80, 10);
    e.scroll();
    assert_eq!((e.row_offset(), e.col_offset()), (0, 0));
}

#[test]
fn cursor_stays_visible_after_every_key() {
    let lines = [
        "\tfirst line with a tab",
        "",
        "short",
        "a much longer line that runs past the width of the screen",
        "x\ty\tz",
        "",
        "last",
    ];
    let mut e = editor(&lines, 7, 3);
    let keys = [
        Key::End, Key::Down, Key::Down, Key::Down, Key::End, Key::Left, Key::Up, Key::Down,
        Key::Down, Key::End, Key::PageDown, Key::PageUp, Key::Char('s'), Key::Char('d'),
        Key::Right, Key::Right, Key::Home, Key::PageDown, Key::PageDown, Key::Char('w'),
        Key::Char('a'), Key::Other, Key::Up, Key::End,
    ];
    for k in keys {
        e.process_keypress(k);
        assert!(visible(&e, 7, 3), "cursor not visible after {:?}", k);
        let p = e.cursor();
        assert!(p.y <= lines.len());
        let len = if p.y < lines.len() { lines[p.y].chars().count() } else { 0 };
        assert!(p.x <= len);
    }
}

#[test]
fn control_q_asks_to_quit() {
    let mut e = editor(&["abc"], 80, 10);
    assert!(!e.process_keypress(Key::Char('q')));
    assert!(e.process_keypress(Key::Ctrl('q')));
    assert_eq!(at(&e), (0, 0));
}

#[test]
fn letter_keys_move_the_cursor() {
    let mut e = editor(&["abc", "def"], 80, 10);
    e.process_keypress(Key::Char('s'));
    e.process_keypress(Key::Char('d'));
    e.process_keypress(Key::Char('d'));
    assert_eq!(at(&e), (1, 2));
    e.process_keypress(Key::Char('a'));
    e.process_keypress(Key::Char('w'));
    assert_eq!(at(&e), (0, 1));
}

#[test]
fn refresh_screen_emits_whole_frame_and_cursor() {
    let mut e = editor(&["ab", "c"], 10, 3);
    e.process_keypress(Key::Down);
    e.process_keypress(Key::Right);
    let p = |s: &str| Command::Print(s.chars().collect());
    let g = |col: u16, row: u16| Command::MoveTo { col, row };
    assert_eq!(
        e.refresh_screen(),
        vec![
            Command::Clear,
            g(0, 0),
            g(0, 0),
            p("ab"),
            g(0, 1),
            p("c"),
            g(0, 2),
            p("~"),
            g(1, 1),
        ]
    );
}

#[test]
fn refresh_screen_places_cursor_after_tab_relative_to_offsets() {
    let mut e = editor(&["x", "\tab"], 3, 1);
    e.process_keypress(Key::Down);
    e.process_keypress(Key::Right);
    assert_eq!((e.row_offset(), e.col_offset()), (1, 2));
    let cmds = e.refresh_screen();
    assert_eq!(cmds.last(), Some(&Command::MoveTo { col: 2, row: 0 }));
    assert_eq!(cmds[3], Command::Print("  a".chars().collect()));
}

#[test]
fn refresh_screen_over_empty_buffer_shows_banner() {
    let mut e = Editor::new(80, 24);
    let cmds = e.refresh_screen();
    assert_eq!(cmds.len(), 2 + 23 * 2 + 4 + 1);
    assert_eq!(cmds[2 + 8 * 2 + 3], Command::Print(kilo_view::screen::WELCOME.chars().collect()));
}

#[test]
fn with_text_splits_at_newlines() {
    let e = Editor::with_text("ab\n\tc\n", 80, 10);
    let raw: Vec<String> = e.rows().iter().map(|r| r.raw().iter().collect()).collect();
    assert_eq!(raw, vec!["ab".to_string(), "\tc".to_string(), String::new()]);
    let e = Editor::with_text("", 80, 10);
    assert_eq!(e.rows().len(), 1);
    assert_eq!(e.rows()[0].len(), 0);
    let e = Editor::with_text("one", 80, 10);
    assert_eq!(e.rows().len(), 1);
    assert_eq!(e.rows()[0].len(), 3);
}

#[test]
fn build_keeps_lines_in_order() {
    let e = editor(&["x", "yy", "zzz"], 80, 10);
    let lens: Vec<usize> = e.rows().iter().map(|r| r.len()).collect();
    assert_eq!(lens, vec![1, 2, 3]);
}

#[test]
fn quit_key_leaves_editor_unchanged() {
    let mut e = editor(&["ab", "cd"], 80, 1);
    e.move_cursor(EditorKey::Down);
    assert_eq!((e.row_offset(), e.col_offset()), (0, 0));
    assert!(e.process_keypress(Key::Ctrl('q')));
    assert_eq!(at(&e), (1, 0));
    assert_eq!((e.row_offset(), e.col_offset()), (0, 0));
    assert_eq!(e.rows().len(), 2);
}

#[test]
fn unrecognised_key_leaves_editor_unchanged() {
    let mut e = editor(&["ab", "cd"], 80, 1);
    e.move_cursor(EditorKey::Down);
    for k in [Key::Other, Key::Char('x'), Key::Char('q'), Key::Ctrl('x')] {
        assert!(!e.process_keypress(k));
        assert_eq!(at(&e), (1, 0));
        assert_eq!((e.row_offset(), e.col_offset()), (0, 0));
    }
    e.process_keypress(Key::Right);
    assert_eq!(at(&e), (1, 1));
    assert_eq!(e.row_offset(), 1);
}
