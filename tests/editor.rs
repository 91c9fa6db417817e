use naivedit::command::parse_command;
use naivedit::editor::Editor;
use naivedit::mode::{Action, CurMov, Key, Mode};
use naivedit::row::Row;
use naivedit::view::View;

fn chars(s: &str) -> Vec<char> {
    s.chars().collect()
}

fn text(v: &[char]) -> String {
    v.iter().collect()
}

fn rows(lines: &[&str]) -> Vec<Row> {
    lines.iter().map(|l| Row::from_chars(chars(l))).collect()
}

fn lines(e: &Editor) -> Vec<String> {
    e.buffer.iter().map(|r| text(&r.text)).collect()
}

fn goto(x: u16, y: u16) -> String {
    format!("\x1b[{};{}H", y, x)
}

const CLEAR_LINE: &str = "\x1b[2K";

fn press(e: &mut Editor, keys: &[Key]) -> Action {
    let mut last = Action::Continue;
    for k in keys {
        last = e.key_handle(k);
    }
    last
}

#[test]
fn row_new_is_empty() {
    let r = Row::new();
    assert_eq!(r.len(), 0);
    assert!(r.text.is_empty());
}

#[test]
fn new_without_file_holds_one_empty_line() {
    let e = Editor::new(None, None, (80, 24));
    assert_eq!(lines(&e), vec![String::new()]);
    assert_eq!(e.focus, (0, 0));
    assert_eq!(e.mode, Mode::Base);
}

#[test]
fn new_with_empty_file_holds_one_empty_line() {
    let e = Editor::new(Some(chars("f.txt")), Some(Vec::new()), (80, 24));
    assert_eq!(lines(&e), vec![String::new()]);
}

#[test]
fn new_with_lines_keeps_them() {
    let e = Editor::new(Some(chars("f.txt")), Some(rows(&["ab", "cd"])), (80, 24));
    assert_eq!(lines(&e), vec!["ab".to_string(), "cd".to_string()]);
}

#[test]
fn write_hi_and_save() {
    let mut e = Editor::new(None, None, (80, 24));
    press(&mut e, &[Key::Char('i'), Key::Char('h'), Key::Char('i')]);
    assert_eq!(lines(&e), vec!["hi".to_string()]);
    assert_eq!(e.focus, (2, 0));
    press(&mut e, &[Key::Esc, Key::Char(':')]);
    for c in "w out.txt".chars() {
        e.key_handle(&Key::Char(c));
    }
    let action = e.key_handle(&Key::Char('\n'));
    assert_eq!(action, Action::Write(chars("out.txt")));
    assert_eq!(text(&e.contents()), "hi\n");
    assert_eq!(e.mode, Mode::Base);
    assert!(e.cmd.is_empty());
}

#[test]
fn backspace_at_line_start_joins_lines() {
    let mut e = Editor::new(None, Some(rows(&["ab", "cd"])), (80, 24));
    press(&mut e, &[Key::Char('i'), Key::Down]);
    assert_eq!(e.focus, (0, 1));
    press(&mut e, &[Key::Backspace]);
    assert_eq!(lines(&e), vec!["abcd".to_string()]);
    assert_eq!(e.focus, (2, 0));
}

#[test]
fn backspace_at_buffer_start_does_nothing() {
    let mut e = Editor::new(None, Some(rows(&["ab"])), (80, 24));
    press(&mut e, &[Key::Char('i'), Key::Delete]);
    assert_eq!(lines(&e), vec!["ab".to_string()]);
    assert_eq!(e.focus, (0, 0));
}

#[test]
fn backspace_removes_char_left_of_focus() {
    let mut e = Editor::new(None, Some(rows(&["abc"])), (80, 24));
    press(&mut e, &[Key::Char('i'), Key::Right, Key::Right, Key::Backspace]);
    assert_eq!(lines(&e), vec!["ac".to_string()]);
    assert_eq!(e.focus, (1, 0));
}

#[test]
fn insert_then_backspace_restores() {
    let mut e = Editor::new(None, Some(rows(&["abc", "de"])), (80, 24));
    press(&mut e, &[Key::Char('i'), Key::Down, Key::Right]);
    let before = (lines(&e), e.focus);
    press(&mut e, &[Key::Char('x')]);
    assert_eq!(lines(&e), vec!["abc".to_string(), "dxe".to_string()]);
    press(&mut e, &[Key::Backspace]);
    assert_eq!((lines(&e), e.focus), before);
}

#[test]
fn enter_splits_line_and_backspace_joins_it() {
    let mut e = Editor::new(None, Some(rows(&["hello"])), (80, 24));
    press(&mut e, &[Key::Char('i'), Key::Right, Key::Right, Key::Char('\n')]);
    assert_eq!(lines(&e), vec!["he".to_string(), "llo".to_string()]);
    assert_eq!(e.focus, (0, 1));
    press(&mut e, &[Key::Backspace]);
    assert_eq!(lines(&e), vec!["hello".to_string()]);
    assert_eq!(e.focus, (2, 0));
}

#[test]
fn enter_at_line_end_adds_empty_line() {
    let mut e = Editor::new(None, Some(rows(&["ab", "cd"])), (80, 24));
    press(&mut e, &[Key::Char('i'), Key::Right, Key::Right, Key::Right, Key::Char('\n')]);
    assert_eq!(lines(&e), vec!["ab".to_string(), String::new(), "cd".to_string()]);
    assert_eq!(e.focus, (0, 1));
}

#[test]
fn vertical_move_clamps_column() {
    let mut e = Editor::new(None, Some(rows(&["abcdef", "ab", "abcd"])), (80, 24));
    press(&mut e, &[Key::Right, Key::Right, Key::Right, Key::Right, Key::Right]);
    assert_eq!(e.focus, (5, 0));
    press(&mut e, &[Key::Down]);
    assert_eq!(e.focus, (2, 1));
    press(&mut e, &[Key::Down]);
    assert_eq!(e.focus, (2, 2));
    press(&mut e, &[Key::Down]);
    assert_eq!(e.focus, (2, 2));
    press(&mut e, &[Key::Up, Key::Up, Key::Up]);
    assert_eq!(e.focus, (2, 0));
}

#[test]
fn horizontal_move_does_not_wrap() {
    let mut e = Editor::new(None, Some(rows(&["ab", "cd"])), (80, 24));
    press(&mut e, &[Key::Left]);
    assert_eq!(e.focus, (0, 0));
    press(&mut e, &[Key::Right, Key::Right, Key::Right]);
    assert_eq!(e.focus, (2, 0));
}

#[test]
fn base_mode_ignores_text_keys() {
    let mut e = Editor::new(None, Some(rows(&["ab"])), (80, 24));
    press(&mut e, &[Key::Char('x'), Key::Backspace, Key::Other]);
    assert_eq!(lines(&e), vec!["ab".to_string()]);
    assert_eq!(e.mode, Mode::Base);
}

#[test]
fn mode_transitions() {
    let mut e = Editor::new(None, None, (80, 24));
    press(&mut e, &[Key::Char('i')]);
    assert_eq!(e.mode, Mode::Insert);
    press(&mut e, &[Key::Esc]);
    assert_eq!(e.mode, Mode::Base);
    press(&mut e, &[Key::Char(':'), Key::Char('a'), Key::Char('b')]);
    assert_eq!(e.mode, Mode::Command);
    assert_eq!(e.cmd, chars("ab"));
    press(&mut e, &[Key::Backspace]);
    assert_eq!(e.cmd, chars("a"));
    press(&mut e, &[Key::Esc]);
    assert_eq!(e.mode, Mode::Base);
    assert!(e.cmd.is_empty());
}

#[test]
fn command_quit() {
    let mut e = Editor::new(None, None, (80, 24));
    let a = press(&mut e, &[Key::Char(':'), Key::Char('q'), Key::Char('\n')]);
    assert_eq!(a, Action::Quit);
}

#[test]
fn command_write_without_any_name_is_noop() {
    assert_eq!(parse_command(&chars("w"), &None), Action::Continue);
    let mut e = Editor::new(None, None, (80, 24));
    let a = press(&mut e, &[Key::Char(':'), Key::Char('w'), Key::Char('\n')]);
    assert_eq!(a, Action::Continue);
    assert_eq!(e.mode, Mode::Base);
}

#[test]
fn command_write_falls_back_to_opened_name() {
    assert_eq!(
        parse_command(&chars("w"), &Some(chars("orig.txt"))),
        Action::Write(chars("orig.txt"))
    );
}

#[test]
fn command_write_argument_wins() {
    assert_eq!(
        parse_command(&chars("w new.txt extra"), &Some(chars("orig.txt"))),
        Action::Write(chars("new.txt"))
    );
}

#[test]
fn command_unknown_or_empty_is_noop() {
    assert_eq!(parse_command(&chars(""), &None), Action::Continue);
    assert_eq!(parse_command(&chars("x"), &Some(chars("f"))), Action::Continue);
    assert_eq!(parse_command(&chars("wq"), &Some(chars("f"))), Action::Continue);
    assert_eq!(parse_command(&chars(" q"), &None), Action::Continue);
    assert_eq!(parse_command(&chars("q now"), &None), Action::Quit);
}

#[test]
fn contents_terminates_every_line() {
    let e = Editor::new(None, Some(rows(&["a", "", "bc"])), (80, 24));
    assert_eq!(text(&e.contents()), "a\n\nbc\n");
}

#[test]
fn focus_to_cursor_maps_and_pins() {
    let mut v = View::new((4, 3));
    assert_eq!(v.cursor, (1, 2));
    v.focus_to_cursor((2, 0));
    assert_eq!(v.cursor, (3, 2));
    v.focus_to_cursor((3, 0));
    assert_eq!(v.cursor, (4, 2));
    v.focus_to_cursor((6, 1));
    assert_eq!(v.cursor, (4, 3));
    v.focus_to_cursor((0, 9));
    assert_eq!(v.cursor, (1, 3));
}

#[test]
fn clear_sequence() {
    let v = View::new((4, 3));
    assert_eq!(text(&v.clear()), "\x1b[2J");
}

#[test]
fn render_scrolls_long_line_to_focus() {
    let mut v = View::new((4, 2));
    let buf = rows(&["abcdef"]);
    let out = v.render(Mode::Insert, &(6, 0), &buf, &Vec::new());
    let expected = format!(
        "{}{}def{}{}{}INSERT MODE{}",
        goto(1, 2),
        CLEAR_LINE,
        goto(4, 2),
        goto(1, 1),
        CLEAR_LINE,
        goto(4, 2)
    );
    assert_eq!(text(&out), expected);
}

#[test]
fn render_short_line_left_anchored() {
    let mut v = View::new((10, 4));
    let buf = rows(&["abc", "de"]);
    let out = v.render(Mode::Base, &(1, 1), &buf, &Vec::new());
    let expected = format!(
        "{}{}abc{}{}de{}{}{}{}{}BASE MODE{}",
        goto(1, 2),
        CLEAR_LINE,
        goto(1, 3),
        CLEAR_LINE,
        goto(1, 4),
        CLEAR_LINE,
        goto(2, 3),
        goto(1, 1),
        CLEAR_LINE,
        goto(2, 3)
    );
    assert_eq!(text(&out), expected);
}

#[test]
fn render_scrolls_vertically_and_blanks_short_lines() {
    let mut v = View::new((3, 3));
    let buf = rows(&["a", "b", "cdefg", "h"]);
    let out = v.render(Mode::Command, &(4, 2), &buf, &chars("w x"));
    let expected = format!(
        "{}{}{}{}efg{}{}{}{}COMMAND MODE:w x",
        goto(1, 2),
        CLEAR_LINE,
        goto(1, 3),
        CLEAR_LINE,
        goto(3, 3),
        goto(1, 1),
        CLEAR_LINE,
        ""
    );
    assert_eq!(text(&out), expected);
    assert_eq!(v.cursor, (3, 3));
}

#[test]
fn init_clears_then_draws() {
    let mut e = Editor::new(None, None, (5, 2));
    let out = e.init();
    let expected = format!(
        "\x1b[2J{}{}{}{}{}BASE MODE{}",
        goto(1, 2),
        CLEAR_LINE,
        goto(1, 2),
        goto(1, 1),
        CLEAR_LINE,
        goto(1, 2)
    );
    assert_eq!(text(&out), expected);
}

#[test]
fn editor_render_follows_scroll() {
    let mut e = Editor::new(None, Some(rows(&["one", "two", "three"])), (20, 3));
    press(&mut e, &[Key::Down, Key::Down]);
    assert_eq!(e.view.cursor, (1, 3));
    let out = e.render();
    let expected = format!(
        "{}{}two{}{}three{}{}{}BASE MODE{}",
        goto(1, 2),
        CLEAR_LINE,
        goto(1, 3),
        CLEAR_LINE,
        goto(1, 3),
        goto(1, 1),
        CLEAR_LINE,
        goto(1, 3)
    );
    assert_eq!(text(&out), expected);
}

#[test]
fn curmov_is_plain_data() {
    let m = CurMov::Goto(1, 2);
    assert_eq!(m, CurMov::Goto(1, 2));
    assert_ne!(m, CurMov::Up);
}
