use vstd::prelude::*;

use crate::mode::{CurMov, Key, Mode};
use crate::model::{backspaced, inserted, moved, split, step, valid, EditorModel, TextState};
use crate::view::visible;

verus! {

/// Every key event keeps the focus inside the buffer: its row indexes a line
/// and its column is at most that line's length.
pub proof fn lemma_step_keeps_focus_valid(s: EditorModel, key: Key, name: Option<Seq<char>>)
    requires
        valid(s.text),
    ensures
        valid(step(s, key, name).0.text),
{
    let t = s.text;
    let row = t.row as int;
    let line = t.lines[row];
    if s.mode == Mode::Insert {
        match key {
            Key::Char(c) => {
                if c == '\n' {
                    let u = split(t);
                    assert(u.lines[u.row as int] == line.skip(t.col as int));
                } else {
                    let u = inserted(t, c);
                    assert(u.lines[row] == line.insert(t.col as int, c));
                }
            },
            Key::Backspace | Key::Delete => {
                let u = backspaced(t);
                if t.col == 0 && t.row > 0 {
                    assert(u.lines[u.row as int] == t.lines[row - 1] + line);
                }
            },
            _ => {},
        }
    }
}

/// Typing a character other than Enter and then Backspace in insert mode
/// restores the line content and the focus.
pub proof fn lemma_insert_then_backspace(s: EditorModel, c: char, name: Option<Seq<char>>)
    requires
        s.mode == Mode::Insert,
        valid(s.text),
        c != '\n',
    ensures
        step(step(s, Key::Char(c), name).0, Key::Backspace, name).0 == s,
{
    let t = s.text;
    let u = inserted(t, c);
    let line = t.lines[t.row as int];
    assert(line.insert(t.col as int, c).remove(t.col as int) =~= line);
    assert(backspaced(u).lines =~= t.lines);
}

/// Enter at any column of a line, then Backspace at the start of the new line,
/// restores the original line and the focus.
pub proof fn lemma_split_then_join(s: EditorModel, name: Option<Seq<char>>)
    requires
        s.mode == Mode::Insert,
        valid(s.text),
    ensures
        step(step(s, Key::Char('\n'), name).0, Key::Backspace, name).0 == s,
{
    let t = s.text;
    let u = split(t);
    let line = t.lines[t.row as int];
    assert(u.lines[t.row as int] == line.take(t.col as int));
    assert(u.lines[t.row + 1int] == line.skip(t.col as int));
    assert(line.take(t.col as int) + line.skip(t.col as int) =~= line);
    assert(backspaced(u).lines =~= t.lines);
}

/// Moving up or down never leaves the focus column past the end of the line
/// moved to; a column past a shorter line lands at its end.
pub proof fn lemma_vertical_move_clamps(t: TextState)
    requires
        valid(t),
    ensures
        valid(moved(t, CurMov::Up)),
        valid(moved(t, CurMov::Down)),
        t.row > 0 && t.col > t.lines[t.row - 1].len() ==> moved(t, CurMov::Up).col == t.lines[t.row
            - 1].len(),
        t.row + 1 < t.lines.len() && t.col > t.lines[t.row + 1int].len() ==> moved(t, CurMov::Down).col
            == t.lines[t.row + 1int].len(),
{
}

/// With the focus just past the end of a line, the part of the line shown on
/// a viewport `w` columns wide is at most `w` characters taken from its tail.
pub proof fn lemma_end_of_line_window(w: int, line: Seq<char>)
    requires
        w >= 1,
    ensures
        visible(w, line.len() as int, line).len() <= w,
        visible(w, line.len() as int, line) == line.skip(
            line.len() - visible(w, line.len() as int, line).len(),
        ),
{
    let v = visible(w, line.len() as int, line);
    assert(v =~= line.skip(line.len() - v.len()));
}

} // verus!
