use vstd::prelude::*;

use crate::command::command_action;
use crate::mode::{ActionModel, CurMov, Key, Mode};

verus! {

/// The text buffer together with the focus (column, row) into it.
pub struct TextState {
    pub lines: Seq<Seq<char>>,
    pub col: nat,
    pub row: nat,
}

/// The buffer is non-empty and the focus lies inside it; the column may sit
/// just past the end of its line.
pub open spec fn valid(t: TextState) -> bool {
    &&& t.lines.len() >= 1
    &&& t.row < t.lines.len()
    &&& t.col <= t.lines[t.row as int].len()
}

/// `col` clamped to the length of line `row`.
pub open spec fn clamp_col(lines: Seq<Seq<char>>, col: nat, row: nat) -> nat {
    if col >= lines[row as int].len() {
        lines[row as int].len()
    } else {
        col
    }
}

/// The focus after a movement request.
///
/// Vertical moves stay inside the buffer and clamp the column to the new
/// line; horizontal moves stay inside the line and never wrap.
pub open spec fn moved(t: TextState, dir: CurMov) -> TextState {
    match dir {
        CurMov::Up => if t.row > 0 {
            TextState { col: clamp_col(t.lines, t.col, (t.row - 1) as nat), row: (t.row - 1) as nat, ..t }
        } else {
            t
        },
        CurMov::Down => if t.row + 1 < t.lines.len() {
            TextState { col: clamp_col(t.lines, t.col, t.row + 1), row: t.row + 1, ..t }
        } else {
            t
        },
        CurMov::Left => if t.col > 0 {
            TextState { col: (t.col - 1) as nat, ..t }
        } else {
            t
        },
        CurMov::Right => if t.col < t.lines[t.row as int].len() {
            TextState { col: t.col + 1, ..t }
        } else {
            t
        },
        CurMov::Goto(x, y) => TextState { col: x as nat, row: y as nat, ..t },
    }
}

/// A `Goto` request must name a valid focus.
pub open spec fn move_ok(t: TextState, dir: CurMov) -> bool {
    match dir {
        CurMov::Goto(x, y) => y < t.lines.len() && x <= t.lines[y as int].len(),
        _ => true,
    }
}

/// Typing `c` at the focus: the line grows by it and the focus moves past it.
pub open spec fn inserted(t: TextState, c: char) -> TextState {
    TextState {
        lines: t.lines.update(t.row as int, t.lines[t.row as int].insert(t.col as int, c)),
        col: t.col + 1,
        row: t.row,
    }
}

/// Enter at the focus: the line is split there and the focus goes to the
/// start of the new line below.
pub open spec fn split(t: TextState) -> TextState {
    let line = t.lines[t.row as int];
    TextState {
        lines: t.lines.update(t.row as int, line.take(t.col as int)).insert(
            t.row + 1int,
            line.skip(t.col as int),
        ),
        col: 0,
        row: t.row + 1,
    }
}

/// Backspace at the focus: remove the character to the left, or at the start
/// of a line join it onto the previous one; nothing at the very start.
pub open spec fn backspaced(t: TextState) -> TextState {
    if t.col > 0 {
        TextState {
            lines: t.lines.update(t.row as int, t.lines[t.row as int].remove(t.col - 1)),
            col: (t.col - 1) as nat,
            row: t.row,
        }
    } else if t.row > 0 {
        let prev = t.lines[t.row - 1];
        TextState {
            lines: t.lines.update(t.row - 1, prev + t.lines[t.row as int]).remove(t.row as int),
            col: prev.len(),
            row: (t.row - 1) as nat,
        }
    } else {
        t
    }
}

/// The whole state that key events act on.
pub struct EditorModel {
    pub mode: Mode,
    pub text: TextState,
    pub cmd: Seq<char>,
}

/// The movement an arrow key asks for.
pub open spec fn arrow(key: Key) -> Option<CurMov> {
    match key {
        Key::Up => Some(CurMov::Up),
        Key::Down => Some(CurMov::Down),
        Key::Left => Some(CurMov::Left),
        Key::Right => Some(CurMov::Right),
        _ => None,
    }
}

/// Handling of `key` in base mode.
pub open spec fn base_step(s: EditorModel, key: Key) -> EditorModel {
    match key {
        Key::Char('i') => EditorModel { mode: Mode::Insert, ..s },
        Key::Char(':') => EditorModel { mode: Mode::Command, ..s },
        _ => match arrow(key) {
            Some(dir) => EditorModel { text: moved(s.text, dir), ..s },
            None => s,
        },
    }
}

/// Handling of `key` in insert mode.
pub open spec fn insert_step(s: EditorModel, key: Key) -> EditorModel {
    match key {
        Key::Esc => EditorModel { mode: Mode::Base, ..s },
        Key::Backspace | Key::Delete => EditorModel { text: backspaced(s.text), ..s },
        Key::Char(c) => if c == '\n' {
            EditorModel { text: split(s.text), ..s }
        } else {
            EditorModel { text: inserted(s.text, c), ..s }
        },
        _ => match arrow(key) {
            Some(dir) => EditorModel { text: moved(s.text, dir), ..s },
            None => s,
        },
    }
}

/// Handling of `key` in command mode, with the action it asks for.
pub open spec fn command_step(s: EditorModel, key: Key, name: Option<Seq<char>>) -> (
    EditorModel,
    ActionModel,
) {
    match key {
        Key::Char(c) => if c == '\n' {
            (
                EditorModel { mode: Mode::Base, cmd: Seq::empty(), ..s },
                command_action(s.cmd, name),
            )
        } else {
            (EditorModel { cmd: s.cmd.push(c), ..s }, ActionModel::Continue)
        },
        Key::Backspace | Key::Delete => (
            EditorModel {
                cmd: if s.cmd.len() > 0 { s.cmd.drop_last() } else { s.cmd },
                ..s
            },
            ActionModel::Continue,
        ),
        Key::Esc => (EditorModel { mode: Mode::Base, cmd: Seq::empty(), ..s }, ActionModel::Continue),
        _ => (s, ActionModel::Continue),
    }
}

/// The state machine: the next state and the action for `key`, for an editor
/// opened on `name`.
pub open spec fn step(s: EditorModel, key: Key, name: Option<Seq<char>>) -> (
    EditorModel,
    ActionModel,
) {
    match s.mode {
        Mode::Base => (base_step(s, key), ActionModel::Continue),
        Mode::Insert => (insert_step(s, key), ActionModel::Continue),
        Mode::Command => command_step(s, key, name),
    }
}

} // verus!
