use vstd::prelude::*;

use crate::command::{file_contents, file_text, name_view, parse_command};
use crate::escape::clear_all_code;
use crate::mode::{Action, CurMov, Key, Mode};
use crate::model::{
    backspaced, inserted, move_ok, moved, split, step, valid, EditorModel, TextState,
};
use crate::row::{rows_view, Row};
use crate::view::{frame, View};
use vstd::view::View as _;

verus! {

/// The editor: the text buffer, the focus into it, the viewport, the mode
/// and the pending command line.
pub struct Editor {
    pub mode: Mode,
    pub buffer: Vec<Row>,
    pub cmd: Vec<char>,
    /// (column, row), both 0-based.
    pub focus: (usize, usize),
    /// The file the editor was opened on, if any.
    pub name: Option<Vec<char>>,
    pub view: View,
}

impl Editor {
    /// The buffer and the focus.
    pub open spec fn text(&self) -> TextState {
        TextState { lines: rows_view(self.buffer@), col: self.focus.0 as nat, row: self.focus.1 as nat }
    }

    /// The state that key events act on.
    pub open spec fn model(&self) -> EditorModel {
        EditorModel { mode: self.mode, text: self.text(), cmd: self.cmd@ }
    }

    /// Everything but the focus is well formed: a non-empty buffer, a valid
    /// viewport, and a command line that is empty outside command mode.
    pub open spec fn wf_frame(&self) -> bool {
        &&& self.buffer@.len() >= 1
        &&& self.view.wf()
        &&& self.mode != Mode::Command ==> self.cmd@.len() == 0
    }

    /// The editor's invariant: the focus is valid for the current buffer and
    /// the screen cursor is derived from it.
    pub open spec fn wf(&self) -> bool {
        &&& self.wf_frame()
        &&& valid(self.text())
        &&& self.view.tracks(self.focus)
    }

    /// An editor on `lines` (the content of the file `name`), for a terminal
    /// of `size` (width, height). Without lines, or with none at all, the
    /// buffer holds one empty line.
    pub fn new(name: Option<Vec<char>>, lines: Option<Vec<Row>>, size: (usize, usize)) -> (r: Editor)
        requires
            1 <= size.0 <= u16::MAX,
            2 <= size.1 <= u16::MAX,
        ensures
            r.wf(),
            r.mode == Mode::Base,
            r.focus == (0usize, 0usize),
            r.cmd@.len() == 0,
            r.name == name,
            r.view.size == size,
            (lines.is_some() && lines.unwrap()@.len() > 0) ==> rows_view(r.buffer@) == rows_view(
                lines.unwrap()@,
            ),
            !(lines.is_some() && lines.unwrap()@.len() > 0) ==> rows_view(r.buffer@) == seq![
                Seq::<char>::empty(),
            ],
    {
        let buffer = match lines {
            Some(v) if v.len() > 0 => v,
            _ => {
                let mut v: Vec<Row> = Vec::new();
                v.push(Row::new());
                assert(rows_view(v@) =~= seq![Seq::<char>::empty()]);
                v
            },
        };
        Editor {
            mode: Mode::Base,
            buffer,
            cmd: Vec::new(),
            focus: (0, 0),
            name,
            view: View::new(size),
        }
    }

    /// Output that clears the screen and draws the editor.
    pub fn init(&mut self) -> (r: Vec<char>)
        requires
            old(self).wf(),
        ensures
            *final(self) == *old(self),
            r@ == clear_all_code() + frame(
                old(self).view.size,
                old(self).mode,
                old(self).focus,
                rows_view(old(self).buffer@),
                old(self).cmd@,
            ),
    {
        let mut out = self.view.clear();
        let mut screen = self.render();
        out.append(&mut screen);
        out
    }

    /// Output that redraws the editor for its current state.
    pub fn render(&mut self) -> (r: Vec<char>)
        requires
            old(self).wf(),
        ensures
            *final(self) == *old(self),
            r@ == frame(
                old(self).view.size,
                old(self).mode,
                old(self).focus,
                rows_view(old(self).buffer@),
                old(self).cmd@,
            ),
    {
        self.view.render(self.mode, &self.focus, &self.buffer, &self.cmd)
    }

    /// The text that saving the buffer writes.
    pub fn contents(&self) -> (r: Vec<char>)
        ensures
            r@ == file_text(rows_view(self.buffer@)),
    {
        file_contents(&self.buffer)
    }

    /// Moves the focus and recomputes the screen cursor.
    fn update_focus(&mut self, dir: CurMov)
        requires
            old(self).wf_frame(),
            match dir {
                CurMov::Goto(_, _) => move_ok(old(self).text(), dir),
                _ => valid(old(self).text()),
            },
        ensures
            final(self).wf(),
            final(self).text() == moved(old(self).text(), dir),
            final(self).mode == old(self).mode,
            final(self).cmd == old(self).cmd,
            final(self).name == old(self).name,
            final(self).view.size == old(self).view.size,
    {
        match dir {
            CurMov::Up => {
                if self.focus.1 > 0 {
                    self.focus.1 = self.focus.1 - 1;
                    let len = self.buffer[self.focus.1].len();
                    if self.focus.0 >= len {
                        self.focus.0 = len;
                    }
                }
            },
            CurMov::Down => {
                if self.focus.1 < self.buffer.len() - 1 {
                    self.focus.1 = self.focus.1 + 1;
                    let len = self.buffer[self.focus.1].len();
                    if self.focus.0 >= len {
                        self.focus.0 = len;
                    }
                }
            },
            CurMov::Left => {
                if self.focus.0 > 0 {
                    self.focus.0 = self.focus.0 - 1;
                }
            },
            CurMov::Right => {
                if self.focus.0 < self.buffer[self.focus.1].len() {
                    self.focus.0 = self.focus.0 + 1;
                }
            },
            CurMov::Goto(x, y) => {
                self.focus = (x, y);
            },
        }
        self.view.focus_to_cursor(self.focus);
    }

    /// Handles one key event and says what the surrounding program must do.
    pub fn key_handle(&mut self, key: &Key) -> (r: Action)
        requires
            old(self).wf(),
        ensures
            final(self).wf(),
            (final(self).model(), r@) == step(old(self).model(), *key, name_view(old(self).name)),
            final(self).name == old(self).name,
            final(self).view.size == old(self).view.size,
    {
        match self.mode {
            Mode::Base => {
                self.base_mode(key);
                Action::Continue
            },
            Mode::Insert => {
                self.insert_mode(key);
                Action::Continue
            },
            Mode::Command => self.command_mode(key),
        }
    }

    fn base_mode(&mut self, key: &Key)
        requires
            old(self).wf(),
            old(self).mode == Mode::Base,
        ensures
            final(self).wf(),
            final(self).model() == step(old(self).model(), *key, name_view(old(self).name)).0,
            final(self).name == old(self).name,
            final(self).view.size == old(self).view.size,
    {
        match key {
            Key::Char('i') => self.mode = Mode::Insert,
            Key::Char(':') => self.mode = Mode::Command,
            Key::Up => self.update_focus(CurMov::Up),
            Key::Down => self.update_focus(CurMov::Down),
            Key::Left => self.update_focus(CurMov::Left),
            Key::Right => self.update_focus(CurMov::Right),
            _ => {},
        }
    }

    fn insert_mode(&mut self, key: &Key)
        requires
            old(self).wf(),
            old(self).mode == Mode::Insert,
        ensures
            final(self).wf(),
            final(self).model() == step(old(self).model(), *key, name_view(old(self).name)).0,
            final(self).name == old(self).name,
            final(self).view.size == old(self).view.size,
    {
        match key {
            Key::Esc => self.mode = Mode::Base,
            Key::Up => self.update_focus(CurMov::Up),
            Key::Down => self.update_focus(CurMov::Down),
            Key::Left => self.update_focus(CurMov::Left),
            Key::Right => self.update_focus(CurMov::Right),
            Key::Delete | Key::Backspace => self.backspace(),
            Key::Char('\n') => self.newline(),
            Key::Char(c) => self.insert_char(*c),
            _ => {},
        }
    }

    /// Inserts `c` at the focus and moves the focus past it.
    fn insert_char(&mut self, c: char)
        requires
            old(self).wf(),
        ensures
            final(self).wf(),
            final(self).text() == inserted(old(self).text(), c),
            final(self).mode == old(self).mode,
            final(self).cmd == old(self).cmd,
            final(self).name == old(self).name,
            final(self).view.size == old(self).view.size,
    {
        let ghost t = self.text();
        let (col, row) = self.focus;
        self.buffer[row].text.insert(col, c);
        assert(rows_view(self.buffer@) =~= inserted(t, c).lines);
        self.update_focus(CurMov::Right);
    }

    /// Splits the focused line at the focus; the focus goes to the start of
    /// the new line.
    fn newline(&mut self)
        requires
            old(self).wf(),
        ensures
            final(self).wf(),
            final(self).text() == split(old(self).text()),
            final(self).mode == old(self).mode,
            final(self).cmd == old(self).cmd,
            final(self).name == old(self).name,
            final(self).view.size == old(self).view.size,
    {
        let ghost t = self.text();
        let (col, row) = self.focus;
        let n = self.buffer.len();
        let tail = self.buffer[row].text.split_off(col);
        self.buffer.insert(row + 1, Row { text: tail });
        assert(rows_view(self.buffer@) =~= split(t).lines);
        self.update_focus(CurMov::Goto(0, row + 1));
    }

    /// Removes the character left of the focus, or joins the focused line
    /// onto the previous one when the focus is at its start.
    fn backspace(&mut self)
        requires
            old(self).wf(),
        ensures
            final(self).wf(),
            final(self).text() == backspaced(old(self).text()),
            final(self).mode == old(self).mode,
            final(self).cmd == old(self).cmd,
            final(self).name == old(self).name,
            final(self).view.size == old(self).view.size,
    {
        let ghost t = self.text();
        let (col, row) = self.focus;
        if col > 0 {
            self.buffer[row].text.remove(col - 1);
            assert(rows_view(self.buffer@) =~= backspaced(t).lines);
            self.update_focus(CurMov::Goto(col - 1, row));
        } else if row > 0 {
            let mut cur = self.buffer.remove(row);
            let junction = self.buffer[row - 1].len();
            self.buffer[row - 1].text.append(&mut cur.text);
            assert(rows_view(self.buffer@) =~= backspaced(t).lines);
            self.update_focus(CurMov::Goto(junction, row - 1));
        }
    }

    fn command_mode(&mut self, key: &Key) -> (r: Action)
        requires
            old(self).wf(),
            old(self).mode == Mode::Command,
        ensures
            final(self).wf(),
            (final(self).model(), r@) == step(old(self).model(), *key, name_view(old(self).name)),
            final(self).name == old(self).name,
            final(self).view.size == old(self).view.size,
    {
        match key {
            Key::Char('\n') => {
                let action = parse_command(&self.cmd, &self.name);
                self.cmd.clear();
                self.mode = Mode::Base;
                action
            },
            Key::Char(c) => {
                self.cmd.push(*c);
                Action::Continue
            },
            Key::Backspace | Key::Delete => {
                self.cmd.pop();
                Action::Continue
            },
            Key::Esc => {
                self.cmd.clear();
                self.mode = Mode::Base;
                Action::Continue
            },
            _ => Action::Continue,
        }
    }
}

} // verus!
