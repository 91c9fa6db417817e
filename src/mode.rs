use vstd::prelude::*;

verus! {

/// The editor's interaction mode; exactly one is active at a time.
#[derive(Debug, Clone, Copy, PartialEq, Eq, Structural)]
pub enum Mode {
    /// Text mutation and navigation.
    Insert,
    /// Navigation only.
    Base,
    /// Command-line entry.
    Command,
}

/// A request to move the focus.
#[derive(Debug, Clone, Copy, PartialEq, Eq, Structural)]
pub enum CurMov {
    Up,
    Down,
    Left,
    Right,
    /// Place the focus at (column, row).
    Goto(usize, usize),
}

/// A decoded key event, as far as the editor distinguishes keys.
#[derive(Debug, Clone, Copy, PartialEq, Eq, Structural)]
pub enum Key {
    /// A typed character; Enter arrives as `'\n'`.
    Char(char),
    Esc,
    Up,
    Down,
    Left,
    Right,
    Backspace,
    Delete,
    /// Any key the editor ignores.
    Other,
}

/// What the surrounding program must do after a key was handled.
#[derive(Debug, PartialEq, Eq)]
pub enum Action {
    /// Nothing beyond redrawing.
    Continue,
    /// Clear the terminal and end the session.
    Quit,
    /// Write the buffer to the named file.
    Write(Vec<char>),
}

/// The mathematical value of an [`Action`].
pub enum ActionModel {
    Continue,
    Quit,
    Write(Seq<char>),
}

impl View for Action {
    type V = ActionModel;

    open spec fn view(&self) -> ActionModel {
        match self {
            Action::Continue => ActionModel::Continue,
            Action::Quit => ActionModel::Quit,
            Action::Write(p) => ActionModel::Write(p@),
        }
    }
}

} // verus!
