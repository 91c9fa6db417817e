use vstd::prelude::*;

use crate::escape::{clear_all_code, clear_line_code, goto_code, clear_all_seq, clear_line_seq, goto_seq};
use crate::mode::Mode;
use crate::row::{push_range, rows_view, Row};
use vstd::view::View as _;

verus! {

/// Screen column (1-based) of the cursor for focus column `col` on a
/// viewport `w` columns wide: it advances with the focus up to the right edge.
pub open spec fn screen_x(w: int, col: int) -> int {
    if col + 1 < w { col + 1 } else { w }
}

/// Screen row (1-based) of the cursor for focus row `row` on a viewport `h`
/// rows high; row 1 holds the status line.
pub open spec fn screen_y(h: int, row: int) -> int {
    if row + 2 < h { row + 2 } else { h }
}

/// The part of `line` shown on a viewport `w` columns wide when the focus is
/// in column `col`.
///
/// Left-anchored while the cursor has not reached the right edge; otherwise
/// the window `[col + 1 - w, min(col + 1, len))`, or nothing where the line
/// ends before that window begins.
pub open spec fn visible(w: int, col: int, line: Seq<char>) -> Seq<char> {
    if col + 1 < w {
        line.take(if line.len() < w { line.len() as int } else { w })
    } else if line.len() + w <= col {
        Seq::empty()
    } else {
        line.subrange(col + 1 - w, if col + 1 < line.len() { col + 1 } else { line.len() as int })
    }
}

/// Index of the first buffer line shown: 0 while the buffer fits, else the
/// window that keeps the focused row as the last text row.
pub open spec fn first_shown(h: int, row: int) -> int {
    if row + 2 < h { 0 } else { row + 2 - h }
}

/// How many buffer lines are shown.
pub open spec fn shown_count(h: int, row: int, n: int) -> int {
    if row + 2 < h {
        if n < h - 1 { n } else { h - 1 }
    } else {
        h - 1
    }
}

/// What text row `k` (0-based, at screen row `k + 2`) shows.
pub open spec fn row_content(
    size: (usize, usize),
    focus: (usize, usize),
    lines: Seq<Seq<char>>,
    k: int,
) -> Seq<char> {
    if k < shown_count(size.1 as int, focus.1 as int, lines.len() as int) {
        visible(
            size.0 as int,
            focus.0 as int,
            lines[first_shown(size.1 as int, focus.1 as int) + k],
        )
    } else {
        Seq::empty()
    }
}

/// Output that redraws screen row `y` with `content`.
pub open spec fn paint_row(y: int, content: Seq<char>) -> Seq<char> {
    goto_code(1, y as nat) + clear_line_code() + content
}

/// Output that redraws the first `k` text rows.
pub open spec fn text_rows(
    size: (usize, usize),
    focus: (usize, usize),
    lines: Seq<Seq<char>>,
    k: nat,
) -> Seq<char>
    decreases k,
{
    if k == 0 {
        Seq::empty()
    } else {
        text_rows(size, focus, lines, (k - 1) as nat) + paint_row(
            k + 1 as int,
            row_content(size, focus, lines, k - 1 as int),
        )
    }
}

/// Output of the text pass: every text row, then the cursor placed at the
/// focus.
pub open spec fn text_pass(
    size: (usize, usize),
    focus: (usize, usize),
    lines: Seq<Seq<char>>,
) -> Seq<char> {
    text_rows(size, focus, lines, (size.1 - 1) as nat) + goto_code(
        screen_x(size.0 as int, focus.0 as int) as nat,
        screen_y(size.1 as int, focus.1 as int) as nat,
    )
}

pub open spec fn insert_label() -> Seq<char> {
    seq!['I', 'N', 'S', 'E', 'R', 'T', ' ', 'M', 'O', 'D', 'E']
}

pub open spec fn base_label() -> Seq<char> {
    seq!['B', 'A', 'S', 'E', ' ', 'M', 'O', 'D', 'E']
}

pub open spec fn command_label() -> Seq<char> {
    seq!['C', 'O', 'M', 'M', 'A', 'N', 'D', ' ', 'M', 'O', 'D', 'E', ':']
}

/// Output of the status-line pass: the mode label on row 1, then the cursor
/// back at the focus, except in command mode where it stays after the typed
/// command.
pub open spec fn status_pass(mode: Mode, cmd: Seq<char>, x: int, y: int) -> Seq<char> {
    let head = goto_code(1, 1) + clear_line_code();
    match mode {
        Mode::Insert => head + insert_label() + goto_code(x as nat, y as nat),
        Mode::Base => head + base_label() + goto_code(x as nat, y as nat),
        Mode::Command => head + command_label() + cmd,
    }
}

/// The whole output of one render call.
pub open spec fn frame(
    size: (usize, usize),
    mode: Mode,
    focus: (usize, usize),
    lines: Seq<Seq<char>>,
    cmd: Seq<char>,
) -> Seq<char> {
    text_pass(size, focus, lines) + status_pass(
        mode,
        cmd,
        screen_x(size.0 as int, focus.0 as int),
        screen_y(size.1 as int, focus.1 as int),
    )
}

/// Maps the logical focus onto a fixed-size character grid.
///
/// `size` is (width, height) in characters; `cursor` is the 1-based screen
/// position of the terminal cursor, derived from the focus.
#[derive(Debug, Clone, Copy)]
pub struct View {
    pub size: (usize, usize),
    pub cursor: (usize, usize),
}

impl View {
    /// The viewport fits terminal coordinates, leaves room for the status line
    /// and at least one text row, and holds the cursor inside the text region.
    pub open spec fn wf(&self) -> bool {
        &&& 1 <= self.size.0 <= u16::MAX
        &&& 2 <= self.size.1 <= u16::MAX
        &&& 1 <= self.cursor.0 <= self.size.0
        &&& 2 <= self.cursor.1 <= self.size.1
    }

    /// The cursor sits where `focus` maps to.
    pub open spec fn tracks(&self, focus: (usize, usize)) -> bool {
        &&& self.cursor.0 == screen_x(self.size.0 as int, focus.0 as int)
        &&& self.cursor.1 == screen_y(self.size.1 as int, focus.1 as int)
    }

    /// A viewport of `size` (width, height) with the cursor at the top left
    /// of the text region.
    pub fn new(size: (usize, usize)) -> (r: View)
        requires
            1 <= size.0 <= u16::MAX,
            2 <= size.1 <= u16::MAX,
        ensures
            r.wf(),
            r.size == size,
            r.cursor == (1usize, 2usize),
            r.tracks((0, 0)),
    {
        View { size, cursor: (1, 2) }
    }

    /// Recomputes the screen cursor from `focus`.
    pub fn focus_to_cursor(&mut self, focus: (usize, usize))
        requires
            old(self).wf(),
        ensures
            final(self).wf(),
            final(self).size == old(self).size,
            final(self).tracks(focus),
    {
        if focus.1 >= self.size.1 - 1 {
            self.cursor.1 = self.size.1;
        } else {
            self.cursor.1 = focus.1 + 2;
        }
        if focus.0 >= self.size.0 {
            self.cursor.0 = self.size.0;
        } else {
            self.cursor.0 = focus.0 + 1;
        }
    }

    /// Output that redraws screen row `y` with the part of `line` that the
    /// focus makes visible.
    fn render_line(&self, focus: &(usize, usize), line: &Row, y: usize) -> (r: Vec<char>)
        requires
            self.wf(),
            self.tracks(*focus),
            2 <= y <= self.size.1,
        ensures
            r@ == paint_row(y as int, visible(self.size.0 as int, focus.0 as int, line@)),
    {
        let w = self.size.0;
        let col = focus.0;
        let len = line.len();
        let mut out = goto_seq(1, y as u16);
        let mut clear = clear_line_seq();
        out.append(&mut clear);
        if self.cursor.0 != w {
            let r: usize = if len < w { len } else { w };
            push_range(&line.text, 0, r, &mut out);
        } else if col >= w && len <= col - w {
            // the line ends before the scrolled window begins
        } else {
            let x0: usize = col - (w - 1);
            let x1: usize = if col < len { col + 1 } else { len };
            push_range(&line.text, x0, x1, &mut out);
        }
        out
    }

    /// Output that redraws every text row, then places the cursor at the
    /// focus.
    fn render_text(&self, focus: &(usize, usize), buffer: &Vec<Row>) -> (r: Vec<char>)
        requires
            self.wf(),
            self.tracks(*focus),
            focus.1 < buffer@.len(),
        ensures
            r@ == text_pass(self.size, *focus, rows_view(buffer@)),
    {
        let ghost lines = rows_view(buffer@);
        let h = self.size.1;
        let (start, count): (usize, usize) = if self.cursor.1 != h {
            (0, if buffer.len() < h - 1 { buffer.len() } else { h - 1 })
        } else {
            (focus.1 - (h - 2), h - 1)
        };
        assert(start == first_shown(h as int, focus.1 as int));
        assert(count == shown_count(h as int, focus.1 as int, lines.len() as int));
        let mut out: Vec<char> = Vec::new();
        let mut k: usize = 0;
        while k < h - 1
            invariant
                self.wf(),
                self.tracks(*focus),
                focus.1 < buffer@.len(),
                lines == rows_view(buffer@),
                h == self.size.1,
                start == first_shown(h as int, focus.1 as int),
                count == shown_count(h as int, focus.1 as int, lines.len() as int),
                start + count <= buffer@.len(),
                k <= h - 1,
                out@ == text_rows(self.size, *focus, lines, k as nat),
            decreases h - 1 - k,
        {
            let y = k + 2;
            let mut painted = if k < count {
                self.render_line(focus, &buffer[start + k], y)
            } else {
                let mut p = goto_seq(1, y as u16);
                let mut clear = clear_line_seq();
                p.append(&mut clear);
                assert(p@ =~= paint_row(y as int, Seq::empty()));
                p
            };
            out.append(&mut painted);
            k = k + 1;
        }
        let mut place = goto_seq(self.cursor.0 as u16, self.cursor.1 as u16);
        out.append(&mut place);
        out
    }

    /// Output that shows the command line on the status row.
    fn render_command(&self, cmd_buffer: &Vec<char>) -> (r: Vec<char>)
        ensures
            r@ == goto_code(1, 1) + clear_line_code() + command_label() + cmd_buffer@,
    {
        let mut out = goto_seq(1, 1);
        let mut clear = clear_line_seq();
        out.append(&mut clear);
        let mut label = vec!['C', 'O', 'M', 'M', 'A', 'N', 'D', ' ', 'M', 'O', 'D', 'E', ':'];
        assert(label@ =~= command_label());
        out.append(&mut label);
        push_range(cmd_buffer, 0, cmd_buffer.len(), &mut out);
        assert(cmd_buffer@.subrange(0, cmd_buffer@.len() as int) =~= cmd_buffer@);
        out
    }

    /// Output that redraws the text region and the status line for the given
    /// state; the screen cursor is first recomputed from `focus`.
    pub fn render(
        &mut self,
        mode: Mode,
        focus: &(usize, usize),
        txt_buffer: &Vec<Row>,
        cmd_buffer: &Vec<char>,
    ) -> (r: Vec<char>)
        requires
            old(self).wf(),
            focus.1 < txt_buffer@.len(),
        ensures
            final(self).wf(),
            final(self).size == old(self).size,
            final(self).tracks(*focus),
            r@ == frame(old(self).size, mode, *focus, rows_view(txt_buffer@), cmd_buffer@),
    {
        self.focus_to_cursor(*focus);
        let mut out = self.render_text(focus, txt_buffer);
        let x = self.cursor.0 as u16;
        let y = self.cursor.1 as u16;
        let mut status = match mode {
            Mode::Insert => {
                let mut head = goto_seq(1, 1);
                let mut clear = clear_line_seq();
                head.append(&mut clear);
                let mut label = vec!['I', 'N', 'S', 'E', 'R', 'T', ' ', 'M', 'O', 'D', 'E'];
                assert(label@ =~= insert_label());
                head.append(&mut label);
                let mut place = goto_seq(x, y);
                head.append(&mut place);
                head
            },
            Mode::Base => {
                let mut head = goto_seq(1, 1);
                let mut clear = clear_line_seq();
                head.append(&mut clear);
                let mut label = vec!['B', 'A', 'S', 'E', ' ', 'M', 'O', 'D', 'E'];
                assert(label@ =~= base_label());
                head.append(&mut label);
                let mut place = goto_seq(x, y);
                head.append(&mut place);
                head
            },
            Mode::Command => self.render_command(cmd_buffer),
        };
        assert(status@ =~= status_pass(mode, cmd_buffer@, x as int, y as int));
        out.append(&mut status);
        out
    }

    /// Output that clears the whole screen.
    pub fn clear(&self) -> (r: Vec<char>)
        ensures
            r@ == clear_all_code(),
    {
        clear_all_seq()
    }
}

} // verus!
