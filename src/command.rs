use vstd::prelude::*;

use crate::mode::{Action, ActionModel};
use crate::row::{push_range, rows_view, Row};

verus! {

/// Index of the first space in `s`, or its length if there is none.
pub open spec fn space_at(s: Seq<char>) -> nat
    decreases s.len(),
{
    if s.len() == 0 || s[0] == ' ' {
        0
    } else {
        1 + space_at(s.drop_first())
    }
}

/// The first space-separated token of `s`.
pub open spec fn first_token(s: Seq<char>) -> Seq<char> {
    s.take(space_at(s) as int)
}

/// What remains of `s` after its first token, if a space follows it.
pub open spec fn after_first(s: Seq<char>) -> Option<Seq<char>> {
    if space_at(s) < s.len() {
        Some(s.skip(space_at(s) + 1int))
    } else {
        None
    }
}

/// What the command line `cmd` asks for, for an editor opened on `name`.
///
/// `q` quits; `w` writes to its argument, or else to `name`, and does nothing
/// when there is neither; any other first token does nothing.
pub open spec fn command_action(cmd: Seq<char>, name: Option<Seq<char>>) -> ActionModel {
    let head = first_token(cmd);
    if head == seq!['q'] {
        ActionModel::Quit
    } else if head == seq!['w'] {
        match after_first(cmd) {
            Some(rest) => ActionModel::Write(first_token(rest)),
            None => match name {
                Some(n) => ActionModel::Write(n),
                None => ActionModel::Continue,
            },
        }
    } else {
        ActionModel::Continue
    }
}

/// The mathematical value of an optional file name.
pub open spec fn name_view(name: Option<Vec<char>>) -> Option<Seq<char>> {
    match name {
        Some(n) => Some(n@),
        None => None,
    }
}

/// The text written to a file for `lines`: each line followed by a newline.
pub open spec fn file_text(lines: Seq<Seq<char>>) -> Seq<char>
    decreases lines.len(),
{
    if lines.len() == 0 {
        Seq::empty()
    } else {
        file_text(lines.drop_last()) + lines.last() + seq!['\n']
    }
}

proof fn lemma_space_at(s: Seq<char>, i: int)
    requires
        0 <= i <= s.len(),
        forall|j: int| 0 <= j < i ==> s[j] != ' ',
        i == s.len() || s[i] == ' ',
    ensures
        space_at(s) == i,
    decreases i,
{
    if i > 0 {
        let t = s.drop_first();
        assert forall|j: int| 0 <= j < i - 1 implies t[j] != ' ' by {
            assert(t[j] == s[j + 1]);
        }
        lemma_space_at(t, i - 1);
    }
}

/// End of the token of `s` that starts at `from`.
fn token_end(s: &Vec<char>, from: usize) -> (r: usize)
    requires
        from <= s@.len(),
    ensures
        r == from + space_at(s@.skip(from as int)),
        r <= s@.len(),
{
    let mut i: usize = from;
    while i < s.len() && s[i] != ' '
        invariant
            from <= i <= s@.len(),
            forall|j: int| from <= j < i ==> s@[j] != ' ',
        decreases s@.len() - i,
    {
        i = i + 1;
    }
    proof {
        let t = s@.skip(from as int);
        assert forall|j: int| 0 <= j < i - from implies t[j] != ' ' by {
            assert(t[j] == s@[from + j]);
        }
        lemma_space_at(t, i - from);
    }
    i
}

/// A copy of `s`.
fn copy_chars(s: &Vec<char>) -> (r: Vec<char>)
    ensures
        r@ == s@,
{
    let mut out: Vec<char> = Vec::new();
    push_range(s, 0, s.len(), &mut out);
    assert(s@.subrange(0, s@.len() as int) =~= s@);
    out
}

/// Interprets a finished command line for an editor opened on `name`.
pub fn parse_command(cmd: &Vec<char>, name: &Option<Vec<char>>) -> (r: Action)
    ensures
        r@ == command_action(cmd@, name_view(*name)),
{
    let ghost c = cmd@;
    let end = token_end(cmd, 0);
    assert(c.skip(0) =~= c);
    assert(first_token(c) =~= c.subrange(0, end as int));
    if end == 1 && cmd[0] == 'q' {
        assert(first_token(c) =~= seq!['q']);
        Action::Quit
    } else if end == 1 && cmd[0] == 'w' {
        assert(first_token(c) =~= seq!['w']);
        if end < cmd.len() {
            let stop = token_end(cmd, end + 1);
            let mut file: Vec<char> = Vec::new();
            push_range(cmd, end + 1, stop, &mut file);
            assert(file@ =~= first_token(c.skip(end + 1)));
            Action::Write(file)
        } else {
            match name {
                Some(n) => Action::Write(copy_chars(n)),
                None => Action::Continue,
            }
        }
    } else {
        assert(first_token(c).len() != 1 || (first_token(c)[0] != 'q' && first_token(c)[0] != 'w'));
        assert(first_token(c) != seq!['q']);
        assert(first_token(c) != seq!['w']);
        Action::Continue
    }
}

/// The text that saving `buffer` writes: every line followed by a newline,
/// in buffer order.
pub fn file_contents(buffer: &Vec<Row>) -> (r: Vec<char>)
    ensures
        r@ == file_text(rows_view(buffer@)),
{
    let ghost lines = rows_view(buffer@);
    let mut out: Vec<char> = Vec::new();
    let mut i: usize = 0;
    while i < buffer.len()
        invariant
            i <= buffer@.len(),
            lines == rows_view(buffer@),
            out@ == file_text(lines.take(i as int)),
        decreases buffer@.len() - i,
    {
        let row = &buffer[i];
        push_range(&row.text, 0, row.len(), &mut out);
        out.push('\n');
        assert(lines.take(i + 1).drop_last() =~= lines.take(i as int));
        assert(row.text@.subrange(0, row.text@.len() as int) =~= lines[i as int]);
        i = i + 1;
    }
    assert(lines.take(buffer@.len() as int) =~= lines);
    out
}

} // verus!
