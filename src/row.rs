use vstd::prelude::*;

verus! {

/// One line of text.
///
/// Its length is always read from the content itself, so it cannot go stale.
#[derive(Debug, Clone)]
pub struct Row {
    pub text: Vec<char>,
}

impl View for Row {
    type V = Seq<char>;

    open spec fn view(&self) -> Seq<char> {
        self.text@
    }
}

impl Row {
    /// An empty line.
    pub fn new() -> (r: Row)
        ensures
            r@ == Seq::<char>::empty(),
    {
        Row { text: Vec::new() }
    }

    /// A line holding the given characters.
    pub fn from_chars(text: Vec<char>) -> (r: Row)
        ensures
            r@ == text@,
    {
        Row { text }
    }

    /// Number of characters in the line.
    pub fn len(&self) -> (r: usize)
        ensures
            r == self@.len(),
    {
        self.text.len()
    }
}

/// The text of each row of a buffer, in order.
pub open spec fn rows_view(b: Seq<Row>) -> Seq<Seq<char>> {
    b.map_values(|r: Row| r@)
}

/// Appends `src[lo..hi]` to `out`.
pub(crate) fn push_range(src: &Vec<char>, lo: usize, hi: usize, out: &mut Vec<char>)
    requires
        lo <= hi <= src@.len(),
    ensures
        final(out)@ == old(out)@ + src@.subrange(lo as int, hi as int),
{
    let mut i: usize = lo;
    while i < hi
        invariant
            lo <= i <= hi <= src@.len(),
            out@ == old(out)@ + src@.subrange(lo as int, i as int),
        decreases hi - i,
    {
        out.push(src[i]);
        assert(src@.subrange(lo as int, i + 1) =~= src@.subrange(lo as int, i as int).push(src@[i as int]));
        i = i + 1;
    }
}

} // verus!
