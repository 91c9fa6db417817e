use vstd::prelude::*;

verus! {

/// The decimal digit character for `d < 10`.
pub open spec fn digit_char(d: nat) -> char {
    seq!['0', '1', '2', '3', '4', '5', '6', '7', '8', '9'][d as int]
}

/// The decimal notation of `n`, without leading zeros.
pub open spec fn decimal(n: nat) -> Seq<char>
    decreases n,
{
    if n < 10 {
        seq![digit_char(n)]
    } else {
        decimal(n / 10).push(digit_char(n % 10))
    }
}

/// The control sequence introducer, ESC `[`.
pub open spec fn csi() -> Seq<char> {
    seq!['\x1b', '[']
}

/// The sequence that moves the terminal cursor to 1-based column `x`, row `y`.
pub open spec fn goto_code(x: nat, y: nat) -> Seq<char> {
    csi() + decimal(y) + seq![';'] + decimal(x) + seq!['H']
}

/// The sequence that clears the line under the terminal cursor.
pub open spec fn clear_line_code() -> Seq<char> {
    csi() + seq!['2', 'K']
}

/// The sequence that clears the whole screen.
pub open spec fn clear_all_code() -> Seq<char> {
    csi() + seq!['2', 'J']
}

/// Relies on the `Display` impl of `termion::cursor::Goto`, which writes
/// `ESC [ {row} ; {column} H` with both numbers in decimal.
#[verifier::external_body]
pub(crate) fn goto_seq(x: u16, y: u16) -> (r: Vec<char>)
    requires
        x >= 1,
        y >= 1,
    ensures
        r@ == goto_code(x as nat, y as nat),
{
    format!("{}", termion::cursor::Goto(x, y)).chars().collect()
}

/// Relies on the `Display` impl of `termion::clear::CurrentLine`, which
/// writes `ESC [ 2 K`.
#[verifier::external_body]
pub(crate) fn clear_line_seq() -> (r: Vec<char>)
    ensures
        r@ == clear_line_code(),
{
    format!("{}", termion::clear::CurrentLine).chars().collect()
}

/// Relies on the `Display` impl of `termion::clear::All`, which writes
/// `ESC [ 2 J`.
#[verifier::external_body]
pub(crate) fn clear_all_seq() -> (r: Vec<char>)
    ensures
        r@ == clear_all_code(),
{
    format!("{}", termion::clear::All).chars().collect()
}

} // verus!
