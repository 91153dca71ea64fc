//! The terminal control sequences that a frame is made of. Each is produced
//! by crossterm's command for it; their text is stated here so that the
//! content of a frame can be stated exactly.

use crossterm::Command;
use vstd::prelude::*;

verus! {

/// A control sequence: the escape character and `[`, then `tail`.
pub open spec fn csi(tail: Seq<char>) -> Seq<char> {
    seq!['\u{1b}', '['] + tail
}

/// Hides the terminal cursor.
pub open spec fn hide_seq() -> Seq<char> {
    csi(seq!['?', '2', '5', 'l'])
}

/// Shows the terminal cursor.
pub open spec fn show_seq() -> Seq<char> {
    csi(seq!['?', '2', '5', 'h'])
}

/// Clears from the terminal cursor to the end of its line.
pub open spec fn clear_line_seq() -> Seq<char> {
    csi(seq!['K'])
}

/// The digit for `d < 10`.
pub open spec fn digit(d: nat) -> char {
    seq!['0', '1', '2', '3', '4', '5', '6', '7', '8', '9'][d as int]
}

/// `n` in decimal, without leading zeros.
pub open spec fn decimal(n: nat) -> Seq<char>
    decreases n,
{
    if n < 10 {
        seq![digit(n)]
    } else {
        decimal(n / 10).push(digit(n % 10))
    }
}

/// Moves the terminal cursor to column `column` and row `row`, both counted
/// from zero; the sequence itself counts from one, row first.
pub open spec fn move_to_seq(column: nat, row: nat) -> Seq<char> {
    csi(decimal(row + 1) + seq![';'] + decimal(column + 1) + seq!['H'])
}

/// Relies on crossterm's `cursor::Hide`: its ANSI form is `ESC [ ? 2 5 l`,
/// written into a `String`, which takes any text.
#[verifier::external_body]
pub(crate) fn hide_cursor() -> (r: String)
    ensures
        r@ == hide_seq(),
{
    let mut s = String::new();
    let _ = crossterm::cursor::Hide.write_ansi(&mut s);
    s
}

/// Relies on crossterm's `cursor::Show`: its ANSI form is `ESC [ ? 2 5 h`.
#[verifier::external_body]
pub(crate) fn show_cursor() -> (r: String)
    ensures
        r@ == show_seq(),
{
    let mut s = String::new();
    let _ = crossterm::cursor::Show.write_ansi(&mut s);
    s
}

/// Relies on crossterm's `terminal::Clear` with `ClearType::UntilNewLine`:
/// its ANSI form is `ESC [ K`.
#[verifier::external_body]
pub(crate) fn clear_line() -> (r: String)
    ensures
        r@ == clear_line_seq(),
{
    let mut s = String::new();
    let _ = crossterm::terminal::Clear(crossterm::terminal::ClearType::UntilNewLine).write_ansi(
        &mut s,
    );
    s
}

/// Relies on crossterm's `cursor::MoveTo(column, row)`: its ANSI form is
/// `ESC [`, then `row + 1` and `column + 1` in decimal, separated by `;`,
/// then `H`. It adds one to each in `u16`, hence the bounds.
#[verifier::external_body]
pub(crate) fn move_to(column: u16, row: u16) -> (r: String)
    requires
        column < u16::MAX,
        row < u16::MAX,
    ensures
        r@ == move_to_seq(column as nat, row as nat),
{
    let mut s = String::new();
    let _ = crossterm::cursor::MoveTo(column, row).write_ansi(&mut s);
    s
}

} // verus!
