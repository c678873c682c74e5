//! The terminal control sequences the renderer emits, each stated as the
//! exact character sequence it stands for, with trusted wrappers around the
//! `termion` items that produce them.

use vstd::prelude::*;

verus! {

/// The escape character that introduces every control sequence.
pub open spec fn esc_char() -> char {
    '\u{1b}'
}

/// The character for one decimal digit.
pub open spec fn digit_char(d: nat) -> char {
    if d == 0 {
        '0'
    } else if d == 1 {
        '1'
    } else if d == 2 {
        '2'
    } else if d == 3 {
        '3'
    } else if d == 4 {
        '4'
    } else if d == 5 {
        '5'
    } else if d == 6 {
        '6'
    } else if d == 7 {
        '7'
    } else if d == 8 {
        '8'
    } else {
        '9'
    }
}

/// The decimal digits of `n`, most significant first, without leading zeros.
pub open spec fn dec_digits(n: nat) -> Seq<char>
    decreases n,
{
    if n < 10 {
        seq![digit_char(n)]
    } else {
        dec_digits(n / 10).push(digit_char(n % 10))
    }
}

/// Clear the entire screen.
pub open spec fn clear_all_seq() -> Seq<char> {
    seq![esc_char(), '[', '2', 'J']
}

/// Move the cursor to column `x`, row `y` (both one-based); the row comes
/// first in the sequence.
pub open spec fn goto_seq(x: u16, y: u16) -> Seq<char> {
    seq![esc_char(), '['] + dec_digits(y as nat) + seq![';'] + dec_digits(x as nat) + seq!['H']
}

/// Bold text.
pub open spec fn bold_seq() -> Seq<char> {
    seq![esc_char(), '[', '1', 'm']
}

/// Reset all text attributes and colors.
pub open spec fn reset_seq() -> Seq<char> {
    seq![esc_char(), '[', 'm']
}

/// Black foreground.
pub open spec fn fg_black_seq() -> Seq<char> {
    seq![esc_char(), '[', '3', '8', ';', '5', ';', '0', 'm']
}

/// White background.
pub open spec fn bg_white_seq() -> Seq<char> {
    seq![esc_char(), '[', '4', '8', ';', '5', ';', '7', 'm']
}

/// Relies on `termion::clear::All`: its string form is the clear-screen
/// sequence `ESC [ 2 J`.
#[verifier::external_body]
pub(crate) fn clear_all_str() -> (r: &'static str)
    ensures
        r@ == clear_all_seq(),
{
    AsRef::<str>::as_ref(&termion::clear::All)
}

/// Relies on `termion::cursor::Goto`: its string form is `ESC [ row ; col H`
/// with both coordinates in decimal. `Goto` is one-based, so zero coordinates
/// are left out.
#[verifier::external_body]
pub(crate) fn goto_str(x: u16, y: u16) -> (r: String)
    requires
        x >= 1,
        y >= 1,
    ensures
        r@ == goto_seq(x, y),
{
    format!("{}", termion::cursor::Goto(x, y))
}

/// Relies on `termion::style::Bold`: its string form is `ESC [ 1 m`.
#[verifier::external_body]
pub(crate) fn bold_str() -> (r: &'static str)
    ensures
        r@ == bold_seq(),
{
    AsRef::<str>::as_ref(&termion::style::Bold)
}

/// Relies on `termion::style::Reset`: its string form is `ESC [ m`.
#[verifier::external_body]
pub(crate) fn reset_str() -> (r: &'static str)
    ensures
        r@ == reset_seq(),
{
    AsRef::<str>::as_ref(&termion::style::Reset)
}

/// Relies on `termion::color::Black::fg_str`: the foreground selector
/// `ESC [ 38 ; 5 ; 0 m`, independent of the environment.
#[verifier::external_body]
pub(crate) fn fg_black_str() -> (r: &'static str)
    ensures
        r@ == fg_black_seq(),
{
    termion::color::Black.fg_str()
}

/// Relies on `termion::color::White::bg_str`: the background selector
/// `ESC [ 48 ; 5 ; 7 m`, independent of the environment.
#[verifier::external_body]
pub(crate) fn bg_white_str() -> (r: &'static str)
    ensures
        r@ == bg_white_seq(),
{
    termion::color::White.bg_str()
}

} // verus!
