//! The escape sequences that drive the terminal.
//!
//! They are written by `crossterm`; this module only says what is written.
//! Each contract here is believed, not proved.

use vstd::prelude::*;

use crossterm::Command;

use crate::decimal::decimal;

verus! {

/// The sequence that moves the cursor to column `column` of line `line`, both
/// counted from 0: the terminal counts from 1 and takes the line first.
pub open spec fn move_to_sequence(column: u16, line: u16) -> Seq<char> {
    "\x1b["@ + decimal((line + 1) as nat) + ";"@ + decimal((column + 1) as nat) + "H"@
}

/// The sequence that hides the cursor.
pub open spec fn hide_sequence() -> Seq<char> {
    "\x1b[?25l"@
}

/// The sequence that shows the cursor.
pub open spec fn show_sequence() -> Seq<char> {
    "\x1b[?25h"@
}

/// The sequence that clears the line from the cursor to its end.
pub open spec fn clear_line_sequence() -> Seq<char> {
    "\x1b[K"@
}

/// The sequence that swaps foreground and background for what follows.
pub open spec fn reverse_sequence() -> Seq<char> {
    "\x1b[7m"@
}

/// The sequence that puts all attributes back to normal.
pub open spec fn reset_sequence() -> Seq<char> {
    "\x1b[0m"@
}

/// `cursor::Hide` writes the sequence that hides the cursor.
#[verifier::external_body]
pub(crate) fn hide_cursor() -> (sequence: String)
    ensures
        sequence@ == hide_sequence(),
{
    let mut sequence = String::new();
    let _ = crossterm::cursor::Hide.write_ansi(&mut sequence);
    sequence
}

/// `cursor::Show` writes the sequence that shows the cursor.
#[verifier::external_body]
pub(crate) fn show_cursor() -> (sequence: String)
    ensures
        sequence@ == show_sequence(),
{
    let mut sequence = String::new();
    let _ = crossterm::cursor::Show.write_ansi(&mut sequence);
    sequence
}

/// `cursor::MoveTo` writes the line and the column, each one more than given
/// and in decimal, between the fixed parts of the sequence. It adds the 1 in
/// `u16`, so the largest `u16` is left out.
#[verifier::external_body]
pub(crate) fn move_to(column: u16, line: u16) -> (sequence: String)
    requires
        column < u16::MAX,
        line < u16::MAX,
    ensures
        sequence@ == move_to_sequence(column, line),
{
    let mut sequence = String::new();
    let _ = crossterm::cursor::MoveTo(column, line).write_ansi(&mut sequence);
    sequence
}

/// `terminal::Clear` with `ClearType::UntilNewLine` writes the sequence that
/// clears the rest of the line.
#[verifier::external_body]
pub(crate) fn clear_until_new_line() -> (sequence: String)
    ensures
        sequence@ == clear_line_sequence(),
{
    let mut sequence = String::new();
    let _ = crossterm::terminal::Clear(crossterm::terminal::ClearType::UntilNewLine)
        .write_ansi(&mut sequence);
    sequence
}

/// `style::SetAttribute` with `Attribute::Reverse` writes the sequence that
/// swaps foreground and background.
#[verifier::external_body]
pub(crate) fn reverse_video() -> (sequence: String)
    ensures
        sequence@ == reverse_sequence(),
{
    let mut sequence = String::new();
    let _ = crossterm::style::SetAttribute(crossterm::style::Attribute::Reverse)
        .write_ansi(&mut sequence);
    sequence
}

/// `style::SetAttribute` with `Attribute::Reset` writes the sequence that
/// puts all attributes back.
#[verifier::external_body]
pub(crate) fn reset_attributes() -> (sequence: String)
    ensures
        sequence@ == reset_sequence(),
{
    let mut sequence = String::new();
    let _ = crossterm::style::SetAttribute(crossterm::style::Attribute::Reset)
        .write_ansi(&mut sequence);
    sequence
}

} // verus!
