//! What one frame on the terminal consists of.
//!
//! A frame is the text that redraws the whole window: the visible part of the
//! rows, the status bar, the message bar, and the cursor put where it
//! belongs. The functions here say, over plain sequences of characters, what
//! that text is.

use vstd::prelude::*;

use crate::cursor_controller::{least, Viewport};
use crate::decimal::decimal;
use crate::tabs::{expand_tabs, spaces};
use crate::terminal::{
    clear_line_sequence, hide_sequence, move_to_sequence, reset_sequence, reverse_sequence,
    show_sequence,
};

verus! {

/// The text of the banner.
pub open spec fn welcome_text() -> Seq<char> {
    "z-editor --- version: "@ + crate::VERSION@
}

/// The end of a line on a terminal in raw mode.
pub open spec fn line_break() -> Seq<char> {
    "\r\n"@
}

/// The first `columns` characters of `text`, or all of it if it is shorter.
pub open spec fn cut(text: Seq<char>, columns: nat) -> Seq<char> {
    text.take(least(text.len(), columns) as int)
}

/// The banner in a window of `columns` columns: the welcome text, cut to the
/// window and centred, with a tilde in the first column where there is room
/// for a margin.
pub open spec fn banner(columns: nat) -> Seq<char> {
    let text = cut(welcome_text(), columns);
    let padding = (columns - text.len()) / 2;
    if padding != 0 {
        seq!['~'] + spaces((padding - 1) as nat) + text
    } else {
        text
    }
}

/// The part of the rendered row `rendered` that a window of `columns` columns
/// shows when its first column is `offset`.
pub open spec fn visible_text(rendered: Seq<char>, offset: nat, columns: nat) -> Seq<char> {
    rendered.subrange(
        least(offset, rendered.len()) as int,
        least(offset + columns, rendered.len()) as int,
    )
}

/// Line `i` of the text area: the visible part of the row shown there, or a
/// tilde below the last row, then the sequence that clears the rest of the
/// line, then a line break.
pub open spec fn text_line(rows: Seq<Seq<char>>, v: Viewport, columns: nat, i: nat) -> Seq<char> {
    let row = v.rows_offset + i;
    let shown = if row >= rows.len() {
        seq!['~']
    } else {
        visible_text(expand_tabs(rows[row as int]), v.columns_offset, columns)
    };
    shown + clear_line_sequence() + line_break()
}

/// The first `count` lines of the text area.
pub open spec fn text_area(rows: Seq<Seq<char>>, v: Viewport, columns: nat, count: nat) -> Seq<
    char,
>
    decreases count,
{
    if count == 0 {
        Seq::empty()
    } else {
        text_area(rows, v, columns, (count - 1) as nat) + text_line(
            rows,
            v,
            columns,
            (count - 1) as nat,
        )
    }
}

/// What the status bar says on its left: the name and the number of rows.
pub open spec fn file_info(name: Seq<char>, rows: nat) -> Seq<char> {
    name + " -- "@ + decimal(rows) + " lines"@
}

/// What the status bar says on its right: the cursor's row, counted from 1,
/// and the number of rows.
pub open spec fn line_info(row: nat, rows: nat) -> Seq<char> {
    decimal(row + 1) + "/"@ + decimal(rows)
}

/// The status bar in a window of `columns` columns, in reverse video: the
/// file information cut to the window, then spaces up to the line
/// information, which stands at the right edge. Where the line information
/// does not fit into what is left, spaces take its place.
pub open spec fn status_bar(name: Seq<char>, rows: nat, row: nat, columns: nat) -> Seq<char> {
    let left = cut(file_info(name, rows), columns);
    let right = line_info(row, rows);
    let room = (columns - left.len()) as nat;
    let filled = if right.len() <= room {
        spaces((room - right.len()) as nat) + right
    } else {
        spaces(room)
    };
    reverse_sequence() + left + filled + reset_sequence() + line_break()
}

/// The message bar in a window of `columns` columns: the line cleared, then
/// the message cut to the window.
pub open spec fn message_bar(message: Seq<char>, columns: nat) -> Seq<char> {
    clear_line_sequence() + cut(message, columns)
}

/// The cell of the window in which a cursor at `position` stands when the
/// window starts at `offset`. A cursor before the window counts as being at
/// its start; the result stays below the largest `u16`.
pub open spec fn cursor_cell(position: nat, offset: nat) -> u16 {
    let distance = if position >= offset {
        (position - offset) as nat
    } else {
        0
    };
    if distance < u16::MAX {
        distance as u16
    } else {
        (u16::MAX - 1) as u16
    }
}

/// The sequences that put the cursor into its cell and show it.
pub open spec fn cursor_placement(v: Viewport) -> Seq<char> {
    move_to_sequence(
        cursor_cell(v.render.column, v.columns_offset),
        cursor_cell(v.render.row, v.rows_offset),
    ) + show_sequence()
}

/// A whole frame for a window of `columns` columns with `lines` lines of
/// text: the cursor hidden and sent to the top left corner, the text area,
/// the status bar, the message bar, and the cursor shown in its cell.
pub open spec fn frame(
    rows: Seq<Seq<char>>,
    v: Viewport,
    columns: nat,
    lines: nat,
    name: Seq<char>,
    message: Seq<char>,
) -> Seq<char> {
    hide_sequence() + move_to_sequence(0, 0) + text_area(rows, v, columns, lines) + status_bar(
        name,
        rows.len(),
        v.render.row,
        columns,
    ) + message_bar(message, columns) + cursor_placement(v)
}

} // verus!
