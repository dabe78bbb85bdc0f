//! What holds of rows, cursor moves and scrolling, whatever the buffer.

use vstd::prelude::*;
use vstd::utf8::{
    encode_utf8, encode_utf8_decode_utf8, is_ascii_chars, is_ascii_chars_encode_utf8,
    is_char_boundary_iff_is_leading_byte, is_char_boundary_start_end_of_seq,
    is_leading_byte_width_1,
};

use crate::coords::{
    chars_before, is_raw_column, lemma_floor_boundary, lemma_next_boundary, lemma_next_then_prev,
    lemma_prev_then_next, lemma_raw_len_concat, lemma_raw_len_spaces, lemma_render_column_bound,
    raw_len, render_column,
};
use crate::cursor_controller::{row_text, scrolled_offset, Direction, Viewport};
use crate::frame::cursor_cell;
use crate::tabs::{expand_tabs, lemma_render_width_bound, render_width, spaces, tab_fill};

verus! {

broadcast use vstd::utf8::encode_utf8_valid_utf8;

/// Whether `text` holds no tab.
pub open spec fn tab_free(text: Seq<char>) -> bool {
    forall|i: int| 0 <= i < text.len() ==> text[i] != '\t'
}

/// A row without tabs is rendered as it is, so its rendered form has the
/// length of its text, in characters and in bytes.
pub proof fn law_tab_free_row_is_unchanged(text: Seq<char>)
    requires
        tab_free(text),
    ensures
        expand_tabs(text) == text,
        render_width(text) == text.len(),
        raw_len(expand_tabs(text)) == raw_len(text),
    decreases text.len(),
{
    if text.len() > 0 {
        law_tab_free_row_is_unchanged(text.drop_last());
        assert(text.drop_last().push(text.last()) == text);
    }
}

/// In a row of single-byte characters without tabs the two coordinate spaces
/// coincide: the rendered width is the length in bytes, every offset up to
/// the length is a raw column, and its rendered column is the same number.
pub proof fn law_plain_row_columns_coincide(text: Seq<char>, column: int)
    requires
        tab_free(text),
        is_ascii_chars(text),
        0 <= column <= raw_len(text),
    ensures
        render_width(text) == raw_len(text),
        is_raw_column(text, column),
        render_column(text, column) == column,
{
    let bytes = encode_utf8(text);
    is_ascii_chars_encode_utf8(text);
    law_tab_free_row_is_unchanged(text);
    if column < bytes.len() {
        assert(is_leading_byte_width_1(bytes[column])) by {
            assert(text[column] as u8 == bytes[column]);
        }
        is_char_boundary_iff_is_leading_byte(bytes, column);
    } else {
        is_char_boundary_start_end_of_seq(bytes);
    }
    let head = text.take(column);
    is_ascii_chars_encode_utf8(head);
    assert(encode_utf8(head) == bytes.subrange(0, column));
    encode_utf8_decode_utf8(head);
    assert(chars_before(text, column) == head);
    law_tab_free_row_is_unchanged(head);
}

/// A rendered row is never shorter than its text: not in characters, not in
/// bytes, and, where every character is a single byte, not in columns
/// against bytes.
pub proof fn law_rendered_row_is_not_shorter(text: Seq<char>)
    ensures
        render_width(text) >= text.len(),
        raw_len(expand_tabs(text)) >= raw_len(text),
        is_ascii_chars(text) ==> render_width(text) >= raw_len(text),
    decreases text.len(),
{
    lemma_render_width_bound(text);
    if is_ascii_chars(text) {
        is_ascii_chars_encode_utf8(text);
    }
    if text.len() > 0 {
        let init = text.drop_last();
        let last = seq![text.last()];
        law_rendered_row_is_not_shorter(init);
        assert(init + last == text);
        lemma_raw_len_concat(init, last);
        assert(raw_len(last) >= 1) by {
            reveal_with_fuel(encode_utf8, 2);
        }
        if text.last() == '\t' {
            let fill = tab_fill(expand_tabs(init).len());
            lemma_raw_len_concat(expand_tabs(init), spaces(fill));
            lemma_raw_len_spaces(fill);
            assert(raw_len(last) == 1) by {
                is_ascii_chars_encode_utf8(last);
            }
        } else {
            assert(expand_tabs(init).push(text.last()) == expand_tabs(init) + last);
            lemma_raw_len_concat(expand_tabs(init), last);
        }
    }
}

/// The origin is a valid cursor of every buffer, the empty one too.
pub proof fn law_origin_is_valid(rows: Seq<Seq<char>>)
    ensures
        Viewport::origin().wf(rows),
{
}

/// A valid cursor is left as it is by the clamp.
pub proof fn lemma_clamp_keeps_valid(v: Viewport, rows: Seq<Seq<char>>)
    requires
        v.wf(rows),
    ensures
        v.clamped(rows) == v,
{
    let bytes = encode_utf8(row_text(rows, v.raw.row));
    lemma_floor_boundary(bytes, v.raw.column as int);
}

/// The clamp makes a cursor with valid rows a valid cursor.
pub proof fn lemma_clamp_makes_valid(v: Viewport, rows: Seq<Seq<char>>)
    requires
        v.rows_valid(rows),
    ensures
        v.clamped(rows).wf(rows),
{
    let text = row_text(rows, v.raw.row);
    let bytes = encode_utf8(text);
    let column = if v.raw.column <= raw_len(text) { v.raw.column } else { raw_len(text) };
    lemma_floor_boundary(bytes, column as int);
}

/// A move to the left or to the right keeps a valid cursor valid.
pub proof fn lemma_sideways_keeps_valid(v: Viewport, rows: Seq<Seq<char>>)
    requires
        v.wf(rows),
    ensures
        v.left(rows).wf(rows),
        v.right(rows).wf(rows),
{
    let bytes = encode_utf8(row_text(rows, v.raw.row));
    is_char_boundary_start_end_of_seq(bytes);
    if v.raw.column > 0 {
        lemma_floor_boundary(bytes, v.raw.column - 1);
    }
    if v.raw.column < bytes.len() {
        lemma_next_boundary(bytes, v.raw.column as int);
    }
    if v.render.row > 0 {
        let above = encode_utf8(row_text(rows, (v.render.row - 1) as nat));
        is_char_boundary_start_end_of_seq(above);
    }
    let below = encode_utf8(row_text(rows, v.render.row + 1));
    is_char_boundary_start_end_of_seq(below);
}

/// Every move keeps a valid cursor valid: the row is a row of the buffer or
/// the position after the last one, and each column lies within that row in
/// its own coordinate space.
pub proof fn law_move_keeps_cursor_valid(
    v: Viewport,
    direction: Direction,
    rows: Seq<Seq<char>>,
    lines: nat,
)
    requires
        v.wf(rows),
    ensures
        v.moved(direction, rows, lines).wf(rows),
{
    lemma_sideways_keeps_valid(v, rows);
    lemma_clamp_makes_valid(v.step(direction, rows, lines), rows);
}

/// Scrolling keeps a valid cursor valid, and leaves the raw position and the
/// row as they are.
pub proof fn law_scroll_keeps_cursor_valid(
    v: Viewport,
    rows: Seq<Seq<char>>,
    columns: nat,
    lines: nat,
)
    requires
        v.wf(rows),
    ensures
        v.scrolled(rows, columns, lines).wf(rows),
        v.scrolled(rows, columns, lines).raw == v.raw,
        v.scrolled(rows, columns, lines).render.row == v.render.row,
{
    if v.render.row < rows.len() {
        lemma_render_column_bound(rows[v.render.row as int], v.raw.column as int);
    }
}

/// Left, then right, from a cursor that is not at the start of its row in
/// either coordinate space, leads back to where it was.
pub proof fn law_left_then_right_returns(v: Viewport, rows: Seq<Seq<char>>, lines: nat)
    requires
        v.wf(rows),
        v.render.column > 0,
        v.raw.column > 0,
    ensures
        v.left(rows).right(rows) == v,
        v.moved(Direction::Left, rows, lines).moved(Direction::Right, rows, lines) == v,
{
    let bytes = encode_utf8(row_text(rows, v.raw.row));
    lemma_floor_boundary(bytes, v.raw.column - 1);
    lemma_prev_then_next(bytes, v.raw.column as int);
    lemma_sideways_keeps_valid(v, rows);
    lemma_clamp_keeps_valid(v.left(rows), rows);
    lemma_clamp_keeps_valid(v, rows);
}

/// Right, then left, from a cursor that is not at the end of its row in
/// either coordinate space, leads back to where it was.
pub proof fn law_right_then_left_returns(v: Viewport, rows: Seq<Seq<char>>, lines: nat)
    requires
        v.wf(rows),
        v.render.column < render_width(row_text(rows, v.render.row)),
        v.raw.column < raw_len(row_text(rows, v.raw.row)),
    ensures
        v.right(rows).left(rows) == v,
        v.moved(Direction::Right, rows, lines).moved(Direction::Left, rows, lines) == v,
{
    let bytes = encode_utf8(row_text(rows, v.raw.row));
    lemma_next_boundary(bytes, v.raw.column as int);
    lemma_next_then_prev(bytes, v.raw.column as int);
    lemma_sideways_keeps_valid(v, rows);
    lemma_clamp_keeps_valid(v.right(rows), rows);
    lemma_clamp_keeps_valid(v, rows);
}

/// Across a row boundary the two moves undo each other as well: left from
/// the start of a row and right again, or right from the end of a row and
/// left again, leads back, as long as there is a row to go to.
pub proof fn law_wrapping_moves_return(v: Viewport, rows: Seq<Seq<char>>)
    requires
        v.wf(rows),
    ensures
        v.render.column == 0 && v.raw.column == 0 && v.render.row > 0 ==> v.left(rows).right(rows)
            == v,
        v.render.row < rows.len() && v.render.column == render_width(row_text(rows, v.render.row))
            && v.raw.column == raw_len(row_text(rows, v.raw.row)) ==> v.right(rows).left(rows)
            == v,
{
}

/// After scrolling in a window that shows at least one cell each way, the
/// cursor is inside the window.
pub proof fn law_scroll_shows_cursor(v: Viewport, rows: Seq<Seq<char>>, columns: nat, lines: nat)
    requires
        columns > 0,
        lines > 0,
    ensures
        v.scrolled(rows, columns, lines).cursor_visible(columns, lines),
{
}

/// Scrolling moves an offset no further than needed: any offset whose window
/// shows the cursor is at least as far from the old offset as the new one.
pub proof fn law_scroll_moves_least(offset: nat, position: nat, extent: nat, other: nat)
    requires
        other <= position < other + extent,
    ensures
        scrolled_offset(offset, position, extent) <= position < scrolled_offset(
            offset,
            position,
            extent,
        ) + extent,
        if offset <= other {
            offset <= scrolled_offset(offset, position, extent) <= other
        } else {
            other <= scrolled_offset(offset, position, extent) <= offset
        },
{
}

/// Once the window has been brought to a valid cursor, scrolling again
/// changes nothing.
pub proof fn law_scroll_twice_is_scroll_once(
    v: Viewport,
    rows: Seq<Seq<char>>,
    columns: nat,
    lines: nat,
)
    requires
        v.wf(rows),
        columns > 0,
        lines > 0,
    ensures
        v.scrolled(rows, columns, lines).scrolled(rows, columns, lines) == v.scrolled(
            rows,
            columns,
            lines,
        ),
{
}

/// A cursor inside a window that a terminal can have is drawn in the cell
/// that is its distance from the offsets: nothing is cut off.
pub proof fn law_visible_cursor_keeps_its_cell(v: Viewport, columns: nat, lines: nat)
    requires
        v.cursor_visible(columns, lines),
        columns <= u16::MAX,
        lines <= u16::MAX,
    ensures
        cursor_cell(v.render.column, v.columns_offset) == v.render.column - v.columns_offset,
        cursor_cell(v.render.row, v.rows_offset) == v.render.row - v.rows_offset,
        cursor_cell(v.render.column, v.columns_offset) < columns,
        cursor_cell(v.render.row, v.rows_offset) < lines,
{
}

/// Home puts the rendered column at 0; End after it puts the rendered column
/// at the rendered width of the row, and the raw column at its length.
pub proof fn law_home_then_end(v: Viewport, rows: Seq<Seq<char>>, lines: nat)
    requires
        v.wf(rows),
    ensures
        v.moved(Direction::Home, rows, lines).render.column == 0,
        v.moved(Direction::Home, rows, lines).raw.column == 0,
        v.moved(Direction::Home, rows, lines).moved(Direction::End, rows, lines).render.column
            == render_width(row_text(rows, v.render.row)),
        v.moved(Direction::Home, rows, lines).moved(Direction::End, rows, lines).raw.column
            == raw_len(row_text(rows, v.raw.row)),
{
    let text = row_text(rows, v.raw.row);
    is_char_boundary_start_end_of_seq(encode_utf8(text));
    assert(v.home().wf(rows));
    lemma_clamp_keeps_valid(v.home(), rows);
    assert(v.home().end(rows).wf(rows));
    lemma_clamp_keeps_valid(v.home().end(rows), rows);
}

} // verus!
