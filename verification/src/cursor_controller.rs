//! The cursor and the scroll offsets of a viewport.
//!
//! The controller keeps the cursor twice: as a raw position, whose column is a
//! byte offset into the row's text, and as a rendered position, whose column
//! is a screen cell after tab expansion. Its state is modelled by a
//! [`Viewport`]; every operation is specified as a function on that model.

use vstd::prelude::*;
use vstd::utf8::{
    encode_utf8, encode_utf8_decode_utf8, is_char_boundary, is_char_boundary_start_end_of_seq,
    valid_utf8,
};

use crate::coords::{
    chars_before, floor_boundary, is_raw_column, lemma_floor_boundary, lemma_next_boundary,
    lemma_render_column_bound, next_boundary, prev_boundary, raw_len, render_column,
};
use crate::decimal::{decimal, push_decimal};
use crate::tabs::{lemma_expand_tabs_step, lemma_render_width_prefix, render_width};
use crate::view::{EditRow, EditorView};
use crate::TAB_SIZE;

verus! {

broadcast use vstd::utf8::encode_utf8_valid_utf8;

/// A direction in which the cursor can be asked to move.
#[derive(Clone, Copy, Debug, PartialEq, Eq)]
pub enum Direction {
    Up,
    Down,
    Left,
    Right,
    Home,
    End,
    PageUp,
    PageDown,
}

/// Column and row of a cursor, as numbers without a machine limit.
pub struct Position {
    pub column: nat,
    pub row: nat,
}

/// The state of a cursor controller: the scroll offsets and the cursor in
/// both coordinate spaces.
pub struct Viewport {
    /// First visible row.
    pub rows_offset: nat,
    /// First visible rendered column.
    pub columns_offset: nat,
    /// The cursor in raw coordinates: the column is a byte offset.
    pub raw: Position,
    /// The cursor in rendered coordinates: the column is a screen cell.
    pub render: Position,
}

/// The text of row `row`, and the empty text for the position just after the
/// last row.
pub open spec fn row_text(rows: Seq<Seq<char>>, row: nat) -> Seq<char> {
    if row < rows.len() {
        rows[row as int]
    } else {
        Seq::empty()
    }
}

/// The smaller of two numbers.
pub open spec fn least(a: nat, b: nat) -> nat {
    if a <= b {
        a
    } else {
        b
    }
}

/// The scroll offset that follows `offset` when the cursor stands at
/// `position` and `extent` cells are visible: moved forward just far enough
/// when the cursor is beyond the window, moved back to the cursor when the
/// cursor is before it, otherwise unchanged.
pub open spec fn scrolled_offset(offset: nat, position: nat, extent: nat) -> nat {
    if position >= offset + extent {
        (position - extent + 1) as nat
    } else {
        least(offset, position)
    }
}

impl Viewport {
    /// The state of a new controller: everything at the origin.
    pub open spec fn origin() -> Viewport {
        Viewport {
            rows_offset: 0,
            columns_offset: 0,
            raw: Position { column: 0, row: 0 },
            render: Position { column: 0, row: 0 },
        }
    }

    /// Both positions are on the same row, which is a row of the buffer or
    /// the position just after the last one.
    pub open spec fn rows_valid(self, rows: Seq<Seq<char>>) -> bool {
        &&& self.raw.row == self.render.row
        &&& self.render.row <= rows.len()
    }

    /// The cursor is a position of the buffer: the rows are valid, the
    /// rendered column lies within the rendered row, and the raw column is a
    /// character boundary of the row's text.
    pub open spec fn wf(self, rows: Seq<Seq<char>>) -> bool {
        &&& self.rows_valid(rows)
        &&& self.render.column <= render_width(row_text(rows, self.render.row))
        &&& is_raw_column(row_text(rows, self.raw.row), self.raw.column as int)
    }

    /// With both positions on `row`.
    pub open spec fn on_row(self, row: nat) -> Viewport {
        Viewport {
            raw: Position { row, ..self.raw },
            render: Position { row, ..self.render },
            ..self
        }
    }

    /// With the rendered column `render` and the raw column `raw`.
    pub open spec fn at_columns(self, render: nat, raw: nat) -> Viewport {
        Viewport {
            raw: Position { column: raw, ..self.raw },
            render: Position { column: render, ..self.render },
            ..self
        }
    }

    /// One row up, staying on the first row.
    pub open spec fn up(self) -> Viewport {
        Viewport {
            raw: Position { row: if self.raw.row > 0 { (self.raw.row - 1) as nat } else { 0 }, ..self.raw },
            render: Position {
                row: if self.render.row > 0 { (self.render.row - 1) as nat } else { 0 },
                ..self.render
            },
            ..self
        }
    }

    /// One row down, at most to the position just after the last row.
    pub open spec fn down(self, rows: Seq<Seq<char>>) -> Viewport {
        if self.render.row < rows.len() {
            Viewport {
                raw: Position { row: self.raw.row + 1, ..self.raw },
                render: Position { row: self.render.row + 1, ..self.render },
                ..self
            }
        } else {
            self
        }
    }

    /// One character to the left. At the start of a row the cursor goes to the
    /// end of the row above; at the start of the buffer it stays.
    pub open spec fn left(self, rows: Seq<Seq<char>>) -> Viewport {
        if self.render.column > 0 {
            self.at_columns(
                (self.render.column - 1) as nat,
                prev_boundary(
                    encode_utf8(row_text(rows, self.raw.row)),
                    self.raw.column as int,
                ) as nat,
            )
        } else if self.render.row > 0 {
            let above = (self.render.row - 1) as nat;
            self.on_row(above).at_columns(
                render_width(row_text(rows, above)),
                raw_len(row_text(rows, above)),
            )
        } else {
            self
        }
    }

    /// One character to the right. At the end of a row the cursor goes to the
    /// start of the row below; after the last row it stays.
    pub open spec fn right(self, rows: Seq<Seq<char>>) -> Viewport {
        if self.render.row < rows.len() {
            if self.render.column < render_width(row_text(rows, self.render.row)) {
                self.at_columns(
                    self.render.column + 1,
                    next_boundary(
                        encode_utf8(row_text(rows, self.raw.row)),
                        self.raw.column as int,
                    ) as nat,
                )
            } else {
                self.on_row(self.render.row + 1).at_columns(0, 0)
            }
        } else {
            self
        }
    }

    /// To the start of the row.
    pub open spec fn home(self) -> Viewport {
        self.at_columns(0, 0)
    }

    /// To the end of the row.
    pub open spec fn end(self, rows: Seq<Seq<char>>) -> Viewport {
        self.at_columns(
            render_width(row_text(rows, self.render.row)),
            raw_len(row_text(rows, self.raw.row)),
        )
    }

    /// One page up: from the first visible row (or from the end of the buffer,
    /// if the offset lies beyond it), `lines` rows up.
    pub open spec fn page_up(self, rows: Seq<Seq<char>>, lines: nat) -> Viewport {
        let top = least(self.rows_offset, rows.len());
        self.on_row((top - least(top, lines)) as nat)
    }

    /// One page down: from the row `lines + 1` below the first visible row,
    /// `lines` rows down, and never beyond the position after the last row.
    pub open spec fn page_down(self, rows: Seq<Seq<char>>, lines: nat) -> Viewport {
        let bottom = least(self.rows_offset + lines + 1, rows.len());
        self.on_row(least(bottom + lines, rows.len()))
    }

    /// With the columns brought back into the row: the rendered column is cut
    /// to the rendered width, the raw column to the last character boundary
    /// that is within the text and not beyond the column.
    pub open spec fn clamped(self, rows: Seq<Seq<char>>) -> Viewport {
        let text = row_text(rows, self.raw.row);
        self.at_columns(
            least(self.render.column, render_width(row_text(rows, self.render.row))),
            floor_boundary(encode_utf8(text), least(self.raw.column, raw_len(text)) as int) as nat,
        )
    }

    /// The bare transition for `direction`, before the columns are clamped.
    pub open spec fn step(self, direction: Direction, rows: Seq<Seq<char>>, lines: nat) -> Viewport {
        match direction {
            Direction::Up => self.up(),
            Direction::Down => self.down(rows),
            Direction::Left => self.left(rows),
            Direction::Right => self.right(rows),
            Direction::Home => self.home(),
            Direction::End => self.end(rows),
            Direction::PageUp => self.page_up(rows, lines),
            Direction::PageDown => self.page_down(rows, lines),
        }
    }

    /// The state after a move in `direction`: the transition, then the clamp.
    pub open spec fn moved(self, direction: Direction, rows: Seq<Seq<char>>, lines: nat) -> Viewport {
        self.step(direction, rows, lines).clamped(rows)
    }

    /// The state after scrolling in a window of `columns` by `lines` cells:
    /// the rendered column is derived anew from the raw column, then each
    /// offset follows the cursor.
    pub open spec fn scrolled(self, rows: Seq<Seq<char>>, columns: nat, lines: nat) -> Viewport {
        let column = if self.render.row < rows.len() {
            render_column(rows[self.render.row as int], self.raw.column as int)
        } else {
            0
        };
        Viewport {
            rows_offset: scrolled_offset(self.rows_offset, self.render.row, lines),
            columns_offset: scrolled_offset(self.columns_offset, column, columns),
            raw: self.raw,
            render: Position { column, ..self.render },
        }
    }

    /// The cursor lies inside the window of `columns` by `lines` cells that
    /// starts at the offsets.
    pub open spec fn cursor_visible(self, columns: nat, lines: nat) -> bool {
        &&& self.rows_offset <= self.render.row < self.rows_offset + lines
        &&& self.columns_offset <= self.render.column < self.columns_offset + columns
    }
}

/// A cursor position: column first, row second.
#[derive(Debug)]
pub struct Cursor(usize, usize);

impl View for Cursor {
    type V = Position;

    closed spec fn view(&self) -> Position {
        Position { column: self.0 as nat, row: self.1 as nat }
    }
}

impl Cursor {
    /// The column.
    pub fn get_x(&self) -> (x: usize)
        ensures
            x == self@.column,
    {
        self.0
    }

    /// Sets the column.
    pub fn set_x(&mut self, new_x: usize)
        ensures
            final(self)@ == (Position { column: new_x as nat, row: old(self)@.row }),
    {
        self.0 = new_x;
    }

    /// The row.
    pub fn get_y(&self) -> (y: usize)
        ensures
            y == self@.row,
    {
        self.1
    }

    /// Sets the row.
    pub fn set_y(&mut self, new_y: usize)
        ensures
            final(self)@ == (Position { column: old(self)@.column, row: new_y as nat }),
    {
        self.1 = new_y;
    }

    /// The position as text: column and row in round brackets.
    pub fn to_string(&self) -> (text: String)
        ensures
            text@ == "("@ + decimal(self@.column) + ", "@ + decimal(self@.row) + ")"@,
    {
        let mut text = String::new();
        text.push_str("(");
        push_decimal(&mut text, self.0);
        text.push_str(", ");
        push_decimal(&mut text, self.1);
        text.push_str(")");
        text
    }
}

/// Keeps the cursor and the scroll offsets of one window.
pub struct CursorController {
    rows_offset: usize,
    columns_offset: usize,
    raw_position: Cursor,
    render_position: Cursor,
}

impl View for CursorController {
    type V = Viewport;

    closed spec fn view(&self) -> Viewport {
        Viewport {
            rows_offset: self.rows_offset as nat,
            columns_offset: self.columns_offset as nat,
            raw: self.raw_position@,
            render: self.render_position@,
        }
    }
}

impl CursorController {
    /// A controller with the cursor and the offsets at the origin.
    pub fn new() -> (controller: Self)
        ensures
            controller@ == Viewport::origin(),
    {
        Self { rows_offset: 0, columns_offset: 0, raw_position: Cursor(0, 0), render_position: Cursor(0, 0) }
    }

    /// The rendered cursor position.
    pub fn get_cursor(&mut self) -> (cursor: &mut Cursor)
        ensures
            cursor@ == old(self)@.render,
            final(self)@ == (Viewport { render: final(cursor)@, ..old(self)@ }),
    {
        &mut self.render_position
    }

    /// The rendered cursor position, for reading.
    pub fn render_cursor(&self) -> (cursor: &Cursor)
        ensures
            cursor@ == self@.render,
    {
        &self.render_position
    }

    /// The raw cursor position, for reading.
    pub fn raw_cursor(&self) -> (cursor: &Cursor)
        ensures
            cursor@ == self@.raw,
    {
        &self.raw_position
    }

    /// The first visible row.
    pub fn get_rows_offset(&self) -> (offset: usize)
        ensures
            offset == self@.rows_offset,
    {
        self.rows_offset
    }

    /// The first visible rendered column.
    pub fn get_columns_offset(&self) -> (offset: usize)
        ensures
            offset == self@.columns_offset,
    {
        self.columns_offset
    }

    /// Brings the window to the cursor. The rendered column is derived anew
    /// from the raw column; then each offset moves just far enough for the
    /// cursor to be inside the window.
    pub fn scroll(&mut self, ecd: &EditorView)
        requires
            old(self)@.wf(ecd.rows()),
        ensures
            final(self)@ == old(self)@.scrolled(
                ecd.rows(),
                ecd.visible_columns(),
                ecd.visible_rows(),
            ),
            final(self)@.wf(ecd.rows()),
    {
        let win_size = ecd.get_win_size();
        let win_max_rows = ecd.get_win_max_rows();
        let number_of_rows = ecd.number_of_rows();
        self.render_position.0 = if self.render_position.1 < number_of_rows {
            self.calculate_render_x(ecd.get_edit_row(self.render_position.1))
        } else {
            0
        };

        self.rows_offset = if self.render_position.1 >= self.rows_offset && self.render_position.1
            - self.rows_offset >= win_max_rows {
            self.render_position.1 - win_max_rows + 1
        } else if self.rows_offset <= self.render_position.1 {
            self.rows_offset
        } else {
            self.render_position.1
        };

        self.columns_offset = if self.render_position.0 >= self.columns_offset
            && self.render_position.0 - self.columns_offset >= win_size.0 {
            self.render_position.0 - win_size.0 + 1
        } else if self.columns_offset <= self.render_position.0 {
            self.columns_offset
        } else {
            self.render_position.0
        };
    }

    /// Moves the cursor in `direction`, then brings its columns back into the
    /// row it has reached.
    pub fn move_cursor(&mut self, direction: Direction, ecd: &EditorView)
        requires
            old(self)@.wf(ecd.rows()),
        ensures
            final(self)@ == old(self)@.moved(direction, ecd.rows(), ecd.visible_rows()),
            final(self)@.wf(ecd.rows()),
    {
        let number_of_rows = ecd.number_of_rows();
        match direction {
            Direction::Up => {
                self.move_up();
            },
            Direction::Left => {
                self.move_left(ecd);
            },
            Direction::Right => {
                self.move_right(ecd);
            },
            Direction::Down => {
                self.move_down(ecd);
            },
            Direction::Home => {
                self.move_home();
            },
            Direction::End => {
                self.move_end(ecd);
            },
            Direction::PageUp => {
                self.move_page_up(ecd);
            },
            Direction::PageDown => {
                self.move_page_down(ecd);
            },
        }

        // The row may have changed: cut the columns to the row reached.
        if self.render_position.1 < number_of_rows {
            let row = ecd.get_edit_row(self.render_position.1);
            let row_len = row.rendered_columns();
            if self.render_position.0 > row_len {
                self.render_position.0 = row_len;
            }
            let raw_content = row.get_raw_content();
            let raw_len = row.raw_len();
            let ghost bytes = encode_utf8(raw_content@);
            let mut column = if self.raw_position.0 < raw_len {
                self.raw_position.0
            } else {
                raw_len
            };
            let ghost start = column as int;
            proof {
                lemma_floor_boundary(bytes, start);
            }
            while !raw_content.is_char_boundary(column)
                invariant
                    bytes == encode_utf8(raw_content@),
                    valid_utf8(bytes),
                    column <= start,
                    floor_boundary(bytes, column as int) == floor_boundary(bytes, start),
                decreases column,
            {
                column -= 1;
            }
            self.raw_position.0 = column;
        } else {
            self.render_position.0 = 0;
            self.raw_position.0 = 0;
        }
    }

    /// Moves the cursor one row up.
    pub fn move_up(&mut self)
        ensures
            final(self)@ == old(self)@.up(),
    {
        self.render_position.1 = self.render_position.1.saturating_sub(1);
        self.raw_position.1 = self.raw_position.1.saturating_sub(1);
    }

    /// Moves the cursor one row down.
    pub fn move_down(&mut self, ecd: &EditorView)
        requires
            old(self)@.rows_valid(ecd.rows()),
        ensures
            final(self)@ == old(self)@.down(ecd.rows()),
    {
        if self.render_position.1 < ecd.number_of_rows() {
            self.render_position.1 += 1;
            self.raw_position.1 += 1;
        }
    }

    /// Moves the cursor one character to the left; at the start of a row, to
    /// the end of the row above; at the start of the buffer, nowhere.
    pub fn move_left(&mut self, ecd: &EditorView)
        requires
            old(self)@.wf(ecd.rows()),
        ensures
            final(self)@ == old(self)@.left(ecd.rows()),
            final(self)@.wf(ecd.rows()),
    {
        if self.render_position.0 > 0 {
            self.render_position.0 -= 1;
            let raw_content = ecd.raw_content_of_row(self.raw_position.1);
            let ghost bytes = encode_utf8(raw_content@);
            let ghost start = self.raw_position.0 as int;
            proof {
                if start > 0 {
                    lemma_floor_boundary(bytes, start - 1);
                }
            }
            let mut column = self.raw_position.0;
            if column > 0 {
                column -= 1;
                while !raw_content.is_char_boundary(column)
                    invariant
                        bytes == encode_utf8(raw_content@),
                        valid_utf8(bytes),
                        column < start,
                        floor_boundary(bytes, column as int) == floor_boundary(bytes, start - 1),
                    decreases column,
                {
                    column -= 1;
                }
            }
            self.raw_position.0 = column;
        } else if self.render_position.1 > 0 {
            self.render_position.1 -= 1;
            self.raw_position.1 -= 1;
            let row = ecd.get_edit_row(self.render_position.1);
            self.render_position.0 = row.rendered_columns();
            self.raw_position.0 = row.raw_len();
            proof {
                is_char_boundary_start_end_of_seq(encode_utf8(row@));
            }
        }
    }

    /// Moves the cursor one character to the right; at the end of a row, to
    /// the start of the row below; after the last row, nowhere.
    pub fn move_right(&mut self, ecd: &EditorView)
        requires
            old(self)@.wf(ecd.rows()),
        ensures
            final(self)@ == old(self)@.right(ecd.rows()),
            final(self)@.wf(ecd.rows()),
    {
        if self.render_position.1 < ecd.number_of_rows() {
            let row = ecd.get_edit_row(self.render_position.1);
            if self.render_position.0 < row.rendered_columns() {
                self.render_position.0 += 1;
                let raw_text = row.get_raw_content();
                let ghost bytes = encode_utf8(raw_text@);
                let ghost start = self.raw_position.0 as int;
                proof {
                    is_char_boundary_start_end_of_seq(bytes);
                    if start < bytes.len() {
                        lemma_next_boundary(bytes, start);
                    }
                }
                let mut column = self.raw_position.0;
                if column < row.raw_len() {
                    column += 1;
                    while !raw_text.is_char_boundary(column)
                        invariant
                            bytes == encode_utf8(raw_text@),
                            valid_utf8(bytes),
                            bytes.len() <= usize::MAX,
                            is_char_boundary(bytes, bytes.len() as int),
                            start < column <= bytes.len(),
                            next_boundary(bytes, start) == if is_char_boundary(bytes, column as int) {
                                column as int
                            } else {
                                next_boundary(bytes, column as int)
                            },
                        decreases bytes.len() - column,
                    {
                        column += 1;
                    }
                }
                self.raw_position.0 = column;
            } else {
                self.render_position.1 += 1;
                self.raw_position.1 += 1;
                self.render_position.0 = 0;
                self.raw_position.0 = 0;
            }
        }
    }

    /// Moves the cursor to the start of its row.
    pub fn move_home(&mut self)
        ensures
            final(self)@ == old(self)@.home(),
    {
        self.render_position.0 = 0;
        self.raw_position.0 = 0;
    }

    /// Moves the cursor to the end of its row.
    pub fn move_end(&mut self, ecd: &EditorView)
        ensures
            final(self)@ == old(self)@.end(ecd.rows()),
            old(self)@.rows_valid(ecd.rows()) ==> final(self)@.wf(ecd.rows()),
    {
        let number_of_rows = ecd.number_of_rows();
        self.render_position.0 = if self.render_position.1 < number_of_rows {
            ecd.get_edit_row(self.render_position.1).rendered_columns()
        } else {
            0
        };
        self.raw_position.0 = if self.raw_position.1 < number_of_rows {
            let row = ecd.get_edit_row(self.raw_position.1);
            proof {
                is_char_boundary_start_end_of_seq(encode_utf8(row@));
            }
            row.raw_len()
        } else {
            0
        };
    }

    /// Moves the cursor one page up: to the first visible row, then up by as
    /// many rows as the window shows.
    pub fn move_page_up(&mut self, ecd: &EditorView)
        ensures
            final(self)@ == old(self)@.page_up(ecd.rows(), ecd.visible_rows()),
    {
        let number_of_rows = ecd.number_of_rows();
        let top = if self.rows_offset < number_of_rows {
            self.rows_offset
        } else {
            number_of_rows
        };
        self.render_position.1 = top;
        self.raw_position.1 = top;
        let ghost snapped = self@;
        let lines = ecd.get_win_max_rows();
        for i in 0..lines
            invariant
                self@ == snapped.on_row((top - least(top as nat, i as nat)) as nat),
        {
            self.move_up();
        }
    }

    /// Moves the cursor one page down: to the row after the last visible one,
    /// then down by as many rows as the window shows, stopping after the last
    /// row of the buffer.
    pub fn move_page_down(&mut self, ecd: &EditorView)
        ensures
            final(self)@ == old(self)@.page_down(ecd.rows(), ecd.visible_rows()),
    {
        let number_of_rows = ecd.number_of_rows();
        let lines = ecd.get_win_max_rows();
        let bottom = if self.rows_offset < number_of_rows && lines < number_of_rows
            - self.rows_offset {
            self.rows_offset + lines + 1
        } else {
            number_of_rows
        };
        self.render_position.1 = bottom;
        self.raw_position.1 = bottom;
        let ghost snapped = self@;
        for i in 0..lines
            invariant
                number_of_rows == ecd.rows().len(),
                bottom <= number_of_rows,
                self@ == snapped.on_row(least((bottom + i) as nat, number_of_rows as nat)),
        {
            self.move_down(ecd);
        }
    }

    /// The rendered column of the cursor's raw column in `row`: one cell for
    /// each character before it, and for a tab the cells up to the next tab
    /// stop.
    pub fn calculate_render_x(&self, row: &EditRow) -> (render_x: usize)
        requires
            is_raw_column(row@, self@.raw.column as int),
        ensures
            render_x == render_column(row@, self@.raw.column as int),
            render_x <= render_width(row@) <= isize::MAX,
    {
        let ghost column = self.raw_position.0 as int;
        // The width of the whole row bounds every partial width below.
        let width = row.rendered_columns();
        let (head, _) = row.get_raw_content().split_at(self.raw_position.0);
        let ghost text = head@;
        proof {
            encode_utf8_decode_utf8(text);
            assert(encode_utf8(text) == encode_utf8(row@).subrange(0, column));
            assert(text == chars_before(row@, column));
            lemma_render_column_bound(row@, column);
        }
        let mut render_x: usize = 0;
        for c in it: head.chars()
            invariant
                it.seq() == text,
                render_x == render_width(text.take(it.index())),
                render_width(text) <= width <= isize::MAX,
        {
            proof {
                lemma_expand_tabs_step(text, it.index());
                lemma_render_width_prefix(text, it.index() + 1);
            }
            render_x = if c == '\t' {
                render_x + ((TAB_SIZE - 1) - (render_x % TAB_SIZE) + 1)
            } else {
                render_x + 1
            };
        }
        assert(text.take(text.len() as int) == text);
        render_x
    }
}

} // verus!
