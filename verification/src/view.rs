//! Rows of text and the window they are shown in.

use vstd::prelude::*;

use vstd::string::StrSliceExecFns;

use crate::coords::raw_len;
use crate::cursor_controller::CursorController;
use crate::decimal::push_decimal;
use crate::editor_output::EditorOutput;
use crate::frame::{
    banner, cursor_cell, cursor_placement, cut, file_info, frame, message_bar, status_bar,
    text_area, text_line, visible_text,
};
use crate::status::StatusInfo;
use crate::tabs::{
    expand_tabs, lemma_expand_tabs_step, lemma_render_width_bound, render_width, spaces,
    tab_fill,
};
use crate::terminal::{
    clear_until_new_line, hide_cursor, hide_sequence, move_to, move_to_sequence,
    reset_attributes, reverse_sequence, reverse_video, show_cursor,
};
use crate::TAB_SIZE;

verus! {

/// One row of text together with its rendered form.
///
/// The rendered form is computed once, when the row is created, and never
/// changes afterwards.
pub struct EditRow {
    raw_content: String,
    rendered_content: String,
    // Width of `rendered_content` in screen columns.
    rendered_columns: usize,
}

impl View for EditRow {
    type V = Seq<char>;

    /// A row is modelled by its raw text; its rendered form is
    /// `expand_tabs` of that text.
    closed spec fn view(&self) -> Seq<char> {
        self.raw_content@
    }
}

/// Whether a row with this text can be rendered on this machine: the rendered
/// form has at most `TAB_SIZE` columns for each character, and that bound must
/// fit the largest allocation.
pub open spec fn row_fits(text: Seq<char>) -> bool {
    text.len() * TAB_SIZE <= isize::MAX
}

/// Whether a buffer with these rows can be shown on this machine: every row
/// can be rendered, and the rows can be counted past the last one.
pub open spec fn content_fits(content: Seq<Seq<char>>) -> bool {
    &&& content.len() <= isize::MAX
    &&& forall|i: int| 0 <= i < content.len() ==> row_fits(#[trigger] content[i])
}

/// Tests whether a row with the text `text` can be rendered.
pub fn text_fits(text: &str) -> (fits: bool)
    ensures
        fits == row_fits(text@),
{
    text.unicode_len() <= isize::MAX as usize / TAB_SIZE
}

/// Tests whether a buffer with the rows `content` can be shown.
pub fn rows_fit(content: &Vec<String>) -> (fits: bool)
    ensures
        fits == content_fits(content.deep_view()),
{
    let ghost texts = content.deep_view();
    assert(texts.len() == content.len());
    assert(forall|j: int| 0 <= j < content.len() ==> #[trigger] texts[j] == content[j]@);
    if content.len() > isize::MAX as usize {
        return false;
    }
    let mut i: usize = 0;
    while i < content.len()
        invariant
            i <= content.len(),
            texts == content.deep_view(),
            texts.len() == content.len(),
            forall|j: int| 0 <= j < content.len() ==> #[trigger] texts[j] == content[j]@,
            forall|j: int| 0 <= j < i ==> row_fits(#[trigger] texts[j]),
        decreases content.len() - i,
    {
        if !text_fits(content[i].as_str()) {
            assert(!row_fits(texts[i as int]));
            return false;
        }
        i += 1;
    }
    true
}

/// Appends to `rendered` the spaces of a tab that starts at column `index`,
/// and returns the column after them.
fn push_tab(rendered: &mut String, index: usize) -> (next: usize)
    requires
        index == old(rendered)@.len(),
        index + TAB_SIZE <= usize::MAX,
    ensures
        final(rendered)@ == old(rendered)@ + spaces(tab_fill(index as nat)),
        next == index + tab_fill(index as nat),
{
    let ghost before = rendered@;
    rendered.push(' ');
    let mut next: usize = index + 1;
    while next % TAB_SIZE != 0
        invariant
            index < next <= index + tab_fill(index as nat),
            index + TAB_SIZE <= usize::MAX,
            rendered@ == before + spaces((next - index) as nat),
        decreases index + tab_fill(index as nat) - next,
    {
        rendered.push(' ');
        next = next + 1;
    }
    next
}

impl EditRow {
    #[verifier::type_invariant]
    spec fn valid(&self) -> bool {
        &&& row_fits(self.raw_content@)
        &&& self.rendered_content@ == expand_tabs(self.raw_content@)
        &&& self.rendered_columns == self.rendered_content@.len()
    }

    /// The row's text as it is shown.
    pub closed spec fn rendered(&self) -> Seq<char> {
        self.rendered_content@
    }

    /// Creates the row for `raw_content` and renders it: each tab becomes the
    /// spaces up to the next tab stop, every other character stays.
    pub fn new(raw_content: String) -> (row: Self)
        requires
            row_fits(raw_content@),
        ensures
            row@ == raw_content@,
            row.rendered() == expand_tabs(raw_content@),
    {
        let ghost text = raw_content@;
        let mut capacity: usize = 0;
        for c in it: raw_content.as_str().chars()
            invariant
                it.seq() == text,
                row_fits(text),
                capacity <= it.index() * TAB_SIZE,
        {
            capacity = capacity + if c == '\t' { TAB_SIZE } else { 1 };
        }
        let mut rendered_content = String::with_capacity(capacity);
        let mut index: usize = 0;
        for c in it: raw_content.as_str().chars()
            invariant
                it.seq() == text,
                row_fits(text),
                rendered_content@ == expand_tabs(text.take(it.index())),
                index == rendered_content@.len(),
                index <= it.index() * TAB_SIZE,
        {
            proof {
                lemma_expand_tabs_step(text, it.index());
            }
            if c == '\t' {
                index = push_tab(&mut rendered_content, index);
            } else {
                rendered_content.push(c);
                index = index + 1;
            }
        }
        assert(text.take(text.len() as int) == text);
        EditRow { raw_content, rendered_content, rendered_columns: index }
    }

    /// The row's text as it was loaded.
    pub fn get_raw_content(&self) -> (content: &str)
        ensures
            content@ == self@,
    {
        self.raw_content.as_str()
    }

    /// The row's text as it is shown: tabs expanded to the next tab stop.
    pub fn get_rendered_content(&self) -> (content: &str)
        ensures
            content@ == self.rendered(),
            content@ == expand_tabs(self@),
    {
        proof {
            use_type_invariant(self);
        }
        self.rendered_content.as_str()
    }

    /// Length of the row's text in bytes.
    pub fn raw_len(&self) -> (len: usize)
        ensures
            len == raw_len(self@),
    {
        self.raw_content.as_str().as_bytes().len()
    }

    /// Width of the rendered row in screen columns.
    pub fn rendered_columns(&self) -> (columns: usize)
        ensures
            columns == render_width(self@),
            columns <= isize::MAX,
    {
        proof {
            use_type_invariant(self);
            lemma_render_width_bound(self@);
        }
        self.rendered_columns
    }
}

/// Number of terminal lines kept free below the text, for the status bar and
/// the message bar.
pub const RESERVED_LINES: usize = 2;

// The rows and the window, which never change once the view is made.
struct Page {
    // Terminal size: columns, lines.
    win_size: (usize, usize),
    // Lines of the terminal that show text.
    win_max_rows: usize,
    edit_rows: Vec<EditRow>,
}

/// The rows of a buffer, the terminal window they are shown in, and the
/// output in which frames are put together.
pub struct EditorView {
    page: Page,
    editor_output: EditorOutput,
}

/// Lines left for text in a terminal of `lines` lines.
pub open spec fn text_lines(lines: nat) -> nat {
    if lines >= RESERVED_LINES {
        (lines - RESERVED_LINES) as nat
    } else {
        0
    }
}

/// The first `columns` characters of `text`, or all of it if it is shorter.
fn cut_to(text: &str, columns: usize) -> (head: &str)
    ensures
        head@ == cut(text@, columns as nat),
{
    let len = text.unicode_len();
    let shown = if len < columns {
        len
    } else {
        columns
    };
    text.substring_char(0, shown)
}

/// The cell of the window for a cursor at `position` when the window starts at
/// `offset`.
fn cell(position: usize, offset: usize) -> (cell: u16)
    ensures
        cell == cursor_cell(position as nat, offset as nat),
        cell < u16::MAX,
{
    let distance = position.saturating_sub(offset);
    if distance < u16::MAX as usize {
        distance as u16
    } else {
        u16::MAX - 1
    }
}

impl Page {
    #[verifier::type_invariant]
    spec fn valid(&self) -> bool {
        &&& self.win_size.0 <= u16::MAX
        &&& self.win_size.1 <= u16::MAX
        &&& self.win_max_rows == text_lines(self.win_size.1 as nat)
        &&& self.edit_rows.len() <= isize::MAX
    }
}

impl EditorView {
    /// The raw text of each row, in order.
    pub closed spec fn rows(&self) -> Seq<Seq<char>> {
        Seq::new(self.page.edit_rows.len() as nat, |i: int| self.page.edit_rows[i]@)
    }

    /// Terminal size: columns, lines.
    pub closed spec fn window(&self) -> (nat, nat) {
        (self.page.win_size.0 as nat, self.page.win_size.1 as nat)
    }

    /// What has been drawn and not yet taken out.
    pub closed spec fn pending(&self) -> Seq<char> {
        self.editor_output@
    }

    /// Columns of the window.
    pub open spec fn visible_columns(&self) -> nat {
        self.window().0
    }

    /// Lines of the window that show text.
    pub open spec fn visible_rows(&self) -> nat {
        text_lines(self.window().1)
    }

    /// Whether `self` shows the same rows in the same window as `other`.
    pub open spec fn same_buffer(&self, other: &Self) -> bool {
        self.rows() == other.rows() && self.window() == other.window()
    }

    /// A view of `content`, one row per string, in a terminal of
    /// `win_size` columns and lines.
    pub fn new(content: Vec<String>, win_size: (u16, u16)) -> (view: Self)
        requires
            content_fits(content.deep_view()),
        ensures
            view.rows() == content.deep_view(),
            view.window() == (win_size.0 as nat, win_size.1 as nat),
            view.pending() == Seq::<char>::empty(),
    {
        let win_size = (win_size.0 as usize, win_size.1 as usize);
        let win_max_rows = win_size.1.saturating_sub(RESERVED_LINES);
        let ghost texts = content@;
        proof {
            assert(content.deep_view().len() == texts.len());
            assert forall|i: int| 0 <= i < texts.len() implies row_fits(#[trigger] texts[i]@) by {
                assert(content.deep_view()[i] == texts[i]@);
            }
        }
        let mut edit_rows: Vec<EditRow> = Vec::new();
        for raw in it: content
            invariant
                it.seq() == texts,
                forall|i: int| 0 <= i < texts.len() ==> row_fits(#[trigger] texts[i]@),
                edit_rows.len() == it.index(),
                forall|i: int| 0 <= i < it.index() ==> #[trigger] edit_rows[i]@ == texts[i]@,
        {
            edit_rows.push(EditRow::new(raw));
        }
        assert(Seq::new(edit_rows.len() as nat, |i: int| edit_rows[i]@) == Seq::new(
            texts.len(),
            |i: int| texts[i]@,
        ));
        Self { page: Page { win_size, win_max_rows, edit_rows }, editor_output: EditorOutput::new() }
    }

    /// Terminal size: columns, lines.
    pub fn get_win_size(&self) -> (size: (usize, usize))
        ensures
            size.0 == self.window().0,
            size.1 == self.window().1,
            size.0 <= u16::MAX,
            size.1 <= u16::MAX,
    {
        proof {
            use_type_invariant(&self.page);
        }
        self.page.win_size
    }

    /// Lines of the window that show text.
    pub fn get_win_max_rows(&self) -> (lines: usize)
        ensures
            lines == self.visible_rows(),
            lines <= u16::MAX,
    {
        proof {
            use_type_invariant(&self.page);
        }
        self.page.win_max_rows
    }

    /// Number of rows in the buffer.
    pub fn number_of_rows(&self) -> (n: usize)
        ensures
            n == self.rows().len(),
            n <= isize::MAX,
    {
        proof {
            use_type_invariant(&self.page);
        }
        self.page.edit_rows.len()
    }

    /// Rendered text of row `i`.
    pub fn rendered_content_of_row(&self, i: usize) -> (content: &str)
        requires
            i < self.rows().len(),
        ensures
            content@ == expand_tabs(self.rows()[i as int]),
    {
        self.page.edit_rows[i].get_rendered_content()
    }

    /// Raw text of row `i`.
    pub fn raw_content_of_row(&self, i: usize) -> (content: &str)
        requires
            i < self.rows().len(),
        ensures
            content@ == self.rows()[i as int],
    {
        self.page.edit_rows[i].get_raw_content()
    }

    /// Row `i`.
    pub fn get_edit_row(&self, i: usize) -> (row: &EditRow)
        requires
            i < self.rows().len(),
        ensures
            row@ == self.rows()[i as int],
    {
        &self.page.edit_rows[i]
    }

    // Hides the cursor and sends it to the top left corner.
    fn reset_and_hide_cursor(&mut self)
        ensures
            final(self).same_buffer(old(self)),
            final(self).pending() == old(self).pending() + hide_sequence() + move_to_sequence(0, 0),
    {
        self.editor_output.push_str(hide_cursor().as_str());
        self.editor_output.push_str(move_to(0, 0).as_str());
    }

    // Puts the cursor into its cell of the window and shows it.
    fn move_cursor(&mut self, cc: &mut CursorController)
        ensures
            final(self).same_buffer(old(self)),
            final(cc)@ == old(cc)@,
            final(self).pending() == old(self).pending() + cursor_placement(old(cc)@),
    {
        let cursor_x = cell(cc.get_cursor().get_x(), cc.get_columns_offset());
        let cursor_y = cell(cc.get_cursor().get_y(), cc.get_rows_offset());
        self.editor_output.push_str(move_to(cursor_x, cursor_y).as_str());
        self.editor_output.push_str(show_cursor().as_str());
    }

    /// Draws the banner: the welcome text, centred in the window.
    pub fn draw_banner(&mut self)
        ensures
            final(self).same_buffer(old(self)),
            final(self).pending() == old(self).pending() + banner(old(self).visible_columns()),
    {
        proof {
            use_type_invariant(&self.page);
        }
        let screen_columns = self.page.win_size.0;
        let mut welcome_text = String::new();
        welcome_text.push_str("z-editor --- version: ");
        welcome_text.push_str(crate::VERSION);
        let shown = cut_to(welcome_text.as_str(), screen_columns);
        let ghost before = self.editor_output@;
        let mut padding = (screen_columns - shown.unicode_len()) / 2;
        if padding != 0 {
            self.editor_output.push('~');
            padding -= 1;
            for i in 0..padding
                invariant
                    self.editor_output@ == before + seq!['~'] + spaces(i as nat),
                    self.page == old(self).page,
            {
                self.editor_output.push(' ');
            }
        }
        self.editor_output.push_str(shown);
    }

    // Draws the visible part of row `view_rows`.
    fn draw_text(&mut self, cc: &mut CursorController, view_rows: usize)
        requires
            view_rows < old(self).rows().len(),
        ensures
            final(self).same_buffer(old(self)),
            final(cc)@ == old(cc)@,
            final(self).pending() == old(self).pending() + visible_text(
                expand_tabs(old(self).rows()[view_rows as int]),
                old(cc)@.columns_offset,
                old(self).visible_columns(),
            ),
    {
        proof {
            use_type_invariant(&self.page);
        }
        let screen_columns = self.page.win_size.0;
        let text = self.page.edit_rows[view_rows].get_rendered_content();
        let columns = self.page.edit_rows[view_rows].rendered_columns();
        let column_offset = cc.get_columns_offset();
        let visible = columns.saturating_sub(column_offset);
        let len = if visible < screen_columns {
            visible
        } else {
            screen_columns
        };
        let start = if len == 0 {
            0
        } else {
            column_offset
        };
        let shown = text.substring_char(start, start + len);
        proof {
            assert(shown@ == visible_text(
                expand_tabs(self.rows()[view_rows as int]),
                column_offset as nat,
                screen_columns as nat,
            ));
        }
        self.editor_output.push_str(shown);
    }

    // Draws every line of the text area.
    fn draw_text_rows(&mut self, cc: &mut CursorController)
        ensures
            final(self).same_buffer(old(self)),
            final(cc)@ == old(cc)@,
            final(self).pending() == old(self).pending() + text_area(
                old(self).rows(),
                old(cc)@,
                old(self).visible_columns(),
                old(self).visible_rows(),
            ),
    {
        proof {
            use_type_invariant(&self.page);
        }
        // Two lines of the window are kept for the bars.
        let max_text_rows = self.page.win_size.1.saturating_sub(RESERVED_LINES);
        let ghost before = self.editor_output@;
        let ghost rows = self.rows();
        let ghost columns = self.visible_columns();
        let ghost v = cc@;
        for i in 0..max_text_rows
            invariant
                self.same_buffer(old(self)),
                rows == old(self).rows(),
                columns == old(self).visible_columns(),
                cc@ == v,
                self.pending() == before + text_area(rows, v, columns, i as nat),
        {
            let ghost drawn = self.pending();
            let rows_offset = cc.get_rows_offset();
            let number_of_rows = self.page.edit_rows.len();
            if rows_offset >= number_of_rows || i >= number_of_rows - rows_offset {
                // Below the last row of the buffer.
                self.editor_output.push('~');
            } else {
                self.draw_text(cc, i + rows_offset);
            }
            self.editor_output.push_str(clear_until_new_line().as_str());
            self.editor_output.push_str("\r\n");
            proof {
                assert(self.pending() == drawn + text_line(rows, v, columns, i as nat));
                assert(text_area(rows, v, columns, (i + 1) as nat) == text_area(
                    rows,
                    v,
                    columns,
                    i as nat,
                ) + text_line(rows, v, columns, i as nat));
            }
        }
    }

    // Draws the status bar.
    fn draw_status_bar(&mut self, cc: &mut CursorController, file_name: &str)
        requires
            old(cc)@.render.row < usize::MAX,
        ensures
            final(self).same_buffer(old(self)),
            final(cc)@ == old(cc)@,
            final(self).pending() == old(self).pending() + status_bar(
                file_name@,
                old(self).rows().len(),
                old(cc)@.render.row,
                old(self).visible_columns(),
            ),
    {
        proof {
            use_type_invariant(&self.page);
        }
        let screen_columns = self.page.win_size.0;
        let number_of_rows = self.number_of_rows();
        let ghost before = self.editor_output@;
        self.editor_output.push_str(reverse_video().as_str());
        let mut info = String::new();
        info.push_str(file_name);
        info.push_str(" -- ");
        push_decimal(&mut info, number_of_rows);
        info.push_str(" lines");
        let shown = cut_to(info.as_str(), screen_columns);
        let info_len = shown.unicode_len();
        let mut line_info = String::new();
        push_decimal(&mut line_info, cc.get_cursor().get_y() + 1);
        line_info.push_str("/");
        push_decimal(&mut line_info, number_of_rows);
        let line_info_len = line_info.as_str().unicode_len();
        let ghost row = cc@.render.row;
        proof {
            assert(info@ == file_info(file_name@, number_of_rows as nat));
            assert(line_info@ == crate::frame::line_info(row, number_of_rows as nat));
        }
        self.editor_output.push_str(shown);
        let ghost left = before + reverse_sequence() + shown@;
        let ghost room = (screen_columns - info_len) as nat;
        let mut i = info_len;
        while i < screen_columns
            invariant_except_break
                self.editor_output@ == left + spaces((i - info_len) as nat),
                line_info_len <= room ==> i - info_len <= room - line_info_len,
            invariant
                info_len <= i <= screen_columns,
                room == screen_columns - info_len,
                line_info_len == line_info@.len(),
                self.page == old(self).page,
            ensures
                self.editor_output@ == left + if line_info_len <= room {
                    spaces((room - line_info_len) as nat) + line_info@
                } else {
                    spaces(room)
                },
            decreases screen_columns - i,
        {
            if screen_columns - i == line_info_len {
                self.editor_output.push_str(line_info.as_str());
                break ;
            } else {
                self.editor_output.push(' ');
            }
            i += 1;
        }
        self.editor_output.push_str(reset_attributes().as_str());
        self.editor_output.push_str("\r\n");
        proof {
            assert(self.editor_output@ == before + status_bar(
                file_name@,
                number_of_rows as nat,
                row,
                screen_columns as nat,
            ));
        }
    }

    // Draws the message bar.
    fn draw_message_bar(&mut self, status_info: &StatusInfo)
        ensures
            final(self).same_buffer(old(self)),
            final(self).pending() == old(self).pending() + message_bar(
                status_info.message(),
                old(self).visible_columns(),
            ),
    {
        proof {
            use_type_invariant(&self.page);
        }
        self.editor_output.push_str(clear_until_new_line().as_str());
        let msg = status_info.get_message();
        self.editor_output.push_str(cut_to(msg, self.page.win_size.0));
    }

    /// Composes a frame for the cursor and the offsets of `cc` and hands it
    /// out, together with anything drawn before and not yet taken.
    pub fn refresh_screen(&mut self, cc: &mut CursorController, status_info: &StatusInfo) -> (text:
        String)
        requires
            old(cc)@.wf(old(self).rows()),
        ensures
            final(self).same_buffer(old(self)),
            final(cc)@ == old(cc)@,
            final(self).pending() == Seq::<char>::empty(),
            text@ == old(self).pending() + frame(
                old(self).rows(),
                old(cc)@,
                old(self).visible_columns(),
                old(self).visible_rows(),
                status_info.shown_name(),
                status_info.message(),
            ),
    {
        proof {
            use_type_invariant(&self.page);
        }
        self.reset_and_hide_cursor();
        self.draw_text_rows(cc);
        self.draw_status_bar(cc, status_info.file_name_or_default());
        self.draw_message_bar(status_info);
        self.move_cursor(cc);
        self.editor_output.take()
    }
}

} // verus!
