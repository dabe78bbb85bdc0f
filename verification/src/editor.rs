//! The editor: a view, its cursor, and what the keys do.
//!
//! The editor decides and draws; it reads no key and writes to no terminal.
//! Its owner hands it each key that was pressed and writes out each frame
//! that it composes.

use vstd::prelude::*;

use crate::cursor_controller::{CursorController, Direction, Viewport};
use crate::frame::frame;
use crate::status::StatusInfo;
use crate::view::{content_fits, EditorView};

verus! {

broadcast use vstd::utf8::encode_utf8_valid_utf8;

/// A key, as far as the editor tells keys apart.
#[derive(Clone, Copy, Debug, PartialEq, Eq)]
pub enum Key {
    /// A key that moves the cursor.
    Move(Direction),
    /// A character key.
    Char(char),
    /// Any other key.
    Other,
}

/// The modifier keys held down while a key is pressed.
#[derive(Clone, Copy, Debug, PartialEq, Eq)]
pub struct Modifiers {
    pub shift: bool,
    pub control: bool,
    pub alt: bool,
}

/// A key pressed together with its modifiers.
#[derive(Clone, Copy, Debug, PartialEq, Eq)]
pub struct KeyPress {
    pub code: Key,
    pub modifiers: Modifiers,
}

impl Modifiers {
    /// No modifier is held down.
    pub open spec fn is_none(self) -> bool {
        !self.shift && !self.control && !self.alt
    }

    /// Control is held down, and nothing else.
    pub open spec fn is_control(self) -> bool {
        !self.shift && self.control && !self.alt
    }
}

impl KeyPress {
    /// Whether this key press asks the editor to quit: Control and `q`.
    pub open spec fn quits(self) -> bool {
        self.code == Key::Char('q') && self.modifiers.is_control()
    }

    /// The direction in which this key press moves the cursor, if it moves it:
    /// a movement key without modifiers.
    pub open spec fn direction(self) -> Option<Direction> {
        match self.code {
            Key::Move(direction) if self.modifiers.is_none() => Some(direction),
            _ => None,
        }
    }
}

/// A view of a buffer with its cursor and its status.
pub struct Editor {
    editor_view: EditorView,
    cursor_controller: CursorController,
    status_info: StatusInfo,
}

impl Editor {
    /// The raw text of each row of the buffer.
    pub closed spec fn rows(&self) -> Seq<Seq<char>> {
        self.editor_view.rows()
    }

    /// Terminal size: columns, lines.
    pub closed spec fn window(&self) -> (nat, nat) {
        self.editor_view.window()
    }

    /// The cursor and the scroll offsets.
    pub closed spec fn viewport(&self) -> Viewport {
        self.cursor_controller@
    }

    /// Name shown in the status bar.
    pub closed spec fn shown_name(&self) -> Seq<char> {
        self.status_info.shown_name()
    }

    /// Message shown in the message bar.
    pub closed spec fn message(&self) -> Seq<char> {
        self.status_info.message()
    }

    /// Columns of the window.
    pub open spec fn visible_columns(&self) -> nat {
        self.window().0
    }

    /// Lines of the window that show text.
    pub open spec fn visible_rows(&self) -> nat {
        crate::view::text_lines(self.window().1)
    }

    /// The cursor is a position of the buffer, and no frame is half drawn.
    pub closed spec fn wf(&self) -> bool {
        &&& self.cursor_controller@.wf(self.editor_view.rows())
        &&& self.editor_view.pending() == Seq::<char>::empty()
    }

    /// Whether `self` has the buffer, the window and the status of `other`.
    pub open spec fn same_buffer(&self, other: &Self) -> bool {
        &&& self.rows() == other.rows()
        &&& self.window() == other.window()
        &&& self.shown_name() == other.shown_name()
        &&& self.message() == other.message()
    }

    /// An editor without a file and without rows.
    pub fn empty(initial_message: String, win_size: (u16, u16)) -> (editor: Self)
        ensures
            editor.wf(),
            editor.rows() == Seq::<Seq<char>>::empty(),
            editor.window() == (win_size.0 as nat, win_size.1 as nat),
            editor.viewport() == Viewport::origin(),
            editor.shown_name() == crate::status::default_file_name(),
            editor.message() == initial_message@,
    {
        let editor = Self {
            editor_view: EditorView::new(Vec::new(), win_size),
            cursor_controller: CursorController::new(),
            status_info: StatusInfo::new(None, 0, initial_message),
        };
        assert(editor.rows() == Seq::<Seq<char>>::empty());
        editor
    }

    /// An editor for the rows `content`, loaded from the file named
    /// `file_name` if there is a name.
    pub fn with_content(
        file_name: Option<String>,
        content: Vec<String>,
        initial_message: String,
        win_size: (u16, u16),
    ) -> (editor: Self)
        requires
            content_fits(content.deep_view()),
        ensures
            editor.wf(),
            editor.rows() == content.deep_view(),
            editor.window() == (win_size.0 as nat, win_size.1 as nat),
            editor.viewport() == Viewport::origin(),
            editor.shown_name() == match file_name {
                Some(name) => name@,
                None => crate::status::default_file_name(),
            },
            editor.message() == initial_message@,
    {
        let lines = content.len();
        Self {
            editor_view: EditorView::new(content, win_size),
            cursor_controller: CursorController::new(),
            status_info: StatusInfo::new(file_name, lines, initial_message),
        }
    }

    /// The cursor and the scroll offsets, for reading.
    pub fn cursor_controller(&self) -> (controller: &CursorController)
        ensures
            controller@ == self.viewport(),
    {
        &self.cursor_controller
    }

    /// The rows and the window, for reading.
    pub fn editor_view(&self) -> (view: &EditorView)
        ensures
            view.rows() == self.rows(),
            view.window() == self.window(),
    {
        &self.editor_view
    }

    /// Brings the window to the cursor and composes the frame that shows it.
    pub fn draw(&mut self) -> (text: String)
        requires
            old(self).wf(),
        ensures
            final(self).wf(),
            final(self).same_buffer(old(self)),
            final(self).viewport() == old(self).viewport().scrolled(
                old(self).rows(),
                old(self).visible_columns(),
                old(self).visible_rows(),
            ),
            text@ == frame(
                old(self).rows(),
                final(self).viewport(),
                old(self).visible_columns(),
                old(self).visible_rows(),
                old(self).shown_name(),
                old(self).message(),
            ),
    {
        self.cursor_controller.scroll(&self.editor_view);
        self.editor_view.refresh_screen(&mut self.cursor_controller, &self.status_info)
    }

    /// Acts on a key press. Control and `q` raise `exit_flag`; a movement key
    /// without modifiers moves the cursor; any other key does nothing.
    pub fn process_key(&mut self, event: KeyPress, exit_flag: &mut bool)
        requires
            old(self).wf(),
        ensures
            final(self).wf(),
            final(self).same_buffer(old(self)),
            *final(exit_flag) == (*old(exit_flag) || event.quits()),
            final(self).viewport() == match event.direction() {
                Some(direction) => old(self).viewport().moved(
                    direction,
                    old(self).rows(),
                    old(self).visible_rows(),
                ),
                None => old(self).viewport(),
            },
    {
        let plain = !event.modifiers.shift && !event.modifiers.control && !event.modifiers.alt;
        let control = !event.modifiers.shift && event.modifiers.control && !event.modifiers.alt;
        match event.code {
            Key::Char(c) => {
                if c == 'q' && control {
                    *exit_flag = true;
                }
            },
            Key::Move(direction) => {
                if plain {
                    self.cursor_controller.move_cursor(direction, &self.editor_view);
                }
            },
            Key::Other => {},
        }
    }
}

} // verus!
