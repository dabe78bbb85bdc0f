//! A read-only text viewport for a terminal: rows of text with their
//! tab-expanded rendering, a cursor kept in both byte and screen coordinates,
//! and the scroll offsets that keep the cursor inside the visible window.

use vstd::prelude::*;

pub mod coords;
pub mod cursor_controller;
pub mod decimal;
pub mod editor;
pub mod editor_output;
pub mod frame;
pub mod laws;
pub mod status;
pub mod strings;
pub mod tabs;
pub mod terminal;
pub mod view;

verus! {

/// Width of a tab stop, in screen columns.
pub const TAB_SIZE: usize = 8;

/// Version shown in the banner.
pub const VERSION: &'static str = "0.0.1";

} // verus!
