//! What the status bar and the message bar show.

use vstd::prelude::*;

verus! {

/// State of the buffer with respect to its file.
pub enum Status {
    /// Nothing to save.
    Saved,
    /// The buffer cannot be changed.
    ReadOnly,
    /// There are changes that have not been saved.
    Modified,
}

/// Name shown for a buffer without a file.
pub open spec fn default_file_name() -> Seq<char> {
    "[No Name]"@
}

/// The information shown below the text.
pub struct StatusInfo {
    // Name of the file shown, without its directories.
    file_name: Option<String>,
    lines: usize,
    status: Status,
    message: String,
}

impl StatusInfo {
    /// Name of the file, if the buffer has one.
    pub closed spec fn file_name(&self) -> Option<Seq<char>> {
        match self.file_name {
            Some(name) => Some(name@),
            None => None,
        }
    }

    /// Number of lines that the file had when it was loaded.
    pub closed spec fn lines(&self) -> nat {
        self.lines as nat
    }

    /// Whether the buffer was loaded as saved.
    pub closed spec fn is_saved(&self) -> bool {
        self.status is Saved
    }

    /// The message shown in the message bar.
    pub closed spec fn message(&self) -> Seq<char> {
        self.message@
    }

    /// Name shown in the status bar: the file's name, or the default name.
    pub open spec fn shown_name(&self) -> Seq<char> {
        match self.file_name() {
            Some(name) => name,
            None => default_file_name(),
        }
    }

    /// Status information for a buffer that has just been loaded.
    pub fn new(file_name: Option<String>, lines: usize, initial_message: String) -> (info: Self)
        ensures
            info.file_name() == match file_name {
                Some(name) => Some(name@),
                None => None,
            },
            info.lines() == lines,
            info.is_saved(),
            info.message() == initial_message@,
    {
        Self { file_name, lines, status: Status::Saved, message: initial_message }
    }

    /// The file's name, or `[No Name]` where there is no file.
    pub fn file_name_or_default(&self) -> (name: &str)
        ensures
            name@ == self.shown_name(),
    {
        match &self.file_name {
            Some(name) => name.as_str(),
            None => "[No Name]",
        }
    }

    /// The message shown in the message bar.
    pub fn get_message(&self) -> (message: &str)
        ensures
            message@ == self.message(),
    {
        self.message.as_str()
    }
}

} // verus!
