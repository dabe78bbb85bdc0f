//! The buffer in which a frame is put together before it is written out.

use vstd::prelude::*;
use vstd::utf8::{decode_utf8, encode_utf8_decode_utf8, valid_utf8};

verus! {

/// Why bytes were not taken into the output.
#[derive(Debug, PartialEq, Eq)]
pub enum OutputError {
    /// The bytes are not valid UTF-8.
    InvalidUtf8,
}

/// Text collected for the terminal. Nothing reaches the terminal until the
/// owner takes the text out and writes it.
pub struct EditorOutput {
    content: String,
}

impl View for EditorOutput {
    type V = Seq<char>;

    closed spec fn view(&self) -> Seq<char> {
        self.content@
    }
}

impl EditorOutput {
    /// An empty buffer.
    pub fn new() -> (output: Self)
        ensures
            output@ == Seq::<char>::empty(),
    {
        Self { content: String::new() }
    }

    /// Appends one character.
    pub fn push(&mut self, ch: char)
        ensures
            final(self)@ == old(self)@.push(ch),
    {
        self.content.push(ch)
    }

    /// Appends a string.
    pub fn push_str(&mut self, string: &str)
        ensures
            final(self)@ == old(self)@ + string@,
    {
        self.content.push_str(string)
    }

    /// Appends the text that `buf` encodes and returns how many bytes were
    /// taken, which is all of them. Bytes that are not valid UTF-8 are
    /// refused, and nothing is appended.
    pub fn write(&mut self, buf: &[u8]) -> (result: Result<usize, OutputError>)
        ensures
            valid_utf8(buf@) ==> result == Ok::<usize, OutputError>(buf@.len() as usize)
                && final(self)@ == old(self)@ + decode_utf8(buf@),
            !valid_utf8(buf@) ==> result == Err::<usize, OutputError>(OutputError::InvalidUtf8)
                && final(self)@ == old(self)@,
    {
        match core::str::from_utf8(buf) {
            Ok(s) => {
                proof {
                    encode_utf8_decode_utf8(s@);
                }
                self.content.push_str(s);
                Ok(buf.len())
            },
            Err(_) => Err(OutputError::InvalidUtf8),
        }
    }

    /// Hands out everything collected so far and leaves the buffer empty.
    pub fn take(&mut self) -> (content: String)
        ensures
            content@ == old(self)@,
            final(self)@ == Seq::<char>::empty(),
    {
        let mut content = String::new();
        core::mem::swap(&mut self.content, &mut content);
        content
    }
}

} // verus!
