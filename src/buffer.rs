//! The output stage: everything drawn for a frame is gathered here in memory
//! and leaves in one piece, so that the terminal never shows half a frame.

use crate::error::EditorError;
use vstd::prelude::*;
use vstd::utf8::{decode_utf8, valid_utf8};

verus! {

/// Relies on `std::str::from_utf8`: it accepts exactly the UTF-8 byte
/// strings and reads them as the characters they encode.
#[verifier::external_body]
fn text_of_bytes(b: &[u8]) -> (r: Option<&str>)
    ensures
        r is Some <==> valid_utf8(b@),
        r matches Some(s) ==> s@ == decode_utf8(b@),
{
    std::str::from_utf8(b).ok()
}

pub struct Buffer {
    pub rows: usize,
    pub columns: usize,
    /// What has been staged since the last flush.
    pub content: String,
}

impl Buffer {
    /// An empty stage for a grid of `rows` by `columns`.
    pub fn new(rows: usize, columns: usize) -> (r: Buffer)
        ensures
            r.rows == rows,
            r.columns == columns,
            r.content@ == Seq::<char>::empty(),
    {
        Buffer { rows, columns, content: String::new() }
    }

    /// Stages `text` after what is there. No output happens.
    pub fn append(&mut self, text: &str)
        ensures
            final(self).content@ == old(self).content@ + text@,
            final(self).rows == old(self).rows,
            final(self).columns == old(self).columns,
    {
        self.content.append(text);
    }

    /// Stages the text that the bytes `buf` encode and returns their number;
    /// bytes that are not UTF-8 are refused and nothing is staged.
    pub fn write(&mut self, buf: &[u8]) -> (r: Result<usize, EditorError>)
        ensures
            final(self).rows == old(self).rows,
            final(self).columns == old(self).columns,
            valid_utf8(buf@) ==> r == Ok::<usize, EditorError>(buf@.len() as usize)
                && final(self).content@ == old(self).content@ + decode_utf8(buf@),
            !valid_utf8(buf@) ==> r == Err::<usize, EditorError>(EditorError::Encoding)
                && final(self).content@ == old(self).content@,
    {
        match text_of_bytes(buf) {
            Some(s) => {
                self.content.append(s);
                Ok(buf.len())
            },
            None => Err(EditorError::Encoding),
        }
    }

    /// Hands over the whole staged content, for the caller to send in one
    /// write, and leaves the stage empty. The content is handed over once
    /// only: whether the write then succeeds or fails, it is not staged again.
    pub fn flush(&mut self) -> (r: String)
        ensures
            r@ == old(self).content@,
            final(self).content@ == Seq::<char>::empty(),
            final(self).rows == old(self).rows,
            final(self).columns == old(self).columns,
    {
        let out = self.content.clone();
        self.content = String::new();
        out
    }
}

} // verus!
