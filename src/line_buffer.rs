use crate::error::EditError;
use crate::gap_buffer::GapBuffer;
use crate::text::{chars_of, string_of};
use vstd::prelude::*;

verus! {

/// One line of text, its terminator included, held in a gap buffer of
/// characters.
pub struct LineBuffer {
    buffer: GapBuffer<char>,
}

impl View for LineBuffer {
    type V = Seq<char>;

    closed spec fn view(&self) -> Seq<char> {
        self.buffer@
    }
}

impl LineBuffer {
    pub closed spec fn wf(&self) -> bool {
        self.buffer.wf()
    }

    /// A line holding the characters of `s`.
    pub fn new(s: &str) -> (r: Self)
        ensures
            r.wf(),
            r@ == s@,
    {
        LineBuffer { buffer: GapBuffer::from(chars_of(s)) }
    }

    /// A line holding `chars`.
    pub fn from_chars(chars: Vec<char>) -> (r: Self)
        ensures
            r.wf(),
            r@ == chars@,
    {
        LineBuffer { buffer: GapBuffer::from(chars) }
    }

    /// Inserts `ch` at column `index`. Fails with `OutOfBounds`, changing
    /// nothing, where `index` exceeds the line's length.
    pub fn insert(&mut self, index: usize, ch: char) -> (r: Result<(), EditError>)
        requires
            old(self).wf(),
            old(self)@.len() < usize::MAX,
        ensures
            final(self).wf(),
            r is Ok <==> index <= old(self)@.len(),
            r is Ok ==> final(self)@ == old(self)@.insert(index as int, ch),
            r is Err ==> r == Err::<(), EditError>(EditError::OutOfBounds) && final(self)@
                == old(self)@,
    {
        self.buffer.insert(index, ch)
    }

    /// Removes the character at column `index`. Fails with `OutOfBounds`,
    /// changing nothing, where there is no such character.
    pub fn remove(&mut self, index: usize) -> (r: Result<(), EditError>)
        requires
            old(self).wf(),
        ensures
            final(self).wf(),
            r is Ok <==> index < old(self)@.len(),
            r is Ok ==> final(self)@ == old(self)@.remove(index as int),
            r is Err ==> r == Err::<(), EditError>(EditError::OutOfBounds) && final(self)@
                == old(self)@,
    {
        self.buffer.delete(index)
    }

    /// The line's text.
    pub fn to_string(&self) -> (r: String)
        requires
            self.wf(),
        ensures
            r@ == self@,
    {
        string_of(&self.buffer.as_vec())
    }

    /// The line's characters.
    pub fn chars(&self) -> (r: Vec<char>)
        requires
            self.wf(),
        ensures
            r@ == self@,
    {
        self.buffer.as_vec()
    }

    /// The number of characters in the line.
    pub fn len(&self) -> (r: usize)
        requires
            self.wf(),
        ensures
            r == self@.len(),
    {
        self.buffer.len()
    }
}

} // verus!
