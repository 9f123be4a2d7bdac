//! The cursor over a token sequence that every parser reads and moves.
use vstd::prelude::*;
use crate::error::token_at;

verus! {

/// An owned sequence of tokens together with a cursor into it.
///
/// The model of a stream is the pair of `tokens()` and `cursor()`.
pub struct Stream<T> {
    data: Vec<T>,
    pos: usize,
}

impl<T> Stream<T> {
    /// The tokens the stream was built from; they never change.
    pub closed spec fn tokens(&self) -> Seq<T> {
        self.data@
    }

    /// The number of tokens already consumed.
    pub closed spec fn cursor(&self) -> nat {
        self.pos as nat
    }

    /// The cursor lies inside the sequence or just behind its last token.
    pub open spec fn wf(&self) -> bool {
        self.cursor() <= self.tokens().len()
    }

    /// The token under the cursor, if any is left.
    pub open spec fn current(&self) -> Option<T> {
        token_at(self.tokens(), self.cursor())
    }

    /// A stream over `data` with the cursor on its first token.
    pub fn new(data: Vec<T>) -> (st: Self)
        ensures
            st.wf(),
            st.tokens() == data@,
            st.cursor() == 0,
    {
        Stream { data, pos: 0 }
    }

    /// The current position of the cursor.
    pub fn pos(&self) -> (p: usize)
        ensures
            p == self.cursor(),
    {
        self.pos
    }

    /// Moves the cursor to `pos`, a position inside the sequence or at its end.
    pub fn set_pos(&mut self, pos: usize)
        requires
            pos <= old(self).tokens().len(),
        ensures
            final(self).wf(),
            final(self).tokens() == old(self).tokens(),
            final(self).cursor() == pos,
    {
        self.pos = pos;
    }

    /// Moves the cursor `n` tokens forward.
    pub fn add_pos(&mut self, n: usize)
        requires
            old(self).cursor() + n <= old(self).tokens().len(),
        ensures
            final(self).wf(),
            final(self).tokens() == old(self).tokens(),
            final(self).cursor() == old(self).cursor() + n,
    {
        proof {
            assert(self.data@.len() == self.data.len());
        }
        self.pos = self.pos + n;
    }

    /// Moves the cursor past the token it stands on.
    pub fn next(&mut self)
        requires
            old(self).cursor() < old(self).tokens().len(),
        ensures
            final(self).wf(),
            final(self).tokens() == old(self).tokens(),
            final(self).cursor() == old(self).cursor() + 1,
    {
        proof {
            assert(self.data@.len() == self.data.len());
        }
        self.pos = self.pos + 1;
    }

    /// Whether every token has been consumed.
    pub fn eof(&self) -> (done: bool)
        ensures
            done == (self.current() is None),
    {
        self.pos >= self.data.len()
    }
}

impl<T: Copy> Stream<T> {
    /// A copy of the token under the cursor; the cursor stays.
    pub fn peak(&self) -> (tok: Option<T>)
        ensures
            tok == self.current(),
    {
        if self.pos < self.data.len() {
            Some(self.data[self.pos])
        } else {
            None
        }
    }
}

} // verus!
