//! The structured failure value that every parser reports.
use vstd::prelude::*;

verus! {

/// What a parser was looking for when it failed.
#[derive(Clone, Copy, Debug, PartialEq)]
pub enum ErrorExpect<T> {
    /// Some token, whichever.
    Any,
    /// The end of the input.
    Eof,
    /// This very token.
    Token(T),
    /// Something that has no name: a predicate, or a parser that always fails.
    Unknown,
}

/// A failure: where it happened, what stood there, and what was wanted.
#[derive(Clone, Copy, Debug, PartialEq)]
pub struct ParserError<T> {
    /// The cursor at the moment of failure.
    pub pos: usize,
    /// The token found there, or `None` at the end of the input.
    pub unexpected: Option<T>,
    /// What the failing parser wanted instead.
    pub expecting: ErrorExpect<T>,
}

impl<T> ParserError<T> {
    /// The error with exactly these three fields.
    pub fn new(pos: usize, unexpected: Option<T>, expecting: ErrorExpect<T>) -> (e: ParserError<T>)
        ensures
            e == (ParserError { pos, unexpected, expecting }),
    {
        ParserError { pos, unexpected, expecting }
    }
}

/// What a parser hands back: its output, or the error it stopped on.
pub type ParserResult<O, I> = Result<O, ParserError<I>>;

/// `res` is the failure at `pos` that found `unexpected` and wanted `expecting`.
pub open spec fn is_error<O, T>(
    res: ParserResult<O, T>,
    pos: nat,
    unexpected: Option<T>,
    expecting: ErrorExpect<T>,
) -> bool {
    &&& res matches Err(e)
    &&& e.pos == pos
    &&& e.unexpected == unexpected
    &&& e.expecting == expecting
}

/// The token of `input` at `pos`, if there is one.
pub open spec fn token_at<T>(input: Seq<T>, pos: nat) -> Option<T> {
    if pos < input.len() {
        Some(input[pos as int])
    } else {
        None
    }
}

} // verus!
