//! The reduced way to run a parser: it tells whether the parser matched, and
//! with what output, and drops the error.
use vstd::prelude::*;
use crate::error::ParserError;
use crate::parser::Parser;
use crate::stream::Stream;

verus! {

/// Running a parser for its output alone. Every parser can be run so.
pub trait Analyzer: Parser {
    /// Runs the parser as `parse` does, cursor included, and keeps of a
    /// failure only that it happened.
    fn analyze(&self, st: &mut Stream<Self::Input>) -> (res: Option<Self::Output>)
        requires
            self.wf(),
            old(st).wf(),
        ensures
            final(st).wf(),
            final(st).tokens() == old(st).tokens(),
            match res {
                Some(x) => self.parses(old(st).tokens(), old(st).cursor(), Ok(x), final(st).cursor()),
                None => exists|e: ParserError<Self::Input>|
                    self.parses(old(st).tokens(), old(st).cursor(), Err(e), final(st).cursor()),
            },
    ;
}

impl<P: Parser> Analyzer for P {
    fn analyze(&self, st: &mut Stream<Self::Input>) -> (res: Option<Self::Output>) {
        match self.parse(st) {
            Ok(x) => Some(x),
            Err(_) => None,
        }
    }
}

} // verus!
