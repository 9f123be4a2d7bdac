//! The parser capability, its contract, and the methods that build larger
//! parsers from smaller ones.
use vstd::prelude::*;
use crate::combinator::{And, Attempt, Mapped, Msg, Optional, Or, Skip, Then, With};
use crate::error::{ErrorExpect, ParserResult};
use crate::primitive::Val;
use crate::repetition::Loop;
use crate::stream::Stream;
use std::marker::PhantomData;

verus! {

/// `PhantomData::clone` from std: the marker holds nothing, so nothing is
/// claimed of the copy.
pub assume_specification<T: core::marker::PointeeSized>[ <PhantomData<T> as Clone>::clone ](
    marker: &PhantomData<T>,
) -> PhantomData<T>;

/// Something that can be run against a stream of `Input` tokens to give an
/// `Output` or an error.
///
/// The meaning of a parser is the relation `parses`: which results, and which
/// end positions, a run from a given position over a given input may have.
/// It is a relation because a grammar may hold functions that answer
/// differently from call to call; where it holds none, one outcome is left.
pub trait Parser {
    type Input;

    type Output;

    /// The grammar is sound enough to be run: the functions it holds may be
    /// called where it calls them, and its repetitions end.
    spec fn wf(&self) -> bool;

    /// A run over `input` that starts with the cursor on `start` may give
    /// `res` and leave the cursor on `end`.
    spec fn parses(
        &self,
        input: Seq<Self::Input>,
        start: nat,
        res: ParserResult<Self::Output, Self::Input>,
        end: nat,
    ) -> bool;

    /// Runs the parser. The tokens stay as they are; the result and the
    /// cursor afterwards are an outcome that `parses` allows. A parser that
    /// fails does not put the cursor back: that is what `attempt` is for.
    fn parse(&self, st: &mut Stream<Self::Input>) -> (res: ParserResult<Self::Output, Self::Input>)
        requires
            self.wf(),
            old(st).wf(),
        ensures
            final(st).wf(),
            final(st).tokens() == old(st).tokens(),
            self.parses(old(st).tokens(), old(st).cursor(), res, final(st).cursor()),
    ;

    /// This parser with `f` applied to its output.
    fn map<T, F: Fn(Self::Output) -> T>(self, f: F) -> (p: Mapped<T, Self, F>) where Self: Sized
        ensures
            p == Mapped(f, self, PhantomData::<T>),
    {
        Mapped(f, self, PhantomData)
    }

    /// This parser, with the cursor put back where it was when it fails.
    fn attempt(self) -> (p: Attempt<Self>) where Self: Sized
        ensures
            p == Attempt(self),
    {
        Attempt(self)
    }

    /// This parser, with `x` as the output in place of its own.
    fn val<T: Clone>(self, x: T) -> (p: With<Self, Val<T, Self::Input>>) where Self: Sized
        ensures
            p == With(self, Val(x, PhantomData::<Self::Input>)),
    {
        With(self, Val(x, PhantomData))
    }

    /// This parser, or nothing where it fails without consuming.
    fn optional(self) -> (p: Optional<Self>) where Self: Sized
        ensures
            p == Optional(self),
    {
        Optional(self)
    }

    /// This parser as often as it matches.
    fn many(self) -> (p: Loop<Self>) where Self: Sized
        ensures
            p == Loop(self, None, None),
    {
        Loop(self, None, None)
    }

    /// This parser as often as it matches, and once at least.
    fn many1(self) -> (p: Loop<Self>) where Self: Sized
        ensures
            p == Loop(self, Some(1usize), None),
    {
        Loop(self, Some(1), None)
    }

    /// This parser exactly `n` times.
    fn many_n(self, n: usize) -> (p: Loop<Self>) where Self: Sized
        ensures
            p == Loop(self, Some(n), Some(n)),
    {
        Loop(self, Some(n), Some(n))
    }

    /// This parser, with `msg` as what its errors say was expected.
    fn msg(self, msg: ErrorExpect<Self::Input>) -> (p: Msg<Self>) where
        Self: Sized,
        Self::Input: Copy,

        ensures
            p == Msg(self, msg),
    {
        Msg(self, msg)
    }

    /// This parser on the heap.
    fn boxed(self) -> (p: Box<Self>) where Self: Sized
        ensures
            *p == self,
    {
        Box::new(self)
    }
}

/// The methods that join a parser with a second one. Every parser has them.
pub trait Compose: Parser + Sized {
    /// This parser, or else `x` where this one fails without consuming.
    fn or<T: Parser<Input = Self::Input, Output = Self::Output>>(self, x: T) -> (p: Or<
        Self,
        T,
    >)
        ensures
            p == Or(self, x),
    {
        Or(self, x)
    }

    /// This parser and then `x`; both outputs.
    fn and<T: Parser<Input = Self::Input>>(self, x: T) -> (p: And<Self, T>)
        ensures
            p == And(self, x),
    {
        And(self, x)
    }

    /// This parser and then `x`; the output of `x`.
    fn with<T: Parser<Input = Self::Input>>(self, x: T) -> (p: With<Self, T>)
        ensures
            p == With(self, x),
    {
        With(self, x)
    }

    /// This parser and then `x`; the output of this one.
    fn skip<T: Parser<Input = Self::Input>>(self, x: T) -> (p: Skip<Self, T>)
        ensures
            p == Skip(self, x),
    {
        Skip(self, x)
    }

    /// This parser, and then the parser that `f` makes of its output.
    fn then<F: Fn(Self::Output) -> B, B: Parser<Input = Self::Input>>(self, f: F) -> (p: Then<
        Self,
        F,
        B,
    >)
        ensures
            p == Then(self, f, PhantomData::<B>),
    {
        Then(self, f, PhantomData)
    }
}

impl<P: Parser> Compose for P {
}

impl<A: Parser> Parser for Box<A> {
    type Input = A::Input;

    type Output = A::Output;

    open spec fn wf(&self) -> bool {
        (**self).wf()
    }

    open spec fn parses(
        &self,
        input: Seq<Self::Input>,
        start: nat,
        res: ParserResult<Self::Output, Self::Input>,
        end: nat,
    ) -> bool {
        (**self).parses(input, start, res, end)
    }

    fn parse(&self, st: &mut Stream<Self::Input>) -> (res: ParserResult<
        Self::Output,
        Self::Input,
    >) {
        (**self).parse(st)
    }
}

impl<A: Parser> Parser for &A {
    type Input = A::Input;

    type Output = A::Output;

    open spec fn wf(&self) -> bool {
        (**self).wf()
    }

    open spec fn parses(
        &self,
        input: Seq<Self::Input>,
        start: nat,
        res: ParserResult<Self::Output, Self::Input>,
        end: nat,
    ) -> bool {
        (**self).parses(input, start, res, end)
    }

    fn parse(&self, st: &mut Stream<Self::Input>) -> (res: ParserResult<
        Self::Output,
        Self::Input,
    >) {
        (**self).parse(st)
    }
}

impl<A: Parser> Parser for &mut A {
    type Input = A::Input;

    type Output = A::Output;

    open spec fn wf(&self) -> bool {
        (**self).wf()
    }

    open spec fn parses(
        &self,
        input: Seq<Self::Input>,
        start: nat,
        res: ParserResult<Self::Output, Self::Input>,
        end: nat,
    ) -> bool {
        (**self).parses(input, start, res, end)
    }

    fn parse(&self, st: &mut Stream<Self::Input>) -> (res: ParserResult<
        Self::Output,
        Self::Input,
    >) {
        (**self).parse(st)
    }
}

} // verus!
