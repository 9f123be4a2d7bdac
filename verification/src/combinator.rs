//! The parsers that are built from other parsers.
use vstd::prelude::*;
use crate::error::{ErrorExpect, ParserError, ParserResult};
use crate::parser::Parser;
use crate::stream::Stream;
use std::marker::PhantomData;

verus! {

/// Runs a parser and, if it fails, puts the cursor back where it was.
#[derive(Clone, Debug)]
pub struct Attempt<T: Parser>(pub T);

impl<T: Parser> Attempt<T> {
    /// Builds the parser from its parts.
    pub fn new(x: T) -> (p: Self)
        ensures
            p == Attempt(x),
    {
        Attempt(x)
    }
}

impl<T: Parser> Parser for Attempt<T> {
    type Input = T::Input;

    type Output = T::Output;

    open spec fn wf(&self) -> bool {
        self.0.wf()
    }

    /// A success of the inner parser as it is. A failure of it with the
    /// same error, but with the cursor back on `start`.
    open spec fn parses(
        &self,
        input: Seq<Self::Input>,
        start: nat,
        res: ParserResult<Self::Output, Self::Input>,
        end: nat,
    ) -> bool {
        match res {
            Ok(_) => self.0.parses(input, start, res, end),
            Err(_) => end == start && exists|mid: nat| self.0.parses(input, start, res, mid),
        }
    }

    fn parse(&self, st: &mut Stream<T::Input>) -> (res: ParserResult<T::Output, T::Input>)
        ensures
            res is Err ==> final(st).cursor() == old(st).cursor(),
    {
        let pos: usize = st.pos();
        let res = self.0.parse(st);
        if let Err(_) = res {
            st.set_pos(pos);
        }
        res
    }
}

/// Applies a function to what a parser yields.
#[derive(Clone, Debug)]
#[verifier::reject_recursive_types(O)]
#[verifier::reject_recursive_types(T)]
pub struct Mapped<O, T: Parser, F: Fn(T::Output) -> O>(pub F, pub T, pub PhantomData<O>);

impl<O, T: Parser, F: Fn(T::Output) -> O> Mapped<O, T, F> {
    /// Builds the parser from its parts.
    pub fn new(f: F, x: T) -> (p: Self)
        ensures
            p == Mapped(f, x, PhantomData::<O>),
    {
        Mapped(f, x, PhantomData)
    }
}

impl<O, T: Parser, F: Fn(T::Output) -> O> Parser for Mapped<O, T, F> {
    type Input = T::Input;

    type Output = O;

    /// The function may be called on whatever the inner parser yields.
    open spec fn wf(&self) -> bool {
        &&& self.1.wf()
        &&& forall|input: Seq<T::Input>, start: nat, x: T::Output, end: nat| #[trigger]
            self.1.parses(input, start, Ok(x), end) ==> self.0.requires((x,))
    }

    /// A success of the inner parser with the function's answer in place of
    /// the output. A failure of it as it is.
    open spec fn parses(
        &self,
        input: Seq<Self::Input>,
        start: nat,
        res: ParserResult<Self::Output, Self::Input>,
        end: nat,
    ) -> bool {
        match res {
            Ok(y) => exists|x: T::Output| #[trigger]
                self.1.parses(input, start, Ok(x), end) && self.0.ensures((x,), y),
            Err(e) => self.1.parses(input, start, Err(e), end),
        }
    }

    fn parse(&self, st: &mut Stream<Self::Input>) -> (res: ParserResult<
        Self::Output,
        Self::Input,
    >) {
        match self.1.parse(st) {
            Ok(x) => Ok((self.0)(x)),
            Err(e) => Err(e),
        }
    }
}

/// Ordered choice: the second parser is tried only where the first fails
/// without having moved the cursor.
#[derive(Clone, Debug)]
pub struct Or<A: Parser, B: Parser<Input = A::Input, Output = A::Output>>(pub A, pub B);

impl<A: Parser, B: Parser<Input = A::Input, Output = A::Output>> Or<A, B> {
    /// Builds the parser from its parts.
    pub fn new(a: A, b: B) -> (p: Self)
        ensures
            p == Or(a, b),
    {
        Or(a, b)
    }
}

impl<A: Parser, B: Parser<Input = A::Input, Output = A::Output>> Parser for Or<A, B> {
    type Input = A::Input;

    type Output = B::Output;

    open spec fn wf(&self) -> bool {
        self.0.wf() && self.1.wf()
    }

    /// A success of the first parser; or a failure of it that moved the
    /// cursor, as it is; or, after a failure of it on the spot, whatever
    /// the second parser does from `start`.
    open spec fn parses(
        &self,
        input: Seq<Self::Input>,
        start: nat,
        res: ParserResult<Self::Output, Self::Input>,
        end: nat,
    ) -> bool {
        ||| res is Ok && self.0.parses(input, start, res, end)
        ||| res is Err && end != start && self.0.parses(input, start, res, end)
        ||| self.1.parses(input, start, res, end) && exists|e: ParserError<A::Input>| #[trigger]
            self.0.parses(input, start, Err(e), start)
    }

    fn parse(&self, st: &mut Stream<Self::Input>) -> (res: ParserResult<
        Self::Output,
        Self::Input,
    >) {
        let pos: usize = st.pos();
        match self.0.parse(st) {
            Err(e) => {
                if pos == st.pos() {
                    self.1.parse(st)
                } else {
                    Err(e)
                }
            },
            Ok(x) => Ok(x),
        }
    }
}

/// Two parsers in a row; both outputs.
#[derive(Clone, Debug)]
pub struct And<A: Parser, B: Parser<Input = A::Input>>(pub A, pub B);

impl<A: Parser, B: Parser<Input = A::Input>> And<A, B> {
    /// Builds the parser from its parts.
    pub fn new(a: A, b: B) -> (p: Self)
        ensures
            p == And(a, b),
    {
        And(a, b)
    }
}

/// `first` and then `second` over `input` from `start` both succeed:
/// `first` yields `a` and leaves the cursor where `second` begins, `second`
/// yields `b` and leaves it on `end`.
pub open spec fn both_succeed<A: Parser, B: Parser<Input = A::Input>>(
    first: A,
    second: B,
    input: Seq<A::Input>,
    start: nat,
    a: A::Output,
    b: B::Output,
    end: nat,
) -> bool {
    exists|mid: nat| #[trigger]
        first.parses(input, start, Ok(a), mid) && second.parses(input, mid, Ok(b), end)
}

/// `first` and then `second` over `input` from `start` stop with the error
/// `e` of the one that fails first, the cursor on `end`, where that one left
/// it: `second` is not run after a failure of `first`.
pub open spec fn one_fails<A: Parser, B: Parser<Input = A::Input>>(
    first: A,
    second: B,
    input: Seq<A::Input>,
    start: nat,
    e: ParserError<A::Input>,
    end: nat,
) -> bool {
    ||| first.parses(input, start, Err(e), end)
    ||| exists|a: A::Output, mid: nat| #[trigger]
        first.parses(input, start, Ok(a), mid) && second.parses(input, mid, Err(e), end)
}

impl<A: Parser, B: Parser<Input = A::Input>> Parser for And<A, B> {
    type Input = A::Input;

    type Output = (A::Output, B::Output);

    open spec fn wf(&self) -> bool {
        self.0.wf() && self.1.wf()
    }

    open spec fn parses(
        &self,
        input: Seq<Self::Input>,
        start: nat,
        res: ParserResult<Self::Output, Self::Input>,
        end: nat,
    ) -> bool {
        match res {
            Ok(both) => both_succeed(self.0, self.1, input, start, both.0, both.1, end),
            Err(e) => one_fails(self.0, self.1, input, start, e, end),
        }
    }

    fn parse(&self, st: &mut Stream<Self::Input>) -> (res: ParserResult<
        Self::Output,
        Self::Input,
    >) {
        match self.0.parse(st) {
            Err(e) => Err(e),
            Ok(a) => match self.1.parse(st) {
                Err(e) => Err(e),
                Ok(b) => {
                    proof {
                        assert(both_succeed(
                            self.0,
                            self.1,
                            old(st).tokens(),
                            old(st).cursor(),
                            a,
                            b,
                            st.cursor(),
                        ));
                    }
                    Ok((a, b))
                },
            },
        }
    }
}

/// Two parsers in a row; the output of the second.
#[derive(Clone, Debug)]
pub struct With<A: Parser, B: Parser<Input = A::Input>>(pub A, pub B);

impl<A: Parser, B: Parser<Input = A::Input>> With<A, B> {
    /// Builds the parser from its parts.
    pub fn new(a: A, b: B) -> (p: Self)
        ensures
            p == With(a, b),
    {
        With(a, b)
    }
}

impl<A: Parser, B: Parser<Input = A::Input>> Parser for With<A, B> {
    type Input = A::Input;

    type Output = B::Output;

    open spec fn wf(&self) -> bool {
        self.0.wf() && self.1.wf()
    }

    /// The sequence of the two, with the first output dropped.
    open spec fn parses(
        &self,
        input: Seq<Self::Input>,
        start: nat,
        res: ParserResult<Self::Output, Self::Input>,
        end: nat,
    ) -> bool {
        match res {
            Ok(b) => exists|a: A::Output| #[trigger]
                both_succeed(self.0, self.1, input, start, a, b, end),
            Err(e) => one_fails(self.0, self.1, input, start, e, end),
        }
    }

    fn parse(&self, st: &mut Stream<Self::Input>) -> (res: ParserResult<
        Self::Output,
        Self::Input,
    >) {
        match self.0.parse(st) {
            Err(e) => Err(e),
            Ok(a) => match self.1.parse(st) {
                Err(e) => Err(e),
                Ok(b) => {
                    proof {
                        assert(both_succeed(
                            self.0,
                            self.1,
                            old(st).tokens(),
                            old(st).cursor(),
                            a,
                            b,
                            st.cursor(),
                        ));
                    }
                    Ok(b)
                },
            },
        }
    }
}

/// Two parsers in a row; the output of the first.
#[derive(Clone, Debug)]
pub struct Skip<A: Parser, B: Parser<Input = A::Input>>(pub A, pub B);

impl<A: Parser, B: Parser<Input = A::Input>> Skip<A, B> {
    /// Builds the parser from its parts.
    pub fn new(a: A, b: B) -> (p: Self)
        ensures
            p == Skip(a, b),
    {
        Skip(a, b)
    }
}

impl<A: Parser, B: Parser<Input = A::Input>> Parser for Skip<A, B> {
    type Input = A::Input;

    type Output = A::Output;

    open spec fn wf(&self) -> bool {
        self.0.wf() && self.1.wf()
    }

    /// The sequence of the two, with the second output dropped.
    open spec fn parses(
        &self,
        input: Seq<Self::Input>,
        start: nat,
        res: ParserResult<Self::Output, Self::Input>,
        end: nat,
    ) -> bool {
        match res {
            Ok(a) => exists|b: B::Output| #[trigger]
                both_succeed(self.0, self.1, input, start, a, b, end),
            Err(e) => one_fails(self.0, self.1, input, start, e, end),
        }
    }

    fn parse(&self, st: &mut Stream<Self::Input>) -> (res: ParserResult<
        Self::Output,
        Self::Input,
    >) {
        match self.0.parse(st) {
            Err(e) => Err(e),
            Ok(a) => match self.1.parse(st) {
                Err(e) => Err(e),
                Ok(b) => {
                    proof {
                        assert(both_succeed(
                            self.0,
                            self.1,
                            old(st).tokens(),
                            old(st).cursor(),
                            a,
                            b,
                            st.cursor(),
                        ));
                    }
                    Ok(a)
                },
            },
        }
    }
}

/// A parser that may match or be absent.
#[derive(Clone, Debug)]
pub struct Optional<A: Parser>(pub A);

impl<A: Parser> Optional<A> {
    /// Builds the parser from its parts.
    pub fn new(a: A) -> (p: Self)
        ensures
            p == Optional(a),
    {
        Optional(a)
    }
}

impl<A: Parser> Parser for Optional<A> {
    type Input = A::Input;

    type Output = Option<A::Output>;

    open spec fn wf(&self) -> bool {
        self.0.wf()
    }

    /// A success of the inner parser gives its output as present. A failure
    /// of it on the spot gives an absent output, and no error. A failure
    /// that moved the cursor stays the error it is.
    open spec fn parses(
        &self,
        input: Seq<Self::Input>,
        start: nat,
        res: ParserResult<Self::Output, Self::Input>,
        end: nat,
    ) -> bool {
        match res {
            Ok(Some(x)) => self.0.parses(input, start, Ok(x), end),
            Ok(None) => end == start && exists|e: ParserError<A::Input>| #[trigger]
                self.0.parses(input, start, Err(e), start),
            Err(e) => end != start && self.0.parses(input, start, Err(e), end),
        }
    }

    fn parse(&self, st: &mut Stream<Self::Input>) -> (res: ParserResult<
        Self::Output,
        Self::Input,
    >) {
        let pos: usize = st.pos();
        match self.0.parse(st) {
            Err(e) => {
                if pos == st.pos() {
                    Ok(None)
                } else {
                    Err(e)
                }
            },
            Ok(x) => Ok(Some(x)),
        }
    }
}

/// Replaces what the errors of a parser say was expected.
#[derive(Clone, Debug)]
pub struct Msg<A: Parser>(pub A, pub ErrorExpect<A::Input>);

impl<A: Parser> Msg<A> where A::Input: Copy {
    /// Builds the parser from its parts.
    pub fn new(a: A, msg: ErrorExpect<A::Input>) -> (p: Self)
        ensures
            p == Msg(a, msg),
    {
        Msg(a, msg)
    }
}

impl<A: Parser> Parser for Msg<A> where A::Input: Copy {
    type Input = A::Input;

    type Output = A::Output;

    open spec fn wf(&self) -> bool {
        self.0.wf()
    }

    /// A success of the inner parser as it is. A failure of it with the
    /// same position and the same unexpected token, and with the held
    /// expectation in place of its own.
    open spec fn parses(
        &self,
        input: Seq<Self::Input>,
        start: nat,
        res: ParserResult<Self::Output, Self::Input>,
        end: nat,
    ) -> bool {
        match res {
            Ok(x) => self.0.parses(input, start, Ok(x), end),
            Err(e) => e.expecting == self.1 && exists|inner: ParserError<A::Input>| #[trigger]
                self.0.parses(input, start, Err(inner), end) && inner.pos == e.pos
                    && inner.unexpected == e.unexpected,
        }
    }

    fn parse(&self, st: &mut Stream<Self::Input>) -> (res: ParserResult<
        Self::Output,
        Self::Input,
    >) {
        match self.0.parse(st) {
            Ok(x) => Ok(x),
            Err(e) => Err(ParserError::new(e.pos, e.unexpected, self.1)),
        }
    }
}

/// Runs a parser, and then the parser that a function makes of its output.
#[derive(Clone, Debug)]
#[verifier::reject_recursive_types(A)]
#[verifier::reject_recursive_types(B)]
pub struct Then<A: Parser, F: Fn(A::Output) -> B, B: Parser<Input = A::Input>>(
    pub A,
    pub F,
    pub PhantomData<B>,
);

impl<A: Parser, F: Fn(A::Output) -> B, B: Parser<Input = A::Input>> Then<A, F, B> {
    /// Builds the parser from its parts.
    pub fn new(a: A, f: F) -> (p: Self)
        ensures
            p == Then(a, f, PhantomData::<B>),
    {
        Then(a, f, PhantomData)
    }
}

impl<A: Parser, F: Fn(A::Output) -> B, B: Parser<Input = A::Input>> Parser for Then<A, F, B> {
    type Input = A::Input;

    type Output = B::Output;

    /// The function may be called on whatever the first parser yields, and
    /// every parser it makes can be run.
    open spec fn wf(&self) -> bool {
        &&& self.0.wf()
        &&& forall|input: Seq<A::Input>, start: nat, x: A::Output, end: nat| #[trigger]
            self.0.parses(input, start, Ok(x), end) ==> self.1.requires((x,))
        &&& forall|x: A::Output, next: B| #[trigger] self.1.ensures((x,), next) ==> next.wf()
    }

    /// A failure of the first parser as it is. After a success of it,
    /// whatever the parser made of its output does from where it stopped.
    open spec fn parses(
        &self,
        input: Seq<Self::Input>,
        start: nat,
        res: ParserResult<Self::Output, Self::Input>,
        end: nat,
    ) -> bool {
        ||| res matches Err(e) && self.0.parses(input, start, Err(e), end)
        ||| exists|x: A::Output, mid: nat, next: B|
            {
                &&& #[trigger] self.0.parses(input, start, Ok(x), mid)
                &&& #[trigger] self.1.ensures((x,), next)
                &&& next.parses(input, mid, res, end)
            }
    }

    fn parse(&self, st: &mut Stream<Self::Input>) -> (res: ParserResult<
        Self::Output,
        Self::Input,
    >) {
        match self.0.parse(st) {
            Ok(x) => {
                let next = (self.1)(x);
                next.parse(st)
            },
            Err(e) => Err(e),
        }
    }
}

/// One of two parsers of different types that read the same tokens and yield
/// the same output.
#[derive(Clone, Debug)]
pub enum Either<A: Parser, B: Parser<Input = A::Input, Output = A::Output>> {
    Right(A),
    Left(B),
}

impl<A: Parser, B: Parser<Input = A::Input, Output = A::Output>> Parser for Either<A, B> {
    type Input = A::Input;

    type Output = A::Output;

    open spec fn wf(&self) -> bool {
        match self {
            Either::Right(x) => x.wf(),
            Either::Left(x) => x.wf(),
        }
    }

    /// What the parser it holds does.
    open spec fn parses(
        &self,
        input: Seq<Self::Input>,
        start: nat,
        res: ParserResult<Self::Output, Self::Input>,
        end: nat,
    ) -> bool {
        match self {
            Either::Right(x) => x.parses(input, start, res, end),
            Either::Left(x) => x.parses(input, start, res, end),
        }
    }

    fn parse(&self, st: &mut Stream<Self::Input>) -> (res: ParserResult<
        Self::Output,
        Self::Input,
    >) {
        match self {
            Either::Right(x) => x.parse(st),
            Either::Left(x) => x.parse(st),
        }
    }
}

} // verus!
