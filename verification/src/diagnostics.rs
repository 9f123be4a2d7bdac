//! What the errors of the parsers say. An error shows the token that stood
//! at its position. And unless `attempt` has put the cursor back, a failed
//! parser leaves the cursor on the position of its error.
use vstd::prelude::*;
use vstd::std_specs::cmp::PartialEqSpec;
use crate::combinator::{And, Attempt, Either, Mapped, Msg, Optional, Or, Skip, Then, With};
use crate::error::{token_at, ErrorExpect, ParserError, ParserResult};
use crate::parser::Parser;
use crate::primitive::{stops_after, AnyOne, Eof, Expect, Fail, ParserFunc, Token, Tokens, Val};
use crate::repetition::{repetition, Loop};
use crate::stream::Stream;
use std::marker::PhantomData;

verus! {

/// Every error of `p` shows as unexpected the token of the input at the
/// error's position, or none where that position is the end of the input.
pub open spec fn shows_what_it_found<P: Parser>(p: P) -> bool {
    forall|input: Seq<P::Input>, start: nat, e: ParserError<P::Input>, end: nat| #[trigger]
        p.parses(input, start, Err(e), end) ==> e.unexpected == token_at(input, e.pos as nat)
}

/// Whenever `p` fails, the cursor stays on the position of the error.
pub open spec fn stays_on_its_error<P: Parser>(p: P) -> bool {
    forall|input: Seq<P::Input>, start: nat, e: ParserError<P::Input>, end: nat| #[trigger]
        p.parses(input, start, Err(e), end) ==> e.pos == end
}

/// The errors of `any_one` are exact.
pub proof fn any_one_errors<T: Copy>(p: AnyOne<T>)
    ensures
        shows_what_it_found(p),
        stays_on_its_error(p),
{
}

/// The errors of `eof` are exact.
pub proof fn eof_errors<T: Copy>(p: Eof<T>)
    ensures
        shows_what_it_found(p),
        stays_on_its_error(p),
{
}

/// `val` has no errors.
pub proof fn val_errors<T: Clone, I>(p: Val<T, I>)
    ensures
        shows_what_it_found(p),
        stays_on_its_error(p),
{
}

/// The errors of `fail` are exact.
pub proof fn fail_errors<A: Copy, B>(p: Fail<A, B>)
    ensures
        shows_what_it_found(p),
        stays_on_its_error(p),
{
}

/// The errors of `token` are exact.
pub proof fn token_errors<T: Copy + PartialEq>(p: Token<T>)
    ensures
        shows_what_it_found(p),
        stays_on_its_error(p),
{
}

/// The errors of `tokens` are exact.
pub proof fn tokens_errors<T: Copy + PartialEq>(p: Tokens<T>)
    ensures
        shows_what_it_found(p),
        stays_on_its_error(p),
{
    assert forall|input: Seq<T>, start: nat, e: ParserError<T>, end: nat| #[trigger]
        p.parses(input, start, Err(e), end) implies e.unexpected == token_at(input, e.pos as nat)
        && e.pos == end by {
        let k = choose|k: int| #[trigger]
            stops_after(p.0@, input, start, k, Err::<Vec<T>, ParserError<T>>(e), end);
    }
}

/// The errors of `expect` are exact.
pub proof fn expect_errors<T: Copy, F: Fn(&T) -> bool>(p: Expect<T, F>)
    ensures
        shows_what_it_found(p),
        stays_on_its_error(p),
{
}

/// The errors of `parser_func` are as exact as those its function answers
/// with.
pub proof fn parser_func_errors<F: Fn(&Stream<A>) -> (ParserResult<B, A>, usize), A, B>(
    p: ParserFunc<F, A, B>,
)
    requires
        forall|st: &Stream<A>, out: (ParserResult<B, A>, usize)| #[trigger]
            p.0.ensures((st,), out) ==> (out.0 matches Err(e) ==> e.pos == out.1 && e.unexpected
                == token_at(st.tokens(), e.pos as nat)),
    ensures
        shows_what_it_found(p),
        stays_on_its_error(p),
{
}

/// `attempt` keeps what the errors show; it is the one parser that moves
/// the cursor off the error.
pub proof fn attempt_errors<P: Parser>(p: P)
    ensures
        shows_what_it_found(p) ==> shows_what_it_found(Attempt(p)),
{
}

/// `map` keeps the errors of its parser.
pub proof fn map_errors<O, P: Parser, F: Fn(P::Output) -> O>(f: F, p: P)
    ensures
        shows_what_it_found(p) ==> shows_what_it_found(Mapped(f, p, PhantomData::<O>)),
        stays_on_its_error(p) ==> stays_on_its_error(Mapped(f, p, PhantomData::<O>)),
{
}

/// `msg` keeps position and unexpected token of the errors of its parser.
pub proof fn msg_errors<P: Parser>(p: P, msg: ErrorExpect<P::Input>) where P::Input: Copy
    ensures
        shows_what_it_found(p) ==> shows_what_it_found(Msg(p, msg)),
        stays_on_its_error(p) ==> stays_on_its_error(Msg(p, msg)),
{
}

/// `optional` keeps the errors of its parser.
pub proof fn optional_errors<P: Parser>(p: P)
    ensures
        shows_what_it_found(p) ==> shows_what_it_found(Optional(p)),
        stays_on_its_error(p) ==> stays_on_its_error(Optional(p)),
{
}

/// The errors of `or` are those of its two parsers.
pub proof fn or_errors<A: Parser, B: Parser<Input = A::Input, Output = A::Output>>(a: A, b: B)
    ensures
        shows_what_it_found(a) && shows_what_it_found(b) ==> shows_what_it_found(Or(a, b)),
        stays_on_its_error(a) && stays_on_its_error(b) ==> stays_on_its_error(Or(a, b)),
{
}

/// The errors of `and` are those of its two parsers.
pub proof fn and_errors<A: Parser, B: Parser<Input = A::Input>>(a: A, b: B)
    ensures
        shows_what_it_found(a) && shows_what_it_found(b) ==> shows_what_it_found(And(a, b)),
        stays_on_its_error(a) && stays_on_its_error(b) ==> stays_on_its_error(And(a, b)),
{
}

/// The errors of `with` are those of its two parsers.
pub proof fn with_errors<A: Parser, B: Parser<Input = A::Input>>(a: A, b: B)
    ensures
        shows_what_it_found(a) && shows_what_it_found(b) ==> shows_what_it_found(With(a, b)),
        stays_on_its_error(a) && stays_on_its_error(b) ==> stays_on_its_error(With(a, b)),
{
}

/// The errors of `skip` are those of its two parsers.
pub proof fn skip_errors<A: Parser, B: Parser<Input = A::Input>>(a: A, b: B)
    ensures
        shows_what_it_found(a) && shows_what_it_found(b) ==> shows_what_it_found(Skip(a, b)),
        stays_on_its_error(a) && stays_on_its_error(b) ==> stays_on_its_error(Skip(a, b)),
{
}

/// The errors of `then` are those of its parser and of the parsers that its
/// function makes.
pub proof fn then_errors<A: Parser, F: Fn(A::Output) -> B, B: Parser<Input = A::Input>>(a: A, f: F)
    ensures
        shows_what_it_found(a) && (forall|x: A::Output, next: B| #[trigger]
            f.ensures((x,), next) ==> shows_what_it_found(next)) ==> shows_what_it_found(
            Then(a, f, PhantomData::<B>),
        ),
        stays_on_its_error(a) && (forall|x: A::Output, next: B| #[trigger]
            f.ensures((x,), next) ==> stays_on_its_error(next)) ==> stays_on_its_error(
            Then(a, f, PhantomData::<B>),
        ),
{
}

/// The errors of `Either` are those of the parser it holds.
pub proof fn either_errors<A: Parser, B: Parser<Input = A::Input, Output = A::Output>>(
    p: Either<A, B>,
)
    ensures
        (match p {
            Either::Right(x) => shows_what_it_found(x),
            Either::Left(x) => shows_what_it_found(x),
        }) ==> shows_what_it_found(p),
        (match p {
            Either::Right(x) => stays_on_its_error(x),
            Either::Left(x) => stays_on_its_error(x),
        }) ==> stays_on_its_error(p),
{
}

/// The errors of a boxed parser are those of the parser in the box.
pub proof fn boxed_errors<P: Parser>(p: Box<P>)
    ensures
        shows_what_it_found(*p) ==> shows_what_it_found(p),
        stays_on_its_error(*p) ==> stays_on_its_error(p),
{
}

/// The errors of a repetition are those of its element.
pub proof fn loop_errors<P: Parser>(p: P, min: Option<usize>, max: Option<usize>)
    ensures
        shows_what_it_found(p) ==> shows_what_it_found(Loop(p, min, max)),
        stays_on_its_error(p) ==> stays_on_its_error(Loop(p, min, max)),
{
    let whole = Loop(p, min, max);
    assert forall|input: Seq<P::Input>, start: nat, e: ParserError<P::Input>, end: nat| #[trigger]
        whole.parses(input, start, Err(e), end) implies (shows_what_it_found(p) ==> e.unexpected
        == token_at(input, e.pos as nat)) && (stays_on_its_error(p) ==> e.pos == end) by {
        let (outs, mid) = choose|outs: Seq<P::Output>, mid: nat| #[trigger]
            repetition(
                p,
                min,
                max,
                input,
                start,
                outs,
                mid,
                Err::<Vec<P::Output>, ParserError<P::Input>>(e),
                end,
            );
    }
}

} // verus!
