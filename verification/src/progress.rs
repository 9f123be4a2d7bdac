//! How the parsers move the cursor: never backwards, and which of them
//! never succeed without moving it. The second is what a repetition without
//! a maximum asks of its element.
use vstd::prelude::*;
use vstd::std_specs::cmp::PartialEqSpec;
use crate::combinator::{And, Attempt, Either, Mapped, Msg, Optional, Or, Skip, Then, With};
use crate::error::{ErrorExpect, ParserResult};
use crate::parser::Parser;
use crate::primitive::{stops_after, AnyOne, Eof, Expect, Fail, ParserFunc, Token, Tokens, Val};
use crate::repetition::{consuming, repeats, repetition, Loop};
use crate::stream::Stream;
use std::marker::PhantomData;

verus! {

/// `p` never leaves the cursor before the position it started on.
pub open spec fn advancing<P: Parser>(p: P) -> bool {
    forall|input: Seq<P::Input>, start: nat, res: ParserResult<P::Output, P::Input>, end: nat|
     #[trigger]
        p.parses(input, start, res, end) ==> end >= start
}

/// `any_one` never moves the cursor backwards, and consumes when it succeeds.
pub proof fn any_one_advances<T: Copy>(p: AnyOne<T>)
    ensures
        advancing(p),
        consuming(p),
{
}

/// `eof` never moves the cursor.
pub proof fn eof_advances<T: Copy>(p: Eof<T>)
    ensures
        advancing(p),
{
}

/// `val` never moves the cursor.
pub proof fn val_advances<T: Clone, I>(p: Val<T, I>)
    ensures
        advancing(p),
{
}

/// `fail` never moves the cursor, and is consuming because it never succeeds.
pub proof fn fail_advances<A: Copy, B>(p: Fail<A, B>)
    ensures
        advancing(p),
        consuming(p),
{
}

/// `token` never moves the cursor backwards, and consumes when it succeeds.
pub proof fn token_advances<T: Copy + PartialEq>(p: Token<T>)
    ensures
        advancing(p),
        consuming(p),
{
}

/// `tokens` never moves the cursor backwards, and consumes when it succeeds
/// unless its pattern is empty.
pub proof fn tokens_advances<T: Copy + PartialEq>(p: Tokens<T>)
    ensures
        advancing(p),
        p.0@.len() > 0 ==> consuming(p),
{
    assert forall|input: Seq<T>, start: nat, res: ParserResult<Vec<T>, T>, end: nat| #[trigger]
        p.parses(input, start, res, end) implies end >= start && (p.0@.len() > 0 && res is Ok
        ==> end > start) by {
        let k = choose|k: int| #[trigger] stops_after(p.0@, input, start, k, res, end);
    }
}

/// `expect` never moves the cursor backwards, and consumes when it succeeds.
pub proof fn expect_advances<T: Copy, F: Fn(&T) -> bool>(p: Expect<T, F>)
    ensures
        advancing(p),
        consuming(p),
{
}

/// `parser_func` never moves the cursor backwards where its function never
/// answers with a position before the cursor.
pub proof fn parser_func_advances<F: Fn(&Stream<A>) -> (ParserResult<B, A>, usize), A, B>(
    p: ParserFunc<F, A, B>,
)
    requires
        forall|st: &Stream<A>, out: (ParserResult<B, A>, usize)| #[trigger]
            p.0.ensures((st,), out) ==> out.1 >= st.cursor(),
    ensures
        advancing(p),
{
}

/// `attempt` keeps both properties of its parser.
pub proof fn attempt_advances<P: Parser>(p: P)
    ensures
        advancing(p) ==> advancing(Attempt(p)),
        consuming(p) ==> consuming(Attempt(p)),
{
}

/// `map` keeps both properties of its parser.
pub proof fn map_advances<O, P: Parser, F: Fn(P::Output) -> O>(f: F, p: P)
    ensures
        advancing(p) ==> advancing(Mapped(f, p, PhantomData::<O>)),
        consuming(p) ==> consuming(Mapped(f, p, PhantomData::<O>)),
{
}

/// `msg` keeps both properties of its parser.
pub proof fn msg_advances<P: Parser>(p: P, msg: ErrorExpect<P::Input>) where P::Input: Copy
    ensures
        advancing(p) ==> advancing(Msg(p, msg)),
        consuming(p) ==> consuming(Msg(p, msg)),
{
}

/// `optional` never moves the cursor backwards where its parser never does.
pub proof fn optional_advances<P: Parser>(p: P)
    ensures
        advancing(p) ==> advancing(Optional(p)),
{
}

/// `or` keeps a property that both of its parsers have.
pub proof fn or_advances<A: Parser, B: Parser<Input = A::Input, Output = A::Output>>(a: A, b: B)
    ensures
        advancing(a) && advancing(b) ==> advancing(Or(a, b)),
        consuming(a) && consuming(b) ==> consuming(Or(a, b)),
{
}

/// A sequence of two parsers that never move the cursor backwards never
/// does so either, and consumes when it succeeds if one of the two does.
pub proof fn and_advances<A: Parser, B: Parser<Input = A::Input>>(a: A, b: B)
    ensures
        advancing(a) && advancing(b) ==> advancing(And(a, b)),
        advancing(a) && advancing(b) && (consuming(a) || consuming(b)) ==> consuming(And(a, b)),
{
}

/// What holds of `and` holds of `with`.
pub proof fn with_advances<A: Parser, B: Parser<Input = A::Input>>(a: A, b: B)
    ensures
        advancing(a) && advancing(b) ==> advancing(With(a, b)),
        advancing(a) && advancing(b) && (consuming(a) || consuming(b)) ==> consuming(With(a, b)),
{
}

/// What holds of `and` holds of `skip`.
pub proof fn skip_advances<A: Parser, B: Parser<Input = A::Input>>(a: A, b: B)
    ensures
        advancing(a) && advancing(b) ==> advancing(Skip(a, b)),
        advancing(a) && advancing(b) && (consuming(a) || consuming(b)) ==> consuming(Skip(a, b)),
{
}

/// `then` never moves the cursor backwards where neither its parser nor any
/// parser that its function makes does.
pub proof fn then_advances<A: Parser, F: Fn(A::Output) -> B, B: Parser<Input = A::Input>>(
    a: A,
    f: F,
)
    requires
        advancing(a),
        forall|x: A::Output, next: B| #[trigger] f.ensures((x,), next) ==> advancing(next),
    ensures
        advancing(Then(a, f, PhantomData::<B>)),
        consuming(a) ==> consuming(Then(a, f, PhantomData::<B>)),
{
}

/// `Either` has the properties of the parser it holds.
pub proof fn either_advances<A: Parser, B: Parser<Input = A::Input, Output = A::Output>>(
    p: Either<A, B>,
)
    ensures
        (match p {
            Either::Right(x) => advancing(x),
            Either::Left(x) => advancing(x),
        }) ==> advancing(p),
        (match p {
            Either::Right(x) => consuming(x),
            Either::Left(x) => consuming(x),
        }) ==> consuming(p),
{
}

/// A boxed parser has the properties of the parser in the box.
pub proof fn boxed_advances<P: Parser>(p: Box<P>)
    ensures
        advancing(*p) ==> advancing(p),
        consuming(*p) ==> consuming(p),
{
}

/// A run of successes of a parser that never moves the cursor backwards
/// ends at or behind its start; where each success consumes, it ends as many
/// tokens behind its start, at least, as it has outputs.
pub proof fn run_advances<P: Parser>(
    p: P,
    input: Seq<P::Input>,
    start: nat,
    outs: Seq<P::Output>,
    end: nat,
)
    requires
        repeats(p, input, start, outs, end),
    ensures
        advancing(p) ==> end >= start,
        consuming(p) ==> end >= start + outs.len(),
    decreases outs.len(),
{
    if outs.len() > 0 {
        let mid = choose|mid: nat|
            repeats(p, input, start, outs.drop_last(), mid) && #[trigger] p.parses(
                input,
                mid,
                Ok(outs.last()),
                end,
            );
        run_advances(p, input, start, outs.drop_last(), mid);
    }
}

/// A repetition never moves the cursor backwards where its element never
/// does. With a minimum of one or more and an element that consumes, it
/// consumes when it succeeds.
pub proof fn loop_advances<P: Parser>(p: P, min: Option<usize>, max: Option<usize>)
    requires
        advancing(p),
    ensures
        advancing(Loop(p, min, max)),
        consuming(p) && (min matches Some(m) && m > 0) && (max matches Some(m) ==> m > 0)
            ==> consuming(Loop(p, min, max)),
{
    let whole = Loop(p, min, max);
    assert forall|
        input: Seq<P::Input>,
        start: nat,
        res: ParserResult<Vec<P::Output>, P::Input>,
        end: nat,
    | #[trigger] whole.parses(input, start, res, end) implies end >= start && (consuming(p) && (
    min matches Some(m) && m > 0) && (max matches Some(m) ==> m > 0) && res is Ok ==> end
        > start) by {
        let (outs, mid) = choose|outs: Seq<P::Output>, mid: nat| #[trigger]
            repetition(p, min, max, input, start, outs, mid, res, end);
        run_advances(p, input, start, outs, mid);
    }
}

} // verus!
