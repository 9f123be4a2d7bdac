//! A grammar whose functions are deterministic has one outcome on each
//! input: running it again on a fresh stream over the same tokens gives the
//! same result and the same cursor.
use vstd::prelude::*;
use vstd::std_specs::cmp::PartialEqSpec;
use crate::combinator::{And, Attempt, Either, Mapped, Msg, Optional, Or, Skip, Then, With};
use crate::error::{ErrorExpect, ParserError, ParserResult};
use crate::parser::Parser;
use crate::primitive::{stops_after, AnyOne, Eof, Expect, Fail, ParserFunc, Token, Tokens, Val};
use crate::repetition::{ends_with, repeats, repetition, Loop};
use crate::stream::Stream;
use std::marker::PhantomData;

verus! {

/// Two results agree: both are errors, and the same one, or both are
/// outputs that `same` takes for the same.
pub open spec fn agree<O, I>(
    first: ParserResult<O, I>,
    second: ParserResult<O, I>,
    same: spec_fn(O, O) -> bool,
) -> bool {
    match (first, second) {
        (Ok(a), Ok(b)) => same(a, b),
        (Err(a), Err(b)) => a == b,
        _ => false,
    }
}

/// Any two runs of `p` over the same input from the same position end on
/// the same position with results that agree.
pub open spec fn deterministic<P: Parser>(p: P, same: spec_fn(P::Output, P::Output) -> bool) -> bool {
    forall|
        input: Seq<P::Input>,
        start: nat,
        r1: ParserResult<P::Output, P::Input>,
        e1: nat,
        r2: ParserResult<P::Output, P::Input>,
        e2: nat,
    |
        #![trigger p.parses(input, start, r1, e1), p.parses(input, start, r2, e2)]
        p.parses(input, start, r1, e1) && p.parses(input, start, r2, e2) ==> e1 == e2 && agree(
            r1,
            r2,
            same,
        )
}

/// Outputs are the same when they are equal.
pub open spec fn identical<O>() -> spec_fn(O, O) -> bool {
    |a: O, b: O| a == b
}

/// Vectors are the same when they hold the same elements in the same order.
pub open spec fn same_elements<O>() -> spec_fn(Vec<O>, Vec<O>) -> bool {
    |a: Vec<O>, b: Vec<O>| a@ == b@
}

/// Two runs of a deterministic grammar over the same input, each from the
/// start of a fresh stream, give results that agree and leave the cursor
/// on the same position.
pub proof fn fresh_runs_agree<P: Parser>(
    p: P,
    same: spec_fn(P::Output, P::Output) -> bool,
    input: Seq<P::Input>,
    r1: ParserResult<P::Output, P::Input>,
    e1: nat,
    r2: ParserResult<P::Output, P::Input>,
    e2: nat,
)
    requires
        deterministic(p, same),
        p.parses(input, 0, r1, e1),
        p.parses(input, 0, r2, e2),
    ensures
        agree(r1, r2, same),
        e1 == e2,
{
}

/// `any_one` is deterministic.
pub proof fn any_one_is_deterministic<T: Copy>(p: AnyOne<T>)
    ensures
        deterministic(p, identical()),
{
}

/// `eof` is deterministic.
pub proof fn eof_is_deterministic<T: Copy>(p: Eof<T>)
    ensures
        deterministic(p, identical()),
{
}

/// `fail` is deterministic.
pub proof fn fail_is_deterministic<A: Copy, B>(p: Fail<A, B>)
    ensures
        deterministic(p, identical()),
{
}

/// `token` is deterministic.
pub proof fn token_is_deterministic<T: Copy + PartialEq>(p: Token<T>)
    ensures
        deterministic(p, identical()),
{
}

/// `tokens` is deterministic: two runs yield the same tokens.
pub proof fn tokens_is_deterministic<T: Copy + PartialEq>(p: Tokens<T>)
    ensures
        deterministic(p, same_elements()),
{
    assert forall|
        input: Seq<T>,
        start: nat,
        r1: ParserResult<Vec<T>, T>,
        e1: nat,
        r2: ParserResult<Vec<T>, T>,
        e2: nat,
    | #[trigger]
        p.parses(input, start, r1, e1) && #[trigger] p.parses(input, start, r2, e2) implies e1 == e2
        && agree(r1, r2, same_elements()) by {
        let k1 = choose|k: int| #[trigger] stops_after(p.0@, input, start, k, r1, e1);
        let k2 = choose|k: int| #[trigger] stops_after(p.0@, input, start, k, r2, e2);
        assert(k1 == k2);
    }
}

/// `val` is deterministic where cloning its value is.
pub proof fn val_is_deterministic<T: Clone, I>(p: Val<T, I>)
    requires
        forall|a: T, b: T| cloned(p.0, a) && cloned(p.0, b) ==> a == b,
    ensures
        deterministic(p, identical()),
{
}

/// `expect` is deterministic where its predicate is.
pub proof fn expect_is_deterministic<T: Copy, F: Fn(&T) -> bool>(p: Expect<T, F>)
    requires
        forall|t: T, a: bool, b: bool| #[trigger]
            p.0.ensures((&t,), a) && #[trigger] p.0.ensures((&t,), b) ==> a == b,
    ensures
        deterministic(p, identical()),
{
}

/// `parser_func` is deterministic where its function answers by the tokens
/// and the cursor alone.
pub proof fn parser_func_is_deterministic<
    F: Fn(&Stream<A>) -> (ParserResult<B, A>, usize),
    A,
    B,
>(p: ParserFunc<F, A, B>)
    requires
        forall|
            s1: &Stream<A>,
            s2: &Stream<A>,
            o1: (ParserResult<B, A>, usize),
            o2: (ParserResult<B, A>, usize),
        | #[trigger]
            p.0.ensures((s1,), o1) && #[trigger] p.0.ensures((s2,), o2) && s1.tokens()
                == s2.tokens() && s1.cursor() == s2.cursor() ==> o1 == o2,
    ensures
        deterministic(p, identical()),
{
}

/// Pairs are the same when `first` takes their first parts for the same and
/// `second` their second parts.
pub open spec fn same_pairs<A, B>(
    first: spec_fn(A, A) -> bool,
    second: spec_fn(B, B) -> bool,
) -> spec_fn((A, B), (A, B)) -> bool {
    |x: (A, B), y: (A, B)| first(x.0, y.0) && second(x.1, y.1)
}

/// Optional values are the same when both are absent, or both are present
/// and `same` takes them for the same.
pub open spec fn same_options<O>(same: spec_fn(O, O) -> bool) -> spec_fn(
    Option<O>,
    Option<O>,
) -> bool {
    |x: Option<O>, y: Option<O>|
        match (x, y) {
            (Some(a), Some(b)) => same(a, b),
            (None, None) => true,
            _ => false,
        }
}

/// `attempt` keeps a parser deterministic.
pub proof fn attempt_is_deterministic<P: Parser>(p: P, same: spec_fn(P::Output, P::Output) -> bool)
    requires
        deterministic(p, same),
    ensures
        deterministic(Attempt(p), same),
{
}

/// `or` of two deterministic parsers is deterministic.
pub proof fn or_is_deterministic<A: Parser, B: Parser<Input = A::Input, Output = A::Output>>(
    a: A,
    b: B,
    same: spec_fn(A::Output, A::Output) -> bool,
)
    requires
        deterministic(a, same),
        deterministic(b, same),
    ensures
        deterministic(Or(a, b), same),
{
}

/// `and` of two deterministic parsers is deterministic.
pub proof fn and_is_deterministic<A: Parser, B: Parser<Input = A::Input>>(
    a: A,
    b: B,
    first: spec_fn(A::Output, A::Output) -> bool,
    second: spec_fn(B::Output, B::Output) -> bool,
)
    requires
        deterministic(a, first),
        deterministic(b, second),
    ensures
        deterministic(And(a, b), same_pairs(first, second)),
{
}

/// `with` of two deterministic parsers is deterministic.
pub proof fn with_is_deterministic<A: Parser, B: Parser<Input = A::Input>>(
    a: A,
    b: B,
    first: spec_fn(A::Output, A::Output) -> bool,
    second: spec_fn(B::Output, B::Output) -> bool,
)
    requires
        deterministic(a, first),
        deterministic(b, second),
    ensures
        deterministic(With(a, b), second),
{
}

/// `skip` of two deterministic parsers is deterministic.
pub proof fn skip_is_deterministic<A: Parser, B: Parser<Input = A::Input>>(
    a: A,
    b: B,
    first: spec_fn(A::Output, A::Output) -> bool,
    second: spec_fn(B::Output, B::Output) -> bool,
)
    requires
        deterministic(a, first),
        deterministic(b, second),
    ensures
        deterministic(Skip(a, b), first),
{
}

/// `optional` keeps a parser deterministic.
pub proof fn optional_is_deterministic<P: Parser>(
    p: P,
    same: spec_fn(P::Output, P::Output) -> bool,
)
    requires
        deterministic(p, same),
    ensures
        deterministic(Optional(p), same_options(same)),
{
}

/// `msg` keeps a parser deterministic.
pub proof fn msg_is_deterministic<P: Parser>(
    p: P,
    msg: ErrorExpect<P::Input>,
    same: spec_fn(P::Output, P::Output) -> bool,
) where P::Input: Copy
    requires
        deterministic(p, same),
    ensures
        deterministic(Msg(p, msg), same),
{
}

/// `map` keeps a parser deterministic where the function answers the same
/// on outputs that are the same.
pub proof fn map_is_deterministic<O, P: Parser, F: Fn(P::Output) -> O>(
    f: F,
    p: P,
    same: spec_fn(P::Output, P::Output) -> bool,
    same_mapped: spec_fn(O, O) -> bool,
)
    requires
        deterministic(p, same),
        forall|x1: P::Output, x2: P::Output, y1: O, y2: O| #[trigger]
            f.ensures((x1,), y1) && #[trigger] f.ensures((x2,), y2) && same(x1, x2)
                ==> same_mapped(y1, y2),
    ensures
        deterministic(Mapped(f, p, PhantomData::<O>), same_mapped),
{
}

/// `then` keeps a parser deterministic where the function makes, of outputs
/// that are the same, one parser, and a deterministic one.
pub proof fn then_is_deterministic<A: Parser, F: Fn(A::Output) -> B, B: Parser<Input = A::Input>>(
    a: A,
    f: F,
    same: spec_fn(A::Output, A::Output) -> bool,
    same_next: spec_fn(B::Output, B::Output) -> bool,
)
    requires
        deterministic(a, same),
        forall|x1: A::Output, x2: A::Output, n1: B, n2: B| #[trigger]
            f.ensures((x1,), n1) && #[trigger] f.ensures((x2,), n2) && same(x1, x2) ==> n1 == n2
                && deterministic(n1, same_next),
    ensures
        deterministic(Then(a, f, PhantomData::<B>), same_next),
{
}

/// `Either` is deterministic where the parser it holds is.
pub proof fn either_is_deterministic<
    A: Parser,
    B: Parser<Input = A::Input, Output = A::Output>,
>(p: Either<A, B>, same: spec_fn(A::Output, A::Output) -> bool)
    requires
        match p {
            Either::Right(x) => deterministic(x, same),
            Either::Left(x) => deterministic(x, same),
        },
    ensures
        deterministic(p, same),
{
}

/// A boxed parser is deterministic where the parser in the box is.
pub proof fn boxed_is_deterministic<P: Parser>(
    p: Box<P>,
    same: spec_fn(P::Output, P::Output) -> bool,
)
    requires
        deterministic(*p, same),
    ensures
        deterministic(p, same),
{
}

/// A borrowed parser is deterministic where the parser itself is.
pub proof fn borrowed_is_deterministic<P: Parser>(
    p: &P,
    same: spec_fn(P::Output, P::Output) -> bool,
)
    requires
        deterministic(*p, same),
    ensures
        deterministic(p, same),
{
}

/// Vectors are the same when they are equally long and `same` takes their
/// elements, place by place, for the same.
pub open spec fn same_runs<O>(same: spec_fn(O, O) -> bool) -> spec_fn(Vec<O>, Vec<O>) -> bool {
    |a: Vec<O>, b: Vec<O>|
        a@.len() == b@.len() && forall|i: int| 0 <= i < a@.len() ==> same(a@[i], b@[i])
}

/// Two equally long runs of successes of a deterministic parser from the
/// same position end on the same position and yield, place by place, the
/// same.
pub proof fn equally_long_runs_agree<P: Parser>(
    p: P,
    same: spec_fn(P::Output, P::Output) -> bool,
    input: Seq<P::Input>,
    start: nat,
    outs1: Seq<P::Output>,
    end1: nat,
    outs2: Seq<P::Output>,
    end2: nat,
)
    requires
        deterministic(p, same),
        repeats(p, input, start, outs1, end1),
        repeats(p, input, start, outs2, end2),
        outs1.len() == outs2.len(),
    ensures
        end1 == end2,
        forall|i: int| 0 <= i < outs1.len() ==> same(outs1[i], outs2[i]),
    decreases outs1.len(),
{
    if outs1.len() > 0 {
        let m1 = choose|mid: nat|
            repeats(p, input, start, outs1.drop_last(), mid) && #[trigger] p.parses(
                input,
                mid,
                Ok(outs1.last()),
                end1,
            );
        let m2 = choose|mid: nat|
            repeats(p, input, start, outs2.drop_last(), mid) && #[trigger] p.parses(
                input,
                mid,
                Ok(outs2.last()),
                end2,
            );
        equally_long_runs_agree(
            p,
            same,
            input,
            start,
            outs1.drop_last(),
            m1,
            outs2.drop_last(),
            m2,
        );
        assert(same(outs1.last(), outs2.last()));
        assert forall|i: int| 0 <= i < outs1.len() implies same(outs1[i], outs2[i]) by {
            if i < outs1.len() - 1 {
                assert(outs1.drop_last()[i] == outs1[i]);
                assert(outs2.drop_last()[i] == outs2[i]);
            }
        }
    }
}

/// A run of successes passes through each of its steps: its first `k`
/// outputs are a run of their own, and from where that one ends the parser
/// succeeds with output `k`.
pub proof fn run_passes_through<P: Parser>(
    p: P,
    input: Seq<P::Input>,
    start: nat,
    outs: Seq<P::Output>,
    end: nat,
    k: int,
)
    requires
        repeats(p, input, start, outs, end),
        0 <= k < outs.len(),
    ensures
        exists|mid: nat, next: nat|
            repeats(p, input, start, outs.take(k), mid) && #[trigger] p.parses(
                input,
                mid,
                Ok(outs[k]),
                next,
            ),
    decreases outs.len(),
{
    let last = choose|mid: nat|
        repeats(p, input, start, outs.drop_last(), mid) && #[trigger] p.parses(
            input,
            mid,
            Ok(outs.last()),
            end,
        );
    if k == outs.len() - 1 {
        assert(outs.take(k) =~= outs.drop_last());
        assert(repeats(p, input, start, outs.take(k), last) && p.parses(
            input,
            last,
            Ok(outs[k]),
            end,
        ));
    } else {
        run_passes_through(p, input, start, outs.drop_last(), last, k);
        assert(outs.drop_last().take(k) =~= outs.take(k));
        assert(outs.drop_last()[k] == outs[k]);
    }
}

/// Of two repetitions of a deterministic parser from the same position,
/// the second has not more successes than the first.
proof fn repetition_is_not_longer<P: Parser>(
    p: P,
    min: Option<usize>,
    max: Option<usize>,
    same: spec_fn(P::Output, P::Output) -> bool,
    input: Seq<P::Input>,
    start: nat,
    outs1: Seq<P::Output>,
    mid1: nat,
    r1: ParserResult<Vec<P::Output>, P::Input>,
    e1: nat,
    outs2: Seq<P::Output>,
    mid2: nat,
    r2: ParserResult<Vec<P::Output>, P::Input>,
    e2: nat,
)
    requires
        deterministic(p, same),
        repetition(p, min, max, input, start, outs1, mid1, r1, e1),
        repetition(p, min, max, input, start, outs2, mid2, r2, e2),
    ensures
        outs2.len() <= outs1.len(),
{
    if outs1.len() < outs2.len() {
        let k = outs1.len() as int;
        run_passes_through(p, input, start, outs2, mid2, k);
        let (m, next) = choose|m: nat, next: nat|
            repeats(p, input, start, outs2.take(k), m) && #[trigger] p.parses(
                input,
                m,
                Ok(outs2[k]),
                next,
            );
        equally_long_runs_agree(p, same, input, start, outs1, mid1, outs2.take(k), m);
        let e = choose|e: ParserError<P::Input>| #[trigger] p.parses(input, mid1, Err(e), e1);
        assert(p.parses(input, mid1, Err(e), e1));
        assert(p.parses(input, mid1, Ok(outs2[k]), next));
        assert(agree(
            Err::<P::Output, ParserError<P::Input>>(e),
            Ok::<P::Output, ParserError<P::Input>>(outs2[k]),
            same,
        ));
    }
}

/// A repetition of a deterministic parser is deterministic, whatever its
/// bounds are.
pub proof fn loop_is_deterministic<P: Parser>(
    p: P,
    min: Option<usize>,
    max: Option<usize>,
    same: spec_fn(P::Output, P::Output) -> bool,
)
    requires
        deterministic(p, same),
    ensures
        deterministic(Loop(p, min, max), same_runs(same)),
{
    let whole = Loop(p, min, max);
    assert forall|
        input: Seq<P::Input>,
        start: nat,
        r1: ParserResult<Vec<P::Output>, P::Input>,
        e1: nat,
        r2: ParserResult<Vec<P::Output>, P::Input>,
        e2: nat,
    | #[trigger]
        whole.parses(input, start, r1, e1) && #[trigger] whole.parses(
            input,
            start,
            r2,
            e2,
        ) implies e1 == e2 && agree(r1, r2, same_runs(same)) by {
        let (outs1, mid1) = choose|outs: Seq<P::Output>, mid: nat| #[trigger]
            repetition(p, min, max, input, start, outs, mid, r1, e1);
        let (outs2, mid2) = choose|outs: Seq<P::Output>, mid: nat| #[trigger]
            repetition(p, min, max, input, start, outs, mid, r2, e2);
        repetition_is_not_longer(
            p,
            min,
            max,
            same,
            input,
            start,
            outs1,
            mid1,
            r1,
            e1,
            outs2,
            mid2,
            r2,
            e2,
        );
        repetition_is_not_longer(
            p,
            min,
            max,
            same,
            input,
            start,
            outs2,
            mid2,
            r2,
            e2,
            outs1,
            mid1,
            r1,
            e1,
        );
        equally_long_runs_agree(p, same, input, start, outs1, mid1, outs2, mid2);
    }
}

} // verus!
