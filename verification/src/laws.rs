//! What holds of the parsers whatever the grammar and the input are.
use vstd::prelude::*;
use vstd::std_specs::cmp::PartialEqSpec;
use crate::combinator::{both_succeed, one_fails, And, Attempt, Msg, Optional, Or, Skip, With};
use crate::error::{is_error, ErrorExpect, ParserError, ParserResult};
use crate::parser::Parser;
use crate::primitive::Token;
use crate::repetition::{ends_with, repeats, repetition, Loop};

verus! {

/// Run over `input` from `start`, `p` can only fail, and only on the spot:
/// it has such an outcome, and no other.
pub open spec fn fails_cleanly<P: Parser>(p: P, input: Seq<P::Input>, start: nat) -> bool {
    &&& exists|e: ParserError<P::Input>| #[trigger] p.parses(input, start, Err(e), start)
    &&& forall|res: ParserResult<P::Output, P::Input>, end: nat| #[trigger]
        p.parses(input, start, res, end) ==> res is Err && end == start
}

/// Run over `input` from `start`, `p` can only fail, and only after it has
/// moved the cursor.
pub open spec fn fails_committed<P: Parser>(p: P, input: Seq<P::Input>, start: nat) -> bool {
    forall|res: ParserResult<P::Output, P::Input>, end: nat| #[trigger]
        p.parses(input, start, res, end) ==> res is Err && end != start
}

/// Where the next token equals the one a `Token` parser holds, the parser
/// has one outcome: it returns that next token and moves the cursor by one.
pub proof fn token_takes_an_equal_token<T: Copy + PartialEq>(
    p: Token<T>,
    input: Seq<T>,
    start: nat,
    res: ParserResult<T, T>,
    end: nat,
)
    requires
        start < input.len(),
        input[start as int].eq_spec(&p.0),
    ensures
        p.parses(input, start, res, end) <==> res == Ok::<T, ParserError<T>>(input[start as int])
            && end == start + 1,
{
}

/// Where the next token differs from the one a `Token` parser holds, the
/// parser has one outcome: the error that expected the held token and found
/// the next one, at a cursor that has not moved.
pub proof fn token_refuses_another_token<T: Copy + PartialEq>(
    p: Token<T>,
    input: Seq<T>,
    start: nat,
    res: ParserResult<T, T>,
    end: nat,
)
    requires
        start < input.len(),
        !input[start as int].eq_spec(&p.0),
    ensures
        p.parses(input, start, res, end) <==> is_error(
            res,
            start,
            Some(input[start as int]),
            ErrorExpect::Token(p.0),
        ) && end == start,
{
}

/// Whenever `attempt` fails, the cursor is where it was before the run,
/// however far the inner parser had moved it; the error is the inner
/// parser's own.
pub proof fn attempt_failure_restores_the_cursor<P: Parser>(
    p: P,
    input: Seq<P::Input>,
    start: nat,
    e: ParserError<P::Input>,
    end: nat,
)
    requires
        Attempt(p).parses(input, start, Err(e), end),
    ensures
        end == start,
        exists|reached: nat| p.parses(input, start, Err(e), reached),
{
}

/// Whatever the inner parser can do, `attempt` can do too: succeed in the
/// same way, or fail with the same error at the starting position.
pub proof fn attempt_follows_the_inner_parser<P: Parser>(
    p: P,
    input: Seq<P::Input>,
    start: nat,
    res: ParserResult<P::Output, P::Input>,
    end: nat,
)
    requires
        p.parses(input, start, res, end),
    ensures
        res is Ok ==> Attempt(p).parses(input, start, res, end),
        res is Err ==> Attempt(p).parses(input, start, res, start),
{
    let whole = Attempt(p);
    assert(whole.0.parses(input, start, res, end));
}

/// Where the first parser of a choice fails without consuming, the choice
/// does exactly what the second parser does from the same position.
pub proof fn or_after_clean_failure_is_the_second<
    A: Parser,
    B: Parser<Input = A::Input, Output = A::Output>,
>(a: A, b: B, input: Seq<A::Input>, start: nat, res: ParserResult<A::Output, A::Input>, end: nat)
    requires
        fails_cleanly(a, input, start),
    ensures
        Or(a, b).parses(input, start, res, end) <==> b.parses(input, start, res, end),
{
}

/// Where the first parser of a choice fails after consuming, the choice
/// does exactly what the first parser does, whatever the second parser is:
/// the second has no part in the outcome.
pub proof fn or_after_partial_match_is_the_first<
    A: Parser,
    B: Parser<Input = A::Input, Output = A::Output>,
>(a: A, b: B, input: Seq<A::Input>, start: nat, res: ParserResult<A::Output, A::Input>, end: nat)
    requires
        fails_committed(a, input, start),
    ensures
        Or(a, b).parses(input, start, res, end) <==> a.parses(input, start, res, end),
{
}

/// A success of the first parser of a choice is a success of the choice.
pub proof fn or_keeps_the_first_success<
    A: Parser,
    B: Parser<Input = A::Input, Output = A::Output>,
>(a: A, b: B, input: Seq<A::Input>, start: nat, x: A::Output, end: nat)
    requires
        a.parses(input, start, Ok(x), end),
    ensures
        Or(a, b).parses(input, start, Ok(x), end),
{
}

/// Where the inner parser fails without consuming, `optional` succeeds with
/// an absent value and leaves the cursor; it never turns such a failure into
/// an error.
pub proof fn optional_after_clean_failure_is_absent<P: Parser>(
    p: P,
    input: Seq<P::Input>,
    start: nat,
    res: ParserResult<Option<P::Output>, P::Input>,
    end: nat,
)
    requires
        fails_cleanly(p, input, start),
    ensures
        Optional(p).parses(input, start, res, end) <==> res == Ok::<
            Option<P::Output>,
            ParserError<P::Input>,
        >(None) && end == start,
{
    let whole = Optional(p);
    let e = choose|e: ParserError<P::Input>| #[trigger] p.parses(input, start, Err(e), start);
    assert(whole.0.parses(input, start, Err(e), start));
}

/// `with` is `and` with the first output dropped: it succeeds with `y`
/// where `and` succeeds with some pair that ends in `y`, and fails as `and`
/// fails.
pub proof fn with_projects_and<A: Parser, B: Parser<Input = A::Input>>(
    a: A,
    b: B,
    input: Seq<A::Input>,
    start: nat,
    res: ParserResult<B::Output, A::Input>,
    end: nat,
)
    ensures
        With(a, b).parses(input, start, res, end) <==> match res {
            Ok(y) => exists|x: A::Output| #[trigger]
                And(a, b).parses(input, start, Ok((x, y)), end),
            Err(e) => And(a, b).parses(input, start, Err(e), end),
        },
{
    let pairs = And(a, b);
    let second = With(a, b);
    if let Ok(y) = res {
        if second.parses(input, start, res, end) {
            let x = choose|x: A::Output| #[trigger] both_succeed(a, b, input, start, x, y, end);
            let both = (x, y);
            assert(both_succeed(pairs.0, pairs.1, input, start, both.0, both.1, end));
            assert(pairs.parses(input, start, Ok(both), end));
        }
        if exists|x: A::Output| #[trigger] pairs.parses(input, start, Ok((x, y)), end) {
            let x = choose|x: A::Output| #[trigger] pairs.parses(input, start, Ok((x, y)), end);
            let both = (x, y);
            assert(both_succeed(a, b, input, start, both.0, both.1, end));
            assert(both_succeed(second.0, second.1, input, start, x, y, end));
        }
    } else {
        let e = res->Err_0;
        assert(second.parses(input, start, res, end) == one_fails(a, b, input, start, e, end));
        assert(pairs.parses(input, start, Err(e), end) == one_fails(a, b, input, start, e, end));
    }
}

/// `skip` is `and` with the second output dropped: it succeeds with `x`
/// where `and` succeeds with some pair that begins with `x`, and fails as
/// `and` fails.
pub proof fn skip_projects_and<A: Parser, B: Parser<Input = A::Input>>(
    a: A,
    b: B,
    input: Seq<A::Input>,
    start: nat,
    res: ParserResult<A::Output, A::Input>,
    end: nat,
)
    ensures
        Skip(a, b).parses(input, start, res, end) <==> match res {
            Ok(x) => exists|y: B::Output| #[trigger]
                And(a, b).parses(input, start, Ok((x, y)), end),
            Err(e) => And(a, b).parses(input, start, Err(e), end),
        },
{
    let pairs = And(a, b);
    let first = Skip(a, b);
    if let Ok(x) = res {
        if first.parses(input, start, res, end) {
            let y = choose|y: B::Output| #[trigger] both_succeed(a, b, input, start, x, y, end);
            let both = (x, y);
            assert(both_succeed(pairs.0, pairs.1, input, start, both.0, both.1, end));
            assert(pairs.parses(input, start, Ok(both), end));
        }
        if exists|y: B::Output| #[trigger] pairs.parses(input, start, Ok((x, y)), end) {
            let y = choose|y: B::Output| #[trigger] pairs.parses(input, start, Ok((x, y)), end);
            let both = (x, y);
            assert(both_succeed(a, b, input, start, both.0, both.1, end));
            assert(both_succeed(first.0, first.1, input, start, x, y, end));
        }
    } else {
        let e = res->Err_0;
        assert(first.parses(input, start, res, end) == one_fails(a, b, input, start, e, end));
        assert(pairs.parses(input, start, Err(e), end) == one_fails(a, b, input, start, e, end));
    }
}

/// `msg` changes nothing but what an error says was expected: position,
/// unexpected token and cursor are those of the inner parser's error.
pub proof fn msg_keeps_position_and_token<P: Parser>(
    p: P,
    msg: ErrorExpect<P::Input>,
    input: Seq<P::Input>,
    start: nat,
    inner: ParserError<P::Input>,
    end: nat,
) where P::Input: Copy
    requires
        p.parses(input, start, Err(inner), end),
    ensures
        Msg(p, msg).parses(
            input,
            start,
            Err(ParserError { pos: inner.pos, unexpected: inner.unexpected, expecting: msg }),
            end,
        ),
{
    let whole = Msg(p, msg);
    assert(whole.0.parses(input, start, Err(inner), end));
}

/// A run of one success or more begins with a success at its start.
pub proof fn repeats_begins_with_a_success<P: Parser>(
    p: P,
    input: Seq<P::Input>,
    start: nat,
    outs: Seq<P::Output>,
    end: nat,
)
    requires
        repeats(p, input, start, outs, end),
        outs.len() > 0,
    ensures
        exists|next: nat| p.parses(input, start, Ok(outs[0]), next),
    decreases outs.len(),
{
    let mid = choose|mid: nat|
        repeats(p, input, start, outs.drop_last(), mid) && #[trigger] p.parses(
            input,
            mid,
            Ok(outs.last()),
            end,
        );
    if outs.len() == 1 {
        assert(mid == start);
        assert(p.parses(input, start, Ok(outs[0]), end));
    } else {
        repeats_begins_with_a_success(p, input, start, outs.drop_last(), mid);
        assert(outs.drop_last()[0] == outs[0]);
    }
}

/// `many` never fails where its element fails without consuming: it yields
/// no element and leaves the cursor.
pub proof fn many_after_clean_failure_is_empty<P: Parser>(
    p: P,
    input: Seq<P::Input>,
    start: nat,
    res: ParserResult<Vec<P::Output>, P::Input>,
    end: nat,
)
    requires
        fails_cleanly(p, input, start),
    ensures
        Loop(p, None, None).parses(input, start, res, end) <==> (res matches Ok(v) && v@.len() == 0)
            && end == start,
{
    let whole = Loop(p, None, None);
    if whole.parses(input, start, res, end) {
        let (outs, mid) = choose|outs: Seq<P::Output>, mid: nat| #[trigger]
            repetition(p, None, None, input, start, outs, mid, res, end);
        if outs.len() > 0 {
            repeats_begins_with_a_success(p, input, start, outs, mid);
        }
    }
    if (res matches Ok(v) && v@.len() == 0) && end == start {
        let e = choose|e: ParserError<P::Input>| #[trigger] p.parses(input, start, Err(e), start);
        let outs = Seq::<P::Output>::empty();
        assert(res->Ok_0@ =~= outs);
        assert(ends_with(p, None, None, input, outs, start, res, end));
        assert(repetition(whole.0, whole.1, whole.2, input, start, outs, start, res, end));
    }
}

/// `many` fails only with the error of an element that had consumed input
/// before it failed.
pub proof fn many_fails_only_on_a_partial_match<P: Parser>(
    p: P,
    input: Seq<P::Input>,
    start: nat,
    e: ParserError<P::Input>,
    end: nat,
)
    requires
        Loop(p, None, None).parses(input, start, Err(e), end),
    ensures
        exists|outs: Seq<P::Output>, mid: nat| #[trigger]
            repeats(p, input, start, outs, mid) && p.parses(input, mid, Err(e), end) && end != mid,
{
    let (outs, mid) = choose|outs: Seq<P::Output>, mid: nat| #[trigger]
        repetition(p, None, None, input, start, outs, mid, Err(e), end);
    assert(repeats(p, input, start, outs, mid) && p.parses(input, mid, Err(e), end) && end != mid);
}

/// `many1` fails where its element cannot match once: after a failure of
/// the element on the spot it gives that failure.
pub proof fn many1_after_clean_failure_fails<P: Parser>(
    p: P,
    input: Seq<P::Input>,
    start: nat,
    res: ParserResult<Vec<P::Output>, P::Input>,
    end: nat,
)
    requires
        fails_cleanly(p, input, start),
    ensures
        Loop(p, Some(1usize), None).parses(input, start, res, end) <==> (res matches Err(e)
            && p.parses(input, start, Err(e), start)) && end == start,
{
    let whole = Loop(p, Some(1usize), None);
    if whole.parses(input, start, res, end) {
        let (outs, mid) = choose|outs: Seq<P::Output>, mid: nat| #[trigger]
            repetition(p, Some(1usize), None, input, start, outs, mid, res, end);
        if outs.len() > 0 {
            repeats_begins_with_a_success(p, input, start, outs, mid);
        }
    }
    if (res matches Err(e) && p.parses(input, start, Err(e), start)) && end == start {
        let outs = Seq::<P::Output>::empty();
        assert(ends_with(p, Some(1usize), None, input, outs, start, res, end));
        assert(repetition(whole.0, whole.1, whole.2, input, start, outs, start, res, end));
    }
}

/// What `many1` yields holds one element at least, and is a run of
/// successes of the element from the start to the end position.
pub proof fn many1_yields_an_element<P: Parser>(
    p: P,
    input: Seq<P::Input>,
    start: nat,
    v: Vec<P::Output>,
    end: nat,
)
    requires
        Loop(p, Some(1usize), None).parses(input, start, Ok(v), end),
    ensures
        v@.len() >= 1,
        repeats(p, input, start, v@, end),
{
    let (outs, mid) = choose|outs: Seq<P::Output>, mid: nat| #[trigger]
        repetition(p, Some(1usize), None, input, start, outs, mid, Ok(v), end);
}

/// `many_n(n)` succeeds exactly with `n` successes of the element in a row:
/// what it yields has `n` elements and is such a run, which ends where the
/// cursor is left, and every such run is a success of it.
pub proof fn many_n_succeeds_with_n_in_a_row<P: Parser>(
    p: P,
    n: usize,
    input: Seq<P::Input>,
    start: nat,
    v: Vec<P::Output>,
    end: nat,
)
    ensures
        Loop(p, Some(n), Some(n)).parses(input, start, Ok(v), end) <==> v@.len() == n && repeats(
            p,
            input,
            start,
            v@,
            end,
        ),
{
    let whole = Loop(p, Some(n), Some(n));
    let res = Ok::<Vec<P::Output>, ParserError<P::Input>>(v);
    if whole.parses(input, start, res, end) {
        let (outs, mid) = choose|outs: Seq<P::Output>, mid: nat| #[trigger]
            repetition(p, Some(n), Some(n), input, start, outs, mid, res, end);
    }
    if v@.len() == n && repeats(p, input, start, v@, end) {
        assert(ends_with(p, Some(n), Some(n), input, v@, end, res, end));
        assert(repetition(whole.0, whole.1, whole.2, input, start, v@, end, res, end));
    }
}

/// `many_n(n)` fails exactly with the error of the first element that
/// fails, after fewer than `n` successes; the cursor stays where that
/// element left it.
pub proof fn many_n_fails_with_the_first_failure<P: Parser>(
    p: P,
    n: usize,
    input: Seq<P::Input>,
    start: nat,
    e: ParserError<P::Input>,
    end: nat,
)
    ensures
        Loop(p, Some(n), Some(n)).parses(input, start, Err(e), end) <==> exists|
            outs: Seq<P::Output>,
            mid: nat,
        | #[trigger]
            repeats(p, input, start, outs, mid) && outs.len() < n && p.parses(
                input,
                mid,
                Err(e),
                end,
            ),
{
    let whole = Loop(p, Some(n), Some(n));
    let res = Err::<Vec<P::Output>, ParserError<P::Input>>(e);
    if whole.parses(input, start, res, end) {
        let (outs, mid) = choose|outs: Seq<P::Output>, mid: nat| #[trigger]
            repetition(p, Some(n), Some(n), input, start, outs, mid, res, end);
        assert(repeats(p, input, start, outs, mid) && outs.len() < n && p.parses(
            input,
            mid,
            Err(e),
            end,
        ));
    }
    if exists|outs: Seq<P::Output>, mid: nat| #[trigger]
        repeats(p, input, start, outs, mid) && outs.len() < n && p.parses(input, mid, Err(e), end) {
        let (outs, mid) = choose|outs: Seq<P::Output>, mid: nat| #[trigger]
            repeats(p, input, start, outs, mid) && outs.len() < n && p.parses(
                input,
                mid,
                Err(e),
                end,
            );
        assert(ends_with(p, Some(n), Some(n), input, outs, mid, res, end));
        assert(repetition(whole.0, whole.1, whole.2, input, start, outs, mid, res, end));
    }
}

} // verus!
