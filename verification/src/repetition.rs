//! Bounded repetition of a parser.
use vstd::prelude::*;
use crate::error::{ParserError, ParserResult};
use crate::parser::Parser;
use crate::stream::Stream;

verus! {

/// `elem` never succeeds without moving the cursor forward.
pub open spec fn consuming<A: Parser>(elem: A) -> bool {
    forall|input: Seq<A::Input>, start: nat, x: A::Output, end: nat| #[trigger]
        elem.parses(input, start, Ok(x), end) ==> end > start
}

/// `elem`, run `outs.len()` times in a row from `start`, may succeed each
/// time, yield `outs` in this order and leave the cursor on `end`.
pub open spec fn repeats<A: Parser>(
    elem: A,
    input: Seq<A::Input>,
    start: nat,
    outs: Seq<A::Output>,
    end: nat,
) -> bool
    decreases outs.len(),
{
    if outs.len() == 0 {
        end == start
    } else {
        exists|mid: nat|
            repeats(elem, input, start, outs.drop_last(), mid) && #[trigger] elem.parses(
                input,
                mid,
                Ok(outs.last()),
                end,
            )
    }
}

/// A run of successes goes on by one more success from where it stopped.
pub proof fn repeats_once_more<A: Parser>(
    elem: A,
    input: Seq<A::Input>,
    start: nat,
    outs: Seq<A::Output>,
    mid: nat,
    x: A::Output,
    end: nat,
)
    requires
        repeats(elem, input, start, outs, mid),
        elem.parses(input, mid, Ok(x), end),
    ensures
        repeats(elem, input, start, outs.push(x), end),
{
    let longer = outs.push(x);
    assert(longer.drop_last() =~= outs);
    assert(longer.last() == x);
    assert(elem.parses(input, mid, Ok(longer.last()), end));
}

/// `n` repetitions are fewer than the minimum `min` asks for.
pub open spec fn below(n: nat, min: Option<usize>) -> bool {
    min matches Some(m) && n < m
}

/// `n` repetitions are as many as the maximum `max` allows.
pub open spec fn full(n: nat, max: Option<usize>) -> bool {
    max matches Some(m) && n >= m
}

/// How a repetition ends once `elem` has yielded `outs` and stands on `mid`.
///
/// With the maximum reached, no further run is made: `outs` is the result.
/// Otherwise `elem` is run once more and fails with some error, leaving the
/// cursor on some `end`. That error is the result if `outs` is shorter than
/// the minimum, or if the failed run moved the cursor. If neither is so,
/// `outs` is the result.
pub open spec fn ends_with<A: Parser>(
    elem: A,
    min: Option<usize>,
    max: Option<usize>,
    input: Seq<A::Input>,
    outs: Seq<A::Output>,
    mid: nat,
    res: ParserResult<Vec<A::Output>, A::Input>,
    end: nat,
) -> bool {
    if full(outs.len(), max) {
        &&& end == mid
        &&& res matches Ok(v)
        &&& v@ == outs
    } else {
        exists|e: ParserError<A::Input>| #[trigger]
            elem.parses(input, mid, Err(e), end) && if below(outs.len(), min) || end != mid {
                res matches Err(got) && got == e
            } else {
                res matches Ok(v) && v@ == outs
            }
    }
}

/// A repetition of `elem` from `start` that yields `outs`, stands on `mid`
/// after them, and then ends with `res` on `end`. The maximum is never
/// passed.
pub open spec fn repetition<A: Parser>(
    elem: A,
    min: Option<usize>,
    max: Option<usize>,
    input: Seq<A::Input>,
    start: nat,
    outs: Seq<A::Output>,
    mid: nat,
    res: ParserResult<Vec<A::Output>, A::Input>,
    end: nat,
) -> bool {
    &&& repeats(elem, input, start, outs, mid)
    &&& max matches Some(m) ==> outs.len() <= m
    &&& ends_with(elem, min, max, input, outs, mid, res, end)
}

/// Repeats a parser: at least as often as the first bound says, if there is
/// one, and at most as often as the second says, if there is one.
#[derive(Clone, Debug)]
pub struct Loop<A: Parser>(pub A, pub Option<usize>, pub Option<usize>);

impl<A: Parser> Loop<A> {
    /// Builds the parser from its parts.
    pub fn new(a: A, x: Option<usize>, y: Option<usize>) -> (p: Self)
        ensures
            p == Loop(a, x, y),
    {
        Loop(a, x, y)
    }
}

impl<A: Parser> Parser for Loop<A> {
    type Input = A::Input;

    type Output = Vec<A::Output>;

    /// The repetition ends: there is a maximum, or the element consumes a
    /// token at least whenever it succeeds.
    open spec fn wf(&self) -> bool {
        &&& self.0.wf()
        &&& self.2 is Some || consuming(self.0)
    }

    /// Some repetition of the element from `start` ends with `res` on `end`.
    open spec fn parses(
        &self,
        input: Seq<Self::Input>,
        start: nat,
        res: ParserResult<Self::Output, Self::Input>,
        end: nat,
    ) -> bool {
        exists|outs: Seq<A::Output>, mid: nat| #[trigger]
            repetition(self.0, self.1, self.2, input, start, outs, mid, res, end)
    }

    fn parse(&self, st: &mut Stream<Self::Input>) -> (res: ParserResult<
        Self::Output,
        Self::Input,
    >) {
        let ghost input = st.tokens();
        let ghost start = st.cursor();
        let mut res: Vec<A::Output> = Vec::new();
        loop
            invariant
                self.wf(),
                st.wf(),
                input == old(st).tokens(),
                start == old(st).cursor(),
                st.tokens() == input,
                repeats(self.0, input, start, res@, st.cursor()),
                self.2 matches Some(m) ==> res@.len() <= m,
            decreases
                    (match self.2 {
                        Some(m) => m - res@.len(),
                        None => input.len() - st.cursor(),
                    }),
        {
            if let Some(max) = self.2 {
                if res.len() >= max {
                    let ghost outs = res@;
                    let done = Ok(res);
                    proof {
                        assert(repetition(
                            self.0,
                            self.1,
                            self.2,
                            input,
                            start,
                            outs,
                            st.cursor(),
                            done,
                            st.cursor(),
                        ));
                    }
                    return done;
                }
            }
            let pos: usize = st.pos();
            let ghost outs = res@;
            match self.0.parse(st) {
                Ok(x) => {
                    res.push(x);
                    proof {
                        repeats_once_more(self.0, input, start, outs, pos as nat, x, st.cursor());
                    }
                },
                Err(e) => {
                    let short = match self.1 {
                        Some(min) => res.len() < min,
                        None => false,
                    };
                    let out = if short || st.pos() != pos {
                        Err(e)
                    } else {
                        Ok(res)
                    };
                    proof {
                        assert(repetition(
                            self.0,
                            self.1,
                            self.2,
                            input,
                            start,
                            outs,
                            pos as nat,
                            out,
                            st.cursor(),
                        ));
                    }
                    return out;
                },
            }
        }
    }
}

} // verus!
