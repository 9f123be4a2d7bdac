//! The leaf parsers: those that read the stream themselves.
use vstd::prelude::*;
use vstd::std_specs::cmp::PartialEqSpec;
use crate::error::{is_error, token_at, ErrorExpect, ParserError, ParserResult};
use crate::parser::Parser;
use crate::stream::Stream;
use std::marker::PhantomData;

verus! {

/// The parser that takes whatever token comes next.
pub fn any_one<T: Copy>() -> (p: AnyOne<T>)
    ensures
        p == AnyOne(PhantomData::<T>),
{
    AnyOne::new()
}

/// The parser that succeeds only at the end of the input.
pub fn eof<T: Copy>() -> (p: Eof<T>)
    ensures
        p == Eof(PhantomData::<T>),
{
    Eof::new()
}

/// The parser that yields `x` and reads nothing.
pub fn val<T: Clone, I>(x: T) -> (p: Val<T, I>)
    ensures
        p == Val(x, PhantomData::<I>),
{
    Val::new(x)
}

/// The parser that takes one token equal to `x`.
pub fn token<T: Copy + PartialEq>(x: T) -> (p: Token<T>)
    ensures
        p == Token(x),
{
    Token::new(x)
}

/// The parser that takes the tokens of `x`, one after the other.
pub fn tokens<T: Copy + PartialEq>(x: Vec<T>) -> (p: Tokens<T>)
    ensures
        p == Tokens(x),
{
    Tokens::new(x)
}

/// The parser that takes one token on which `f` answers `true`.
pub fn expect<T: Copy, F: Fn(&T) -> bool>(f: F) -> (p: Expect<T, F>)
    ensures
        p == Expect(f, PhantomData::<T>),
{
    Expect::new(f)
}

/// The parser that asks `f` for its result and for the cursor to go to.
pub fn parser_func<F: Fn(&Stream<A>) -> (ParserResult<B, A>, usize), A, B>(f: F) -> (p: ParserFunc<
    F,
    A,
    B,
>)
    ensures
        p == ParserFunc(f, PhantomData::<(A, B)>),
{
    ParserFunc::new(f)
}

/// The parser that fails wherever it is run.
pub fn fail<A: Copy, B>() -> (p: Fail<A, B>)
    ensures
        p == Fail(PhantomData::<(A, B)>),
{
    Fail::new()
}

/// Takes the next token, whatever it is.
#[derive(Clone, Debug)]
pub struct AnyOne<T: Copy>(pub PhantomData<T>);

impl<T: Copy> AnyOne<T> {
    /// Builds the parser; it holds nothing.
    pub fn new() -> (p: Self)
        ensures
            p == AnyOne(PhantomData::<T>),
    {
        AnyOne(PhantomData)
    }
}

impl<T: Copy> Parser for AnyOne<T> {
    type Input = T;

    type Output = T;

    open spec fn wf(&self) -> bool {
        true
    }

    /// With a token left: that token, one step on. At the end: an `Any`
    /// error on the spot.
    open spec fn parses(
        &self,
        input: Seq<T>,
        start: nat,
        res: ParserResult<T, T>,
        end: nat,
    ) -> bool {
        match token_at(input, start) {
            Some(t) => res == Ok::<T, ParserError<T>>(t) && end == start + 1,
            None => is_error(res, start, None, ErrorExpect::Any) && end == start,
        }
    }

    fn parse(&self, st: &mut Stream<T>) -> (res: ParserResult<T, T>) {
        match st.peak() {
            Some(val) => {
                st.next();
                Ok(val)
            },
            None => Err(ParserError::new(st.pos(), None, ErrorExpect::Any)),
        }
    }
}

/// Yields a fixed value without touching the stream.
#[derive(Clone, Debug)]
#[verifier::reject_recursive_types(I)]
pub struct Val<T: Clone, I>(pub T, pub PhantomData<I>);

impl<T: Clone, I> Val<T, I> {
    /// Builds the parser from its parts.
    pub fn new(x: T) -> (p: Self)
        ensures
            p == Val(x, PhantomData::<I>),
    {
        Val(x, PhantomData)
    }
}

impl<T: Clone, I> Parser for Val<T, I> {
    type Input = I;

    type Output = T;

    open spec fn wf(&self) -> bool {
        true
    }

    /// Always a clone of the held value, the cursor unmoved.
    open spec fn parses(
        &self,
        input: Seq<I>,
        start: nat,
        res: ParserResult<T, I>,
        end: nat,
    ) -> bool {
        &&& res matches Ok(v)
        &&& cloned(self.0, v)
        &&& end == start
    }

    fn parse(&self, st: &mut Stream<I>) -> (res: ParserResult<T, I>) {
        Ok(self.0.clone())
    }
}

/// Succeeds exactly where no token is left.
#[derive(Clone, Debug)]
pub struct Eof<T: Copy>(pub PhantomData<T>);

impl<T: Copy> Eof<T> {
    /// Builds the parser; it holds nothing.
    pub fn new() -> (p: Self)
        ensures
            p == Eof(PhantomData::<T>),
    {
        Eof(PhantomData)
    }
}

impl<T: Copy> Parser for Eof<T> {
    type Input = T;

    type Output = ();

    open spec fn wf(&self) -> bool {
        true
    }

    /// At the end: success. Before it: an `Eof` error that shows the token
    /// in the way. The cursor stays in both cases.
    open spec fn parses(
        &self,
        input: Seq<T>,
        start: nat,
        res: ParserResult<(), T>,
        end: nat,
    ) -> bool {
        &&& end == start
        &&& match token_at(input, start) {
            Some(t) => is_error(res, start, Some(t), ErrorExpect::Eof),
            None => res is Ok,
        }
    }

    fn parse(&self, st: &mut Stream<T>) -> (res: ParserResult<(), T>) {
        if let Some(x) = st.peak() {
            Err(ParserError::new(st.pos(), Some(x), ErrorExpect::Eof))
        } else {
            Ok(())
        }
    }
}

/// Takes one token equal to the held one.
#[derive(Clone, Debug)]
pub struct Token<T: Copy + PartialEq>(pub T);

impl<T: Copy + PartialEq> Token<T> {
    /// Builds the parser from its parts.
    pub fn new(x: T) -> (p: Self)
        ensures
            p == Token(x),
    {
        Token(x)
    }
}

impl<T: Copy + PartialEq> Parser for Token<T> {
    type Input = T;

    type Output = T;

    /// The token type's `==` must compute what its `eq_spec` says.
    open spec fn wf(&self) -> bool {
        T::obeys_eq_spec()
    }

    /// A next token equal to the held one is returned and consumed. Any
    /// other, or none, gives a `Token` error on the spot that shows what
    /// stood there.
    open spec fn parses(
        &self,
        input: Seq<T>,
        start: nat,
        res: ParserResult<T, T>,
        end: nat,
    ) -> bool {
        match token_at(input, start) {
            Some(t) if t.eq_spec(&self.0) => res == Ok::<T, ParserError<T>>(t) && end == start + 1,
            found => is_error(res, start, found, ErrorExpect::Token(self.0)) && end == start,
        }
    }

    fn parse(&self, st: &mut Stream<T>) -> (res: ParserResult<T, T>) {
        match st.peak() {
            None => Err(ParserError::new(st.pos(), None, ErrorExpect::Token(self.0))),
            Some(res) => {
                if res == self.0 {
                    st.next();
                    Ok(res)
                } else {
                    Err(ParserError::new(st.pos(), Some(res), ErrorExpect::Token(self.0)))
                }
            },
        }
    }
}

/// Whether the token of `input` at `start + j` is there and equal to `pat[j]`.
pub open spec fn matches_at<T: PartialEq>(pat: Seq<T>, input: Seq<T>, start: nat, j: int) -> bool {
    &&& start + j < input.len()
    &&& pat[j].eq_spec(&input[start + j])
}

/// The outcome of matching `pat` at `start` when exactly its first `k`
/// tokens match: they are consumed. With `k` the whole pattern, the result
/// is the input tokens that matched. Otherwise token `k` does not match, and
/// the result is a `Token` error for it, placed `k` tokens in: what was
/// consumed is not given back.
pub open spec fn stops_after<T: PartialEq>(
    pat: Seq<T>,
    input: Seq<T>,
    start: nat,
    k: int,
    res: ParserResult<Vec<T>, T>,
    end: nat,
) -> bool {
    &&& 0 <= k <= pat.len()
    &&& forall|j: int| 0 <= j < k ==> matches_at(pat, input, start, j)
    &&& end == start + k
    &&& if k == pat.len() {
        &&& res matches Ok(v)
        &&& v@ == input.subrange(start as int, start + k)
    } else {
        &&& !matches_at(pat, input, start, k)
        &&& is_error(res, end, token_at(input, end), ErrorExpect::Token(pat[k]))
    }
}

/// Takes a fixed run of tokens, one by one, and stops on the first that differs.
#[derive(Clone, Debug)]
pub struct Tokens<T: Copy + PartialEq>(pub Vec<T>);

impl<T: Copy + PartialEq> Tokens<T> {
    /// Builds the parser from its parts.
    pub fn new(x: Vec<T>) -> (p: Self)
        ensures
            p == Tokens(x),
    {
        Tokens(x)
    }
}

impl<T: Copy + PartialEq> Parser for Tokens<T> {
    type Input = T;

    type Output = Vec<T>;

    /// The token type's `==` must compute what its `eq_spec` says.
    open spec fn wf(&self) -> bool {
        T::obeys_eq_spec()
    }

    /// The outcome for the number of leading pattern tokens that match.
    open spec fn parses(
        &self,
        input: Seq<T>,
        start: nat,
        res: ParserResult<Vec<T>, T>,
        end: nat,
    ) -> bool {
        exists|k: int| #[trigger] stops_after(self.0@, input, start, k, res, end)
    }

    fn parse(&self, st: &mut Stream<T>) -> (res: ParserResult<Vec<T>, T>) {
        let ghost input = st.tokens();
        let ghost start = st.cursor();
        let mut res: Vec<T> = Vec::new();
        let mut i: usize = 0;
        while i < self.0.len()
            invariant
                T::obeys_eq_spec(),
                st.wf(),
                input == old(st).tokens(),
                start == old(st).cursor(),
                st.tokens() == input,
                st.cursor() == start + i,
                0 <= i <= self.0@.len(),
                forall|j: int| 0 <= j < i ==> matches_at(self.0@, input, start, j),
                res@ == input.subrange(start as int, start + i),
            decreases self.0@.len() - i,
        {
            let x: T = self.0[i];
            match st.peak() {
                None => {
                    let err = Err(ParserError::new(st.pos(), None, ErrorExpect::Token(x)));
                    proof {
                        assert(stops_after(self.0@, input, start, i as int, err, st.cursor()));
                    }
                    return err;
                },
                Some(y) => {
                    if x == y {
                        st.next();
                        res.push(y);
                        proof {
                            assert(res@ =~= input.subrange(start as int, start + i + 1));
                        }
                    } else {
                        let err = Err(ParserError::new(st.pos(), Some(y), ErrorExpect::Token(x)));
                        proof {
                            assert(stops_after(self.0@, input, start, i as int, err, st.cursor()));
                        }
                        return err;
                    }
                },
            }
            i = i + 1;
        }
        let done = Ok(res);
        proof {
            assert(stops_after(self.0@, input, start, i as int, done, st.cursor()));
        }
        done
    }
}

/// Takes one token that the held predicate accepts.
#[derive(Clone, Debug)]
#[verifier::reject_recursive_types(T)]
pub struct Expect<T: Copy, F: Fn(&T) -> bool>(pub F, pub PhantomData<T>);

impl<T: Copy, F: Fn(&T) -> bool> Expect<T, F> {
    /// Builds the parser from its parts.
    pub fn new(f: F) -> (p: Self)
        ensures
            p == Expect(f, PhantomData::<T>),
    {
        Expect(f, PhantomData)
    }
}

impl<T: Copy, F: Fn(&T) -> bool> Parser for Expect<T, F> {
    type Input = T;

    type Output = T;

    /// The predicate may be asked about every token.
    open spec fn wf(&self) -> bool {
        forall|t: T| #[trigger] self.0.requires((&t,))
    }

    /// A next token that the predicate accepts is returned and consumed. One
    /// that it refuses, or none, gives an `Unknown` error on the spot.
    open spec fn parses(
        &self,
        input: Seq<T>,
        start: nat,
        res: ParserResult<T, T>,
        end: nat,
    ) -> bool {
        match token_at(input, start) {
            Some(t) => exists|ok: bool| #[trigger]
                self.0.ensures((&t,), ok) && if ok {
                    res == Ok::<T, ParserError<T>>(t) && end == start + 1
                } else {
                    is_error(res, start, Some(t), ErrorExpect::Unknown) && end == start
                },
            None => is_error(res, start, None, ErrorExpect::Unknown) && end == start,
        }
    }

    fn parse(&self, st: &mut Stream<T>) -> (res: ParserResult<T, T>) {
        match st.peak() {
            None => Err(ParserError::new(st.pos(), None, ErrorExpect::Unknown)),
            Some(x) => {
                if (self.0)(&x) {
                    st.next();
                    Ok(x)
                } else {
                    Err(ParserError::new(st.pos(), Some(x), ErrorExpect::Unknown))
                }
            },
        }
    }
}

/// Hands the work to a function of the stream. The function answers with
/// its result and with the position where the cursor is to stand afterwards.
#[derive(Clone, Debug)]
#[verifier::reject_recursive_types(A)]
#[verifier::reject_recursive_types(B)]
pub struct ParserFunc<F: Fn(&Stream<A>) -> (ParserResult<B, A>, usize), A, B>(
    pub F,
    pub PhantomData<(A, B)>,
);

impl<F: Fn(&Stream<A>) -> (ParserResult<B, A>, usize), A, B> ParserFunc<F, A, B> {
    /// Builds the parser from its parts.
    pub fn new(f: F) -> (p: Self)
        ensures
            p == ParserFunc(f, PhantomData::<(A, B)>),
    {
        ParserFunc(f, PhantomData)
    }
}

impl<F: Fn(&Stream<A>) -> (ParserResult<B, A>, usize), A, B> Parser for ParserFunc<F, A, B> {
    type Input = A;

    type Output = B;

    /// The function may be called on every valid stream, and the position it
    /// answers with lies inside that stream or at its end.
    open spec fn wf(&self) -> bool {
        &&& forall|st: &Stream<A>| st.wf() ==> #[trigger] self.0.requires((st,))
        &&& forall|st: &Stream<A>, out: (ParserResult<B, A>, usize)|
            st.wf() && #[trigger] self.0.ensures((st,), out) ==> out.1 <= st.tokens().len()
    }

    /// Whatever the function may answer on a stream with this input and
    /// this cursor.
    open spec fn parses(
        &self,
        input: Seq<A>,
        start: nat,
        res: ParserResult<B, A>,
        end: nat,
    ) -> bool {
        exists|st: &Stream<A>, to: usize|
            {
                &&& st.wf()
                &&& st.tokens() == input
                &&& st.cursor() == start
                &&& #[trigger] self.0.ensures((st,), (res, to))
                &&& to == end
            }
    }

    fn parse(&self, st: &mut Stream<A>) -> (res: ParserResult<B, A>) {
        let (res, to) = (self.0)(&*st);
        st.set_pos(to);
        res
    }
}

/// Fails wherever it is run.
#[derive(Clone, Debug)]
#[verifier::reject_recursive_types(A)]
#[verifier::reject_recursive_types(B)]
pub struct Fail<A: Copy, B>(pub PhantomData<(A, B)>);

impl<A: Copy, B> Fail<A, B> {
    /// Builds the parser; it holds nothing.
    pub fn new() -> (p: Self)
        ensures
            p == Fail(PhantomData::<(A, B)>),
    {
        Fail(PhantomData)
    }
}

impl<A: Copy, B> Parser for Fail<A, B> {
    type Input = A;

    type Output = B;

    open spec fn wf(&self) -> bool {
        true
    }

    /// An `Unknown` error on the spot that shows the next token, if any.
    open spec fn parses(
        &self,
        input: Seq<A>,
        start: nat,
        res: ParserResult<B, A>,
        end: nat,
    ) -> bool {
        &&& is_error(res, start, token_at(input, start), ErrorExpect::Unknown)
        &&& end == start
    }

    fn parse(&self, st: &mut Stream<A>) -> (res: ParserResult<B, A>) {
        Err(ParserError::new(st.pos(), st.peak(), ErrorExpect::Unknown))
    }
}

} // verus!
