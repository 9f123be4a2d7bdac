use parser_combinator::combinator::{
    And, Attempt, Either, Mapped, Msg, Optional, Or, Skip, Then, With,
};
use parser_combinator::error::{ErrorExpect, ParserError, ParserResult};
use parser_combinator::parser::{Compose, Parser};
use parser_combinator::primitive::{any_one, eof, expect, fail, token, tokens, val, Token, Tokens};
use parser_combinator::repetition::Loop;
use parser_combinator::stream::Stream;
use std::cell::Cell;

fn go<A: Parser>(p: &A, input: Vec<A::Input>) -> (ParserResult<A::Output, A::Input>, usize) {
    let mut st = Stream::new(input);
    let res = p.parse(&mut st);
    (res, st.pos())
}

#[test]
fn and_yields_both_outputs() {
    assert_eq!(go(&token(1).and(token(2)), vec![1, 2, 3]), (Ok((1, 2)), 2));
    assert_eq!(go(&And::new(token(1), any_one()), vec![1, 7]), (Ok((1, 7)), 2));
}

#[test]
fn and_stops_at_the_first_failure_without_rewinding() {
    let p = token(1).and(token(2));
    assert_eq!(
        go(&p, vec![1, 3]),
        (Err(ParserError::new(1, Some(3), ErrorExpect::Token(2))), 1)
    );
    assert_eq!(
        go(&p, vec![4, 2]),
        (Err(ParserError::new(0, Some(4), ErrorExpect::Token(1))), 0)
    );
}

#[test]
fn with_keeps_the_second_output() {
    assert_eq!(go(&token(1).with(token(2)), vec![1, 2]), (Ok(2), 2));
    assert_eq!(
        go(&With::new(token(1), token(2)), vec![1, 1]),
        (Err(ParserError::new(1, Some(1), ErrorExpect::Token(2))), 1)
    );
}

#[test]
fn skip_keeps_the_first_output() {
    assert_eq!(go(&token(1).skip(token(2)), vec![1, 2]), (Ok(1), 2));
    assert_eq!(
        go(&Skip::new(token(1), eof()), vec![1, 1]),
        (Err(ParserError::new(1, Some(1), ErrorExpect::Eof)), 1)
    );
}

#[test]
fn val_method_replaces_the_output() {
    assert_eq!(go(&token(1).val("one"), vec![1]), (Ok("one"), 1));
    assert_eq!(
        go(&token(1).val("one"), vec![2]),
        (Err(ParserError::new(0, Some(2), ErrorExpect::Token(1))), 0)
    );
}

#[test]
fn optional_is_absent_after_a_clean_failure() {
    assert_eq!(go(&token(1).optional(), vec![2]), (Ok(None), 0));
    assert_eq!(go(&token(1).optional(), vec![1]), (Ok(Some(1)), 1));
    assert_eq!(go(&Optional::new(token(1)), vec![]), (Ok(None), 0));
}

#[test]
fn optional_keeps_the_error_of_a_partial_match() {
    assert_eq!(
        go(&tokens(vec![1, 2]).optional(), vec![1, 3]),
        (Err(ParserError::new(1, Some(3), ErrorExpect::Token(2))), 1)
    );
}

#[test]
fn attempt_rewinds_whatever_was_consumed() {
    let p = Attempt::new(tokens(vec![1, 2, 3]));
    assert_eq!(
        go(&p, vec![1, 2, 4]),
        (Err(ParserError::new(2, Some(4), ErrorExpect::Token(3))), 0)
    );
    let mut st = Stream::new(vec![0, 1, 2, 4]);
    st.set_pos(1);
    assert_eq!(
        p.parse(&mut st),
        Err(ParserError::new(3, Some(4), ErrorExpect::Token(3)))
    );
    assert_eq!(st.pos(), 1);
}

#[test]
fn or_with_attempt_tries_the_second_branch() {
    let p = tokens(vec![1, 2]).attempt().or(tokens(vec![1, 3]));
    assert_eq!(go(&p, vec![1, 3]), (Ok(vec![1, 3]), 2));
}

#[test]
fn or_after_a_clean_failure_is_the_second_parser_alone() {
    let second = tokens(vec![2, 3]);
    let both = Or::new(token(1).map(|x| vec![x]), tokens(vec![2, 3]));
    for input in [vec![2, 3], vec![2, 4], vec![5], vec![]] {
        assert_eq!(go(&both, input.clone()), go(&second, input));
    }
}

#[test]
fn or_after_a_partial_match_never_runs_the_second_parser() {
    let calls = Cell::new(0);
    let watched = expect(|_: &i32| {
        calls.set(calls.get() + 1);
        true
    })
    .map(|x| vec![x]);
    let p = tokens(vec![1, 2]).or(watched);
    assert_eq!(
        go(&p, vec![1, 3]),
        (Err(ParserError::new(1, Some(3), ErrorExpect::Token(2))), 1)
    );
    assert_eq!(calls.get(), 0);
    assert_eq!(go(&p, vec![7]), (Ok(vec![7]), 1));
    assert_eq!(calls.get(), 1);
}

#[test]
fn ordered_choice_commits_after_one_token() {
    let p = tokens(vec![1, 2]).or(tokens(vec![1, 3]));
    assert_eq!(
        go(&p, vec![1, 3]),
        (Err(ParserError::new(1, Some(3), ErrorExpect::Token(2))), 1)
    );
}

#[test]
fn map_passes_failures_through() {
    let p = Mapped::new(|x: i32| x * 10, token(3));
    assert_eq!(go(&p, vec![3]), (Ok(30), 1));
    assert_eq!(
        go(&p, vec![]),
        (Err(ParserError::new(0, None, ErrorExpect::Token(3))), 0)
    );
}

#[test]
fn many_accepts_zero_repetitions() {
    assert_eq!(go(&token(1).many(), vec![2]), (Ok(vec![]), 0));
    assert_eq!(go(&token(1).many(), vec![]), (Ok(vec![]), 0));
}

#[test]
fn many_collects_until_a_clean_failure() {
    assert_eq!(go(&token(1).many(), vec![1, 1, 1, 2]), (Ok(vec![1, 1, 1]), 3));
    assert_eq!(go(&any_one().many(), vec![4, 5]), (Ok(vec![4, 5]), 2));
}

#[test]
fn many_fails_on_a_partial_trailing_element() {
    assert_eq!(
        go(&tokens(vec![1, 2]).many(), vec![1, 2, 1, 3]),
        (Err(ParserError::new(3, Some(3), ErrorExpect::Token(2))), 3)
    );
}

#[test]
fn many1_needs_one_match() {
    assert_eq!(
        go(&token(1).many1(), vec![2]),
        (Err(ParserError::new(0, Some(2), ErrorExpect::Token(1))), 0)
    );
    assert_eq!(go(&token(1).many1(), vec![1, 2]), (Ok(vec![1]), 1));
    assert_eq!(go(&token(1).many1(), vec![1, 1]), (Ok(vec![1, 1]), 2));
}

#[test]
fn many_n_takes_exactly_n() {
    assert_eq!(go(&token(1).many_n(2), vec![1, 1, 1]), (Ok(vec![1, 1]), 2));
    assert_eq!(
        go(&token(1).many_n(3), vec![1, 1, 2]),
        (Err(ParserError::new(2, Some(2), ErrorExpect::Token(1))), 2)
    );
    assert_eq!(go(&token(1).many_n(0), vec![1]), (Ok(vec![]), 0));
}

#[test]
fn many_n_attempts_no_more_than_n() {
    let calls = Cell::new(0);
    let counted = expect(|_: &i32| {
        calls.set(calls.get() + 1);
        true
    });
    assert_eq!(go(&counted.many_n(2), vec![5, 6, 7]), (Ok(vec![5, 6]), 2));
    assert_eq!(calls.get(), 2);
}

#[test]
fn loop_with_both_bounds() {
    let p = Loop::new(token(1), Some(1), Some(3));
    assert_eq!(go(&p, vec![1, 1, 1, 1]), (Ok(vec![1, 1, 1]), 3));
    assert_eq!(go(&p, vec![1, 2]), (Ok(vec![1]), 1));
    assert_eq!(
        go(&p, vec![2]),
        (Err(ParserError::new(0, Some(2), ErrorExpect::Token(1))), 0)
    );
}

#[test]
fn loop_with_a_maximum_stops_a_parser_that_consumes_nothing() {
    let p = Loop::new(val::<u8, i32>(9), None, Some(2));
    assert_eq!(go(&p, vec![1]), (Ok(vec![9, 9]), 0));
}

#[test]
fn msg_rewrites_only_the_expectation() {
    let p = token(1).msg(ErrorExpect::Eof);
    assert_eq!(
        go(&p, vec![2]),
        (Err(ParserError::new(0, Some(2), ErrorExpect::Eof)), 0)
    );
    assert_eq!(go(&p, vec![1]), (Ok(1), 1));
    let q = Msg::new(tokens(vec![1, 2]), ErrorExpect::Token(9));
    assert_eq!(
        go(&q, vec![1, 3]),
        (Err(ParserError::new(1, Some(3), ErrorExpect::Token(9))), 1)
    );
}

#[test]
fn then_builds_the_second_parser_from_the_first_output() {
    let p = any_one().then(|n: i32| token(n + 1));
    assert_eq!(go(&p, vec![4, 5]), (Ok(5), 2));
    assert_eq!(
        go(&p, vec![4, 6]),
        (Err(ParserError::new(1, Some(6), ErrorExpect::Token(5))), 1)
    );
    assert_eq!(
        go(&p, vec![]),
        (Err(ParserError::new(0, None, ErrorExpect::Any)), 0)
    );
    let q = Then::new(token(1), |_| token(1));
    assert_eq!(go(&q, vec![1, 1]), (Ok(1), 2));
}

#[test]
fn either_runs_the_parser_it_holds() {
    let right: Either<Token<i32>, Attempt<Token<i32>>> = Either::Right(token(1));
    let left: Either<Token<i32>, Attempt<Token<i32>>> = Either::Left(token(2).attempt());
    assert_eq!(go(&right, vec![1]), (Ok(1), 1));
    assert_eq!(go(&left, vec![2]), (Ok(2), 1));
    assert_eq!(
        go(&left, vec![1]),
        (Err(ParserError::new(0, Some(1), ErrorExpect::Token(2))), 0)
    );
}

#[test]
fn boxed_and_borrowed_parsers_behave_like_the_parser() {
    let plain: Tokens<i32> = tokens(vec![1, 2]);
    let expected = go(&plain, vec![1, 3]);
    assert_eq!(go(&&plain, vec![1, 3]), expected);
    let mut owned = tokens(vec![1, 2]);
    assert_eq!(go(&&mut owned, vec![1, 3]), expected);
    assert_eq!(go(&tokens(vec![1, 2]).boxed(), vec![1, 3]), expected);
}

#[test]
fn exhaustive_alternation_ends_in_fail() {
    let p = token(1).or(token(2).or(fail()));
    assert_eq!(go(&p, vec![2]), (Ok(2), 1));
    assert_eq!(
        go(&p, vec![3]),
        (Err(ParserError::new(0, Some(3), ErrorExpect::Unknown)), 0)
    );
}

#[test]
fn a_grammar_gives_the_same_result_on_every_fresh_stream() {
    let p = tokens(vec![1, 2])
        .attempt()
        .or(token(1).many1())
        .skip(token(3).optional())
        .and(eof());
    for input in [vec![1, 2, 3], vec![1, 1, 3], vec![1, 2, 4], vec![], vec![3]] {
        let first = go(&p, input.clone());
        let second = go(&p, input.clone());
        assert_eq!(first, second);
    }
    assert_eq!(go(&p, vec![1, 1, 3]), (Ok((vec![1, 1], ())), 3));
}
