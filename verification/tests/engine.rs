use parser_combinator::error::{ErrorExpect, ParserError, ParserResult};
use parser_combinator::parser::{Compose, Parser};
use parser_combinator::primitive::{any_one, token, tokens, val};
use parser_combinator::stream::Stream;
use std::fmt::Debug;

fn helper<A: Parser>(
    analyzer: A,
    cases: Vec<(Vec<A::Input>, ParserResult<A::Output, A::Input>, usize)>,
) where
    A::Input: PartialEq + Debug,
    A::Output: PartialEq + Debug,
{
    for (input, result, pos) in cases {
        let mut st = Stream::new(input);
        assert_eq!(result, analyzer.parse(&mut st));
        assert_eq!(pos, st.pos());
    }
}

#[test]
fn map_test() {
    helper(
        token(1).map(|x| x + 1),
        vec![
            (vec![1], Ok(2), 1),
            (
                vec![2],
                Err(ParserError::new(0, Some(2), ErrorExpect::Token(1))),
                0,
            ),
        ],
    );
}

#[test]
fn attempt_test() {
    helper(
        tokens(vec![1, 2]).attempt(),
        vec![
            (vec![1, 2], Ok(vec![1, 2]), 2),
            (
                vec![1, 3],
                Err(ParserError::new(1, Some(3), ErrorExpect::Token(2))),
                0,
            ),
        ],
    );
}

#[test]
fn any_one_test() {
    helper(
        any_one(),
        vec![
            (vec![1], Ok(1), 1),
            (vec![], Err(ParserError::new(0, None, ErrorExpect::Any)), 0),
        ],
    );
}

#[test]
fn val_test() {
    helper(val(2), vec![(vec![1], Ok(2), 0)]);
}

#[test]
fn or_test() {
    helper(
        token(1).or(token(2)),
        vec![
            (vec![1], Ok(1), 1),
            (vec![2], Ok(2), 1),
            (
                vec![3],
                Err(ParserError::new(0, Some(3), ErrorExpect::Token(2))),
                0,
            ),
        ],
    );

    helper(
        tokens(vec![1, 2]).or(tokens(vec![1, 3])),
        vec![
            (
                vec![1, 3],
                Err(ParserError::new(1, Some(3), ErrorExpect::Token(2))),
                1,
            ),
            (
                vec![1, 1, 3],
                Err(ParserError::new(1, Some(1), ErrorExpect::Token(2))),
                1,
            ),
        ],
    );
}
