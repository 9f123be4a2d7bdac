use parser_combinator::error::{ErrorExpect, ParserError, ParserResult};
use parser_combinator::parser::Parser;
use parser_combinator::primitive::{
    any_one, eof, expect, fail, parser_func, token, tokens, val, AnyOne, Eof, Expect, Fail,
    ParserFunc, Token, Tokens, Val,
};
use parser_combinator::stream::Stream;

fn run<A: Parser>(p: &A, input: Vec<A::Input>) -> (ParserResult<A::Output, A::Input>, usize) {
    let mut st = Stream::new(input);
    let res = p.parse(&mut st);
    (res, st.pos())
}

#[test]
fn stream_starts_at_zero_and_peeks_without_moving() {
    let st = Stream::new(vec![7, 8]);
    assert_eq!(st.pos(), 0);
    assert_eq!(st.peak(), Some(7));
    assert_eq!(st.peak(), Some(7));
    assert_eq!(st.pos(), 0);
    assert!(!st.eof());
}

#[test]
fn stream_advances_and_restores() {
    let mut st = Stream::new(vec![7, 8, 9]);
    st.next();
    assert_eq!(st.pos(), 1);
    assert_eq!(st.peak(), Some(8));
    let saved = st.pos();
    st.add_pos(2);
    assert_eq!(st.pos(), 3);
    assert_eq!(st.peak(), None);
    assert!(st.eof());
    st.set_pos(saved);
    assert_eq!(st.pos(), 1);
    assert_eq!(st.peak(), Some(8));
}

#[test]
fn stream_over_nothing_is_at_its_end() {
    let st: Stream<u8> = Stream::new(vec![]);
    assert_eq!(st.peak(), None);
    assert!(st.eof());
}

#[test]
fn error_new_keeps_its_fields() {
    let e = ParserError::new(4, Some('x'), ErrorExpect::Token('y'));
    assert_eq!(e.pos, 4);
    assert_eq!(e.unexpected, Some('x'));
    assert_eq!(e.expecting, ErrorExpect::Token('y'));
}

#[test]
fn any_one_takes_the_first_token_only() {
    assert_eq!(run(&any_one(), vec![5, 6]), (Ok(5), 1));
    assert_eq!(run(&AnyOne::new(), vec![9]), (Ok(9), 1));
}

#[test]
fn eof_succeeds_only_at_the_end() {
    assert_eq!(run(&eof::<i32>(), vec![]), (Ok(()), 0));
    assert_eq!(
        run(&eof(), vec![3]),
        (Err(ParserError::new(0, Some(3), ErrorExpect::Eof)), 0)
    );
    assert_eq!(run(&Eof::<u8>::new(), vec![]), (Ok(()), 0));
}

#[test]
fn val_never_consumes() {
    assert_eq!(run(&val::<&str, i32>("k"), vec![]), (Ok("k"), 0));
    assert_eq!(run(&Val::<u8, i32>::new(4), vec![1, 2]), (Ok(4), 0));
}

#[test]
fn token_matches_and_consumes_one() {
    assert_eq!(run(&token('a'), vec!['a', 'b']), (Ok('a'), 1));
    assert_eq!(run(&Token::new(2), vec![2]), (Ok(2), 1));
}

#[test]
fn token_mismatch_leaves_the_cursor() {
    assert_eq!(
        run(&token('a'), vec!['b']),
        (Err(ParserError::new(0, Some('b'), ErrorExpect::Token('a'))), 0)
    );
}

#[test]
fn token_at_the_end_reports_no_unexpected_token() {
    assert_eq!(
        run(&token('a'), vec![]),
        (Err(ParserError::new(0, None, ErrorExpect::Token('a'))), 0)
    );
}

#[test]
fn tokens_match_in_full() {
    assert_eq!(run(&tokens(vec![1, 2, 3]), vec![1, 2, 3, 4]), (Ok(vec![1, 2, 3]), 3));
    assert_eq!(run(&Tokens::new(vec![]), vec![1]), (Ok(vec![]), 0));
}

#[test]
fn tokens_keep_what_they_consumed_on_failure() {
    assert_eq!(
        run(&tokens(vec![1, 2, 3]), vec![1, 2, 9]),
        (Err(ParserError::new(2, Some(9), ErrorExpect::Token(3))), 2)
    );
    assert_eq!(
        run(&tokens(vec![1, 2, 3]), vec![1]),
        (Err(ParserError::new(1, None, ErrorExpect::Token(2))), 1)
    );
    assert_eq!(
        run(&tokens(vec![1, 2]), vec![5, 2]),
        (Err(ParserError::new(0, Some(5), ErrorExpect::Token(1))), 0)
    );
}

#[test]
fn expect_asks_the_predicate() {
    let even = expect(|x: &i32| *x % 2 == 0);
    assert_eq!(run(&even, vec![4, 5]), (Ok(4), 1));
    assert_eq!(
        run(&even, vec![5]),
        (Err(ParserError::new(0, Some(5), ErrorExpect::Unknown)), 0)
    );
    assert_eq!(
        run(&even, vec![]),
        (Err(ParserError::new(0, None, ErrorExpect::Unknown)), 0)
    );
    let any = Expect::new(|_: &i32| true);
    assert_eq!(run(&any, vec![1]), (Ok(1), 1));
}

#[test]
fn parser_func_moves_the_cursor_where_the_function_says() {
    let two = parser_func(|st: &Stream<i32>| {
        if st.pos() + 2 <= 3 {
            (Ok(st.pos()), st.pos() + 2)
        } else {
            (Err(ParserError::new(st.pos(), st.peak(), ErrorExpect::Unknown)), st.pos())
        }
    });
    assert_eq!(run(&two, vec![1, 2, 3]), (Ok(0), 2));
    let mut st = Stream::new(vec![1, 2, 3]);
    st.set_pos(2);
    assert_eq!(
        two.parse(&mut st),
        Err(ParserError::new(2, Some(3), ErrorExpect::Unknown))
    );
    assert_eq!(st.pos(), 2);
    let same = ParserFunc::new(|st: &Stream<i32>| (Ok::<i32, ParserError<i32>>(0), st.pos()));
    assert_eq!(run(&same, vec![1]), (Ok(0), 0));
}

#[test]
fn fail_always_fails_on_the_spot() {
    assert_eq!(
        run(&fail::<i32, ()>(), vec![8]),
        (Err(ParserError::new(0, Some(8), ErrorExpect::Unknown)), 0)
    );
    assert_eq!(
        run(&Fail::<i32, u8>::new(), vec![]),
        (Err(ParserError::new(0, None, ErrorExpect::Unknown)), 0)
    );
}
