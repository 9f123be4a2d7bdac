use parser_combinator::analyzer::Analyzer;
use parser_combinator::parser::{Compose, Parser};
use parser_combinator::primitive::{token, tokens};
use parser_combinator::stream::Stream;

#[test]
fn analyze_keeps_the_output_of_a_success() {
    let mut st = Stream::new(vec![1, 2, 3]);
    assert_eq!(tokens(vec![1, 2]).analyze(&mut st), Some(vec![1, 2]));
    assert_eq!(st.pos(), 2);
}

#[test]
fn analyze_drops_the_error_and_leaves_the_cursor_as_parse_does() {
    let mut st = Stream::new(vec![1, 3]);
    assert_eq!(tokens(vec![1, 2]).analyze(&mut st), None);
    assert_eq!(st.pos(), 1);
    let mut again = Stream::new(vec![1, 3]);
    assert_eq!(tokens(vec![1, 2]).attempt().analyze(&mut again), None);
    assert_eq!(again.pos(), 0);
}

#[test]
fn analyze_agrees_with_parse() {
    let p = token(1).or(token(2)).many1();
    for input in [vec![1, 2, 2, 3], vec![3], vec![]] {
        let mut a = Stream::new(input.clone());
        let mut b = Stream::new(input);
        assert_eq!(p.analyze(&mut a), p.parse(&mut b).ok());
        assert_eq!(a.pos(), b.pos());
    }
}
