use bracket_dsl::error::ErrorKind;
use bracket_dsl::parser::Parser;
use bracket_dsl::position::{Located, Position};
use bracket_dsl::token::{str_eq, Token};

#[test]
fn extend_takes_the_covering_union() {
    let mut a = Position::new(0, 1, 2, 5);
    a.extend(&Position::new(0, 1, 7, 9));
    assert_eq!(a, Position::new(0, 1, 2, 9));

    let mut b = Position::new(3, 4, 0, 2);
    b.extend(&Position::new(1, 2, 5, 6));
    assert_eq!(b, Position::new(1, 4, 0, 6));
}

#[test]
fn extend_is_independent_of_order() {
    let p = Position::new(0, 2, 3, 8);
    let q = Position::new(1, 3, 1, 4);
    let r = Position::new(2, 5, 6, 9);

    let mut pq = p;
    pq.extend(&q);
    let mut qp = q;
    qp.extend(&p);
    assert_eq!(pq, qp);

    // Associativity: extending (p, q) then r equals extending p then (q, r).
    let mut left = pq;
    left.extend(&r);
    let mut qr = q;
    qr.extend(&r);
    let mut right = p;
    right.extend(&qr);
    assert_eq!(left, right);
}

#[test]
fn extend_never_shrinks() {
    let p = Position::new(2, 3, 4, 6);
    let q = Position::new(0, 9, 1, 8);
    let mut u = p;
    u.extend(&q);
    assert!(u.ln_start <= p.ln_start && u.ln_end >= p.ln_end);
    assert!(u.col_start <= p.col_start && u.col_end >= p.col_end);
    assert!(u.ln_start <= q.ln_start && u.ln_end >= q.ln_end);
    assert!(u.col_start <= q.col_start && u.col_end >= q.col_end);
}

fn toks(items: Vec<Token>) -> Vec<Located<Token>> {
    items
        .into_iter()
        .enumerate()
        .map(|(i, t)| Located::new(t, Position::new(0, 1, i, i + 1)))
        .collect()
}

#[test]
fn cursor_primitives_consume_in_order() {
    let mut p = Parser::new(
        "test".to_string(),
        toks(vec![Token::ExprIn, Token::Word("a".to_string()), Token::ExprOut]),
    );
    assert_eq!(p.token_ref().unwrap().item, Token::ExprIn);
    assert_eq!(p.token().unwrap().item, Token::ExprIn);
    assert_eq!(p.token().unwrap().item, Token::Word("a".to_string()));
    assert_eq!(p.token().unwrap().item, Token::ExprOut);
    assert!(p.token().is_none());
    assert!(p.token_ref().is_none());
}

#[test]
fn token_check_fails_without_position_at_the_end() {
    let mut p = Parser::new("test".to_string(), vec![]);
    let e = p.token_check().unwrap_err();
    assert_eq!(e.kind, ErrorKind::UnexpectedEndOfInput);
    assert!(e.pos.is_none());
    assert_eq!(e.path, "test");
}

#[test]
fn token_expect_accepts_and_rejects() {
    let mut p = Parser::new("test".to_string(), toks(vec![Token::End, Token::Sep]));
    assert!(p.token_expect(Token::End).is_ok());
    let e = p.token_expect(Token::End).unwrap_err();
    assert!(matches!(e.kind, ErrorKind::UnexpectedToken { .. }));
    assert!(e.pos.is_some());
}

#[test]
fn token_expects_accepts_any_listed_token() {
    let mut p = Parser::new("test".to_string(), toks(vec![Token::Rep, Token::Rep]));
    assert!(p.token_expects(vec![Token::End, Token::Rep]).is_ok());
    assert!(p.token_expects(vec![Token::End, Token::Sep]).is_err());
}

#[test]
fn token_skip_consumes_only_a_match() {
    let mut p = Parser::new("test".to_string(), toks(vec![Token::End, Token::Sep]));
    p.token_skip(Token::End);
    p.token_skip(Token::End);
    assert_eq!(p.token().unwrap().item, Token::Sep);
}

#[test]
fn str_eq_compares_by_characters() {
    assert!(str_eq("abc", "abc"));
    assert!(!str_eq("abc", "abd"));
    assert!(!str_eq("abc", "ab"));
    assert!(str_eq("", ""));
}
