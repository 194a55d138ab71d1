use rcc::expr::Expr;
use rcc::op::{BinaryOperator, UnaryOperator};
use rcc::parser::{parse_expression, parse_program, parse_statement, ParseError};
use rcc::span::Span;
use rcc::stmt::Stmt;
use rcc::token::Token;

fn spanned(ts: Vec<Token>) -> Vec<(Token, Span)> {
    ts.into_iter()
        .enumerate()
        .map(|(i, t)| (t, Span::new(i, i + 1)))
        .collect()
}

fn var(name: &str) -> Token {
    Token::Identifier(name.to_string())
}

#[test]
fn subtraction_is_left_associative() {
    // "1 - 2 - 3" parses as (1 - 2) - 3.
    let toks = spanned(vec![
        Token::LitInteger(1),
        Token::Minus,
        Token::LitInteger(2),
        Token::Minus,
        Token::LitInteger(3),
    ]);
    let (expr, next) = parse_expression(&toks, 0).expect("parses");
    assert_eq!(next, 5);
    let expected = (
        Expr::Binary(
            Box::new((
                Expr::Binary(
                    Box::new((Expr::LiteralInteger(1), Span::new(0, 1))),
                    BinaryOperator::Minus,
                    Box::new((Expr::LiteralInteger(2), Span::new(2, 3))),
                ),
                Span::new(0, 3),
            )),
            BinaryOperator::Minus,
            Box::new((Expr::LiteralInteger(3), Span::new(4, 5))),
        ),
        Span::new(0, 5),
    );
    assert_eq!(expr, expected);
}

#[test]
fn multiplication_binds_tighter_than_addition() {
    let toks = spanned(vec![
        Token::LitInteger(1),
        Token::Plus,
        Token::LitInteger(2),
        Token::Star,
        Token::LitInteger(3),
    ]);
    let (expr, next) = parse_expression(&toks, 0).expect("parses");
    assert_eq!(next, 5);
    let expected = (
        Expr::Binary(
            Box::new((Expr::LiteralInteger(1), Span::new(0, 1))),
            BinaryOperator::Plus,
            Box::new((
                Expr::Binary(
                    Box::new((Expr::LiteralInteger(2), Span::new(2, 3))),
                    BinaryOperator::Multiply,
                    Box::new((Expr::LiteralInteger(3), Span::new(4, 5))),
                ),
                Span::new(2, 5),
            )),
        ),
        Span::new(0, 5),
    );
    assert_eq!(expr, expected);
}

#[test]
fn parentheses_regroup() {
    // "(1 + 2) * 3"
    let toks = spanned(vec![
        Token::OpenParen,
        Token::LitInteger(1),
        Token::Plus,
        Token::LitInteger(2),
        Token::CloseParen,
        Token::Star,
        Token::LitInteger(3),
    ]);
    let (expr, next) = parse_expression(&toks, 0).expect("parses");
    assert_eq!(next, 7);
    // The parenthesized node keeps the inner expression's span.
    let expected = (
        Expr::Binary(
            Box::new((
                Expr::Binary(
                    Box::new((Expr::LiteralInteger(1), Span::new(1, 2))),
                    BinaryOperator::Plus,
                    Box::new((Expr::LiteralInteger(2), Span::new(3, 4))),
                ),
                Span::new(1, 4),
            )),
            BinaryOperator::Multiply,
            Box::new((Expr::LiteralInteger(3), Span::new(6, 7))),
        ),
        Span::new(0, 7),
    );
    assert_eq!(expr, expected);
}

#[test]
fn unary_operators_fold_right() {
    // "-~5"
    let toks = spanned(vec![Token::Minus, Token::Tilde, Token::LitInteger(5)]);
    let (expr, next) = parse_expression(&toks, 0).expect("parses");
    assert_eq!(next, 3);
    let expected = (
        Expr::Unary(
            UnaryOperator::Minus,
            Box::new((
                Expr::Unary(
                    UnaryOperator::BitwiseNot,
                    Box::new((Expr::LiteralInteger(5), Span::new(2, 3))),
                ),
                Span::new(1, 3),
            )),
        ),
        Span::new(0, 3),
    );
    assert_eq!(expr, expected);
}

#[test]
fn chained_assignment_groups_left() {
    // "a = b = c" parses as (a = b) = c: the grammar's recognized quirk.
    let toks = spanned(vec![
        var("a"),
        Token::Equals,
        var("b"),
        Token::Equals,
        var("c"),
    ]);
    let (expr, next) = parse_expression(&toks, 0).expect("parses");
    assert_eq!(next, 5);
    match &expr.0 {
        Expr::Binary(l, BinaryOperator::Eq, r) => {
            assert!(matches!(
                l.0,
                Expr::Binary(_, BinaryOperator::Eq, _)
            ));
            assert!(matches!(&r.0, Expr::Variable(c) if c == "c"));
        }
        other => panic!("unexpected shape: {:?}", other),
    }
}

#[test]
fn ternary_parses() {
    // "1 ? 2 : 3"
    let toks = spanned(vec![
        Token::LitInteger(1),
        Token::Question,
        Token::LitInteger(2),
        Token::Colon,
        Token::LitInteger(3),
    ]);
    let (expr, next) = parse_expression(&toks, 0).expect("parses");
    assert_eq!(next, 5);
    assert!(matches!(expr.0, Expr::Ternary(_, _, _)));
    assert_eq!(expr.1, Span::new(0, 5));
}

#[test]
fn declaration_statement_parses() {
    // "int x = 5;"
    let toks = spanned(vec![
        Token::Int,
        var("x"),
        Token::Equals,
        Token::LitInteger(5),
        Token::Semicolon,
    ]);
    let (stmt, next) = parse_statement(&toks, 0).expect("parses");
    assert_eq!(next, 5);
    let expected = (
        Stmt::Declare(
            ("x".to_string(), Span::new(1, 2)),
            Some((Expr::LiteralInteger(5), Span::new(3, 4))),
        ),
        Span::new(0, 5),
    );
    assert_eq!(stmt, expected);
}

#[test]
fn if_else_statement_parses() {
    // "if (1) ; else ;"
    let toks = spanned(vec![
        Token::If,
        Token::OpenParen,
        Token::LitInteger(1),
        Token::CloseParen,
        Token::Semicolon,
        Token::Else,
        Token::Semicolon,
    ]);
    let (stmt, next) = parse_statement(&toks, 0).expect("parses");
    assert_eq!(next, 7);
    let expected = (
        Stmt::If(
            (Expr::LiteralInteger(1), Span::new(2, 3)),
            Box::new((Stmt::Empty, Span::new(4, 5))),
            Some(Box::new((Stmt::Empty, Span::new(6, 7)))),
        ),
        Span::new(0, 7),
    );
    assert_eq!(stmt, expected);
}

#[test]
fn program_with_trailing_garbage_is_rejected() {
    // "int main ( ) { } }" leaves the second closing brace unconsumed.
    let toks = spanned(vec![
        Token::Int,
        var("main"),
        Token::OpenParen,
        Token::CloseParen,
        Token::OpenBrace,
        Token::CloseBrace,
        Token::CloseBrace,
    ]);
    let err = parse_program(&toks).unwrap_err();
    assert_eq!(
        err,
        ParseError { at: 6, span: Span::new(6, 7), found: "}".to_string() }
    );
}

#[test]
fn unbraced_function_body_is_rejected() {
    // "int main ( ) return 0 ;" lacks the brace-delimited body.
    let toks = spanned(vec![
        Token::Int,
        var("main"),
        Token::OpenParen,
        Token::CloseParen,
        Token::Return,
        Token::LitInteger(0),
        Token::Semicolon,
    ]);
    let err = parse_program(&toks).unwrap_err();
    assert_eq!(
        err,
        ParseError { at: 0, span: Span::new(0, 1), found: "int".to_string() }
    );
}

#[test]
fn empty_program_parses() {
    let toks: Vec<(Token, Span)> = Vec::new();
    let fns = parse_program(&toks).expect("parses");
    assert!(fns.is_empty());
}
