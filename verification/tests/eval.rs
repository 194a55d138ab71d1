use rcc::eval::eval_const;
use rcc::parser::parse_expression;
use rcc::span::Span;
use rcc::token::Token;

fn spanned(ts: Vec<Token>) -> Vec<(Token, Span)> {
    ts.into_iter()
        .enumerate()
        .map(|(i, t)| (t, Span::new(i, i + 1)))
        .collect()
}

fn eval(ts: Vec<Token>) -> Option<i64> {
    let toks = spanned(ts);
    let (expr, next) = parse_expression(&toks, 0).expect("parses");
    assert_eq!(next, toks.len());
    eval_const(&expr)
}

#[test]
fn subtraction_evaluates_left_associatively() {
    // "1 - 2 - 3" is (1 - 2) - 3 = -4.
    let v = eval(vec![
        Token::LitInteger(1),
        Token::Minus,
        Token::LitInteger(2),
        Token::Minus,
        Token::LitInteger(3),
    ]);
    assert_eq!(v, Some(-4));
}

#[test]
fn division_truncates_toward_zero() {
    // "-7 / 2" is -3; "-7 % 2" is -1.
    let q = eval(vec![
        Token::Minus,
        Token::LitInteger(7),
        Token::Slash,
        Token::LitInteger(2),
    ]);
    assert_eq!(q, Some(-3));
    let r = eval(vec![
        Token::Minus,
        Token::LitInteger(7),
        Token::Percent,
        Token::LitInteger(2),
    ]);
    assert_eq!(r, Some(-1));
}

#[test]
fn division_by_zero_has_no_value() {
    let v = eval(vec![
        Token::LitInteger(1),
        Token::Slash,
        Token::LitInteger(0),
    ]);
    assert_eq!(v, None);
}

#[test]
fn right_shift_is_logical() {
    // "-1 >> 63" with a logical shift is 1, matching the generated `shr`.
    let v = eval(vec![
        Token::Minus,
        Token::LitInteger(1),
        Token::RightShift,
        Token::LitInteger(63),
    ]);
    assert_eq!(v, Some(1));
}

#[test]
fn logical_operators_short_circuit() {
    // "0 && x" and "1 || x" have values even though `x` does not.
    let v = eval(vec![
        Token::LitInteger(0),
        Token::AndAnd,
        Token::Identifier("x".to_string()),
    ]);
    assert_eq!(v, Some(0));
    let v = eval(vec![
        Token::LitInteger(1),
        Token::PipePipe,
        Token::Identifier("x".to_string()),
    ]);
    assert_eq!(v, Some(1));
    let v = eval(vec![
        Token::LitInteger(1),
        Token::AndAnd,
        Token::Identifier("x".to_string()),
    ]);
    assert_eq!(v, None);
}

#[test]
fn comparisons_produce_booleans() {
    let v = eval(vec![
        Token::LitInteger(2),
        Token::LesserThan,
        Token::LitInteger(3),
    ]);
    assert_eq!(v, Some(1));
    let v = eval(vec![
        Token::LitInteger(2),
        Token::GreaterEquals,
        Token::LitInteger(3),
    ]);
    assert_eq!(v, Some(0));
}

#[test]
fn ternary_is_lazy() {
    // "1 ? 2 : x" has a value even though `x` does not.
    let v = eval(vec![
        Token::LitInteger(1),
        Token::Question,
        Token::LitInteger(2),
        Token::Colon,
        Token::Identifier("x".to_string()),
    ]);
    assert_eq!(v, Some(2));
}
