use rcc::expr::{clone_spanned_expr, desugar, Expr};
use rcc::op::BinaryOperator;
use rcc::span::Span;

fn sp(i: usize) -> Span {
    Span::new(i, i + 1)
}

#[test]
fn test_as_lvalue() {
    let expr = Expr::Variable("x".to_string());
    assert_eq!(expr.as_lvalue(), Some(&"x".to_string()));

    let expr = Expr::LiteralInteger(42);
    assert_eq!(expr.as_lvalue(), None);
}

#[test]
fn desugar_compound_assignment() {
    // x += 3  desugars to  x = x + 3, reusing the spans.
    let lhs = (Expr::Variable("x".to_string()), sp(0));
    let rhs = (Expr::LiteralInteger(3), sp(2));
    let node = (
        Expr::Binary(Box::new(lhs), BinaryOperator::PlusEquals, Box::new(rhs)),
        Span::new(0, 3),
    );
    let expected = (
        Expr::Binary(
            Box::new((Expr::Variable("x".to_string()), sp(0))),
            BinaryOperator::Eq,
            Box::new((
                Expr::Binary(
                    Box::new((Expr::Variable("x".to_string()), sp(0))),
                    BinaryOperator::Plus,
                    Box::new((Expr::LiteralInteger(3), sp(2))),
                ),
                Span::new(0, 3),
            )),
        ),
        Span::new(0, 3),
    );
    assert_eq!(desugar(node), Some(expected));
}

#[test]
fn desugar_plain_nodes_refused() {
    let lhs = (Expr::Variable("x".to_string()), sp(0));
    let rhs = (Expr::LiteralInteger(3), sp(2));
    let node = (
        Expr::Binary(Box::new(lhs), BinaryOperator::Plus, Box::new(rhs)),
        Span::new(0, 3),
    );
    assert_eq!(desugar(node), None);
    assert_eq!(desugar((Expr::LiteralInteger(1), sp(0))), None);
}

#[test]
fn deep_clone_copies_everything() {
    let node = (
        Expr::Binary(
            Box::new((Expr::Variable("abc".to_string()), sp(0))),
            BinaryOperator::Multiply,
            Box::new((Expr::LiteralInteger(9), sp(2))),
        ),
        Span::new(0, 3),
    );
    let copy = clone_spanned_expr(&node);
    assert_eq!(copy, node);
}
