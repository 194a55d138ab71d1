//! Expressions: the recursive syntax-tree type produced by the parser and
//! consumed by code generation, together with the desugaring of compound
//! assignment.

use vstd::prelude::*;
use crate::op::{
    spec_compound_to_operator, spec_is_compound_assignment, BinaryOperator, UnaryOperator,
};
use crate::span::Span;

verus! {

/// One expression node. Every node is paired with the `Span` of its full
/// source extent; child spans nest within parent spans.
#[derive(Debug, PartialEq, Eq)]
pub enum Expr {
    LiteralInteger(u64),
    Variable(String),
    Unary(UnaryOperator, Box<(Expr, Span)>),
    Binary(Box<(Expr, Span)>, BinaryOperator, Box<(Expr, Span)>),
    Ternary(Box<(Expr, Span)>, Box<(Expr, Span)>, Box<(Expr, Span)>),
}

/// The mathematical model of an expression: variable names as character
/// sequences.
pub enum ExprModel {
    LiteralInteger(u64),
    Variable(Seq<char>),
    Unary(UnaryOperator, Box<(ExprModel, Span)>),
    Binary(Box<(ExprModel, Span)>, BinaryOperator, Box<(ExprModel, Span)>),
    Ternary(Box<(ExprModel, Span)>, Box<(ExprModel, Span)>, Box<(ExprModel, Span)>),
}

impl DeepView for Expr {
    type V = ExprModel;

    open spec fn deep_view(&self) -> ExprModel
        decreases self,
    {
        match self {
            Expr::LiteralInteger(v) => ExprModel::LiteralInteger(*v),
            Expr::Variable(s) => ExprModel::Variable(s@),
            Expr::Unary(op, r) => ExprModel::Unary(
                *op,
                Box::new(((*r).0.deep_view(), (*r).1)),
            ),
            Expr::Binary(l, op, r) => ExprModel::Binary(
                Box::new(((*l).0.deep_view(), (*l).1)),
                *op,
                Box::new(((*r).0.deep_view(), (*r).1)),
            ),
            Expr::Ternary(c, a, b) => ExprModel::Ternary(
                Box::new(((*c).0.deep_view(), (*c).1)),
                Box::new(((*a).0.deep_view(), (*a).1)),
                Box::new(((*b).0.deep_view(), (*b).1)),
            ),
        }
    }
}

/// The variable name an expression denotes when it is a valid assignment
/// target: only a bare variable reference qualifies.
pub open spec fn spec_as_lvalue(e: ExprModel) -> Option<Seq<char>> {
    match e {
        ExprModel::Variable(s) => Some(s),
        _ => None,
    }
}

/// Desugars a compound assignment `lhs OP= rhs` into `lhs = lhs OP rhs`,
/// duplicating the left-hand subtree; `None` for any other node.
pub open spec fn spec_desugar(e: (ExprModel, Span)) -> Option<(ExprModel, Span)> {
    match e.0 {
        ExprModel::Binary(l, op, r) => if spec_is_compound_assignment(op) {
            Some(
                (
                    ExprModel::Binary(
                        l,
                        BinaryOperator::Eq,
                        Box::new(
                            (
                                ExprModel::Binary(l, spec_compound_to_operator(op)->Some_0, r),
                                e.1,
                            ),
                        ),
                    ),
                    e.1,
                ),
            )
        } else {
            None
        },
        _ => None,
    }
}

impl Expr {
    /// Wraps an operand in a prefix operator node.
    pub fn new_unary(op: UnaryOperator, rhs: (Expr, Span), span: Span) -> (r: (Expr, Span))
        ensures
            r.deep_view() == (ExprModel::Unary(op, Box::new(rhs.deep_view())), span),
    {
        (Expr::Unary(op, Box::new(rhs)), span)
    }

    /// Joins two operands under a binary operator.
    pub fn new_binary(lhs: (Expr, Span), op: BinaryOperator, rhs: (Expr, Span), span: Span) -> (r:
        (Expr, Span))
        ensures
            r.deep_view() == (
                ExprModel::Binary(Box::new(lhs.deep_view()), op, Box::new(rhs.deep_view())),
                span,
            ),
    {
        (Expr::Binary(Box::new(lhs), op, Box::new(rhs)), span)
    }

    /// Builds a conditional expression `cond ? a : b`.
    pub fn new_ternary(cond: (Expr, Span), a: (Expr, Span), b: (Expr, Span), span: Span) -> (r: (
        Expr,
        Span,
    ))
        ensures
            r.deep_view() == (
                ExprModel::Ternary(
                    Box::new(cond.deep_view()),
                    Box::new(a.deep_view()),
                    Box::new(b.deep_view()),
                ),
                span,
            ),
    {
        (Expr::Ternary(Box::new(cond), Box::new(a), Box::new(b)), span)
    }

    /// The variable name this expression may be assigned through, if it is
    /// a valid assignment target.
    pub fn as_lvalue(&self) -> (r: Option<&String>)
        ensures
            match spec_as_lvalue(self.deep_view()) {
                Some(name) => r matches Some(s) && s@ == name,
                None => r is None,
            },
    {
        match self {
            Expr::Variable(s) => Some(s),
            _ => None,
        }
    }
}

/// A deep copy of a spanned expression, with the same model.
pub fn clone_spanned_expr(e: &(Expr, Span)) -> (r: (Expr, Span))
    ensures
        r.deep_view() == e.deep_view(),
    decreases e.0,
{
    let span = e.1;
    let node = match &e.0 {
        Expr::LiteralInteger(v) => Expr::LiteralInteger(*v),
        Expr::Variable(s) => Expr::Variable(s.clone()),
        Expr::Unary(op, r) => Expr::Unary(*op, Box::new(clone_spanned_expr(r))),
        Expr::Binary(l, op, r) => Expr::Binary(
            Box::new(clone_spanned_expr(l)),
            *op,
            Box::new(clone_spanned_expr(r)),
        ),
        Expr::Ternary(c, a, b) => Expr::Ternary(
            Box::new(clone_spanned_expr(c)),
            Box::new(clone_spanned_expr(a)),
            Box::new(clone_spanned_expr(b)),
        ),
    };
    (node, span)
}

/// Desugars `lhs OP= rhs` into `lhs = lhs OP rhs`, cloning the left-hand
/// subtree once; `None` for any node that is not a compound assignment.
pub fn desugar(e: (Expr, Span)) -> (r: Option<(Expr, Span)>)
    ensures
        match spec_desugar(e.deep_view()) {
            Some(d) => r matches Some(x) && x.deep_view() == d,
            None => r is None,
        },
{
    let span = e.1;
    match &e.0 {
        Expr::Binary(l, op, r) => {
            if op.is_compound_assignment() {
                let base = op.compound_to_operator().unwrap();
                let lhs_outer = clone_spanned_expr(l);
                let lhs_inner = clone_spanned_expr(l);
                let rhs = clone_spanned_expr(r);
                let ghost lhs_outer_snap = lhs_outer;
                let ghost lhs_inner_snap = lhs_inner;
                let ghost rhs_snap = rhs;
                let bl = Box::new(lhs_outer);
                let bil = Box::new(lhs_inner);
                let bir = Box::new(rhs);
                proof {
                    assert(*bl == lhs_outer_snap);
                    assert(*bil == lhs_inner_snap);
                    assert(*bir == rhs_snap);
                }
                let inner = (Expr::Binary(bil, base, bir), span);
                let bi = Box::new(inner);
                let out = (Expr::Binary(bl, BinaryOperator::Eq, bi), span);
                proof {
                    assert(lhs_outer_snap.deep_view() == ((*l).0.deep_view(), (*l).1));
                    assert(lhs_inner_snap.deep_view() == ((*l).0.deep_view(), (*l).1));
                    assert(rhs_snap.deep_view() == ((*r).0.deep_view(), (*r).1));
                    assert(inner.0.deep_view() == ExprModel::Binary(
                        Box::new(lhs_inner_snap.deep_view()),
                        base,
                        Box::new(rhs_snap.deep_view()),
                    ));
                    assert(out.0.deep_view() == ExprModel::Binary(
                        Box::new(lhs_outer_snap.deep_view()),
                        BinaryOperator::Eq,
                        Box::new((inner.0.deep_view(), span)),
                    ));
                    assert(out.deep_view() == spec_desugar(e.deep_view())->Some_0);
                }
                Some(out)
            } else {
                None
            }
        },
        _ => None,
    }
}

} // verus!
