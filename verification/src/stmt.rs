//! Statements and function declarations of the syntax tree.

use vstd::prelude::*;
use crate::expr::{Expr, ExprModel};
use crate::span::Span;

verus! {

/// One statement node.
#[derive(Debug, PartialEq, Eq)]
pub enum Stmt {
    /// A brace-delimited statement list; introduces a new lexical scope.
    Block(Vec<(Stmt, Span)>),
    /// An expression evaluated for its side effect; the result is
    /// discarded.
    Expression((Expr, Span)),
    /// A declaration of a new stack slot, optionally initialized
    /// (defaulting to zero).
    Declare((String, Span), Option<(Expr, Span)>),
    /// A conditional branch with an optional else clause.
    If((Expr, Span), Box<(Stmt, Span)>, Option<Box<(Stmt, Span)>>),
    /// Evaluates an expression into the accumulator, tears the frame down
    /// and returns.
    Return((Expr, Span)),
    /// A bare semicolon.
    Empty,
}

/// The mathematical model of a statement.
pub enum StmtModel {
    Block(Seq<(StmtModel, Span)>),
    Expression((ExprModel, Span)),
    Declare((Seq<char>, Span), Option<(ExprModel, Span)>),
    If((ExprModel, Span), Box<(StmtModel, Span)>, Option<Box<(StmtModel, Span)>>),
    Return((ExprModel, Span)),
    Empty,
}

/// The models of a sequence of spanned statements, elementwise.
pub open spec fn stmt_seq_view(s: Seq<(Stmt, Span)>) -> Seq<(StmtModel, Span)>
    decreases s,
{
    if s.len() == 0 {
        Seq::empty()
    } else {
        seq![(s[0].0.deep_view(), s[0].1)] + stmt_seq_view(s.drop_first())
    }
}

/// `stmt_seq_view` maps the sequence elementwise.
pub proof fn lemma_stmt_seq_view_props(s: Seq<(Stmt, Span)>)
    ensures
        stmt_seq_view(s).len() == s.len(),
        forall|i: int|
            0 <= i < s.len() ==> #[trigger] stmt_seq_view(s)[i] == (s[i].0.deep_view(), s[i].1),
    decreases s.len(),
{
    if s.len() > 0 {
        lemma_stmt_seq_view_props(s.drop_first());
        assert forall|i: int| 0 <= i < s.len() implies #[trigger] stmt_seq_view(s)[i] == (
            s[i].0.deep_view(),
            s[i].1,
        ) by {
            if i == 0 {
                assert(stmt_seq_view(s)[0] == (s[0].0.deep_view(), s[0].1));
            } else {
                assert(stmt_seq_view(s)[i] == stmt_seq_view(s.drop_first())[i - 1]);
                assert(s.drop_first()[i - 1] == s[i]);
            }
        }
    }
}

impl DeepView for Stmt {
    type V = StmtModel;

    open spec fn deep_view(&self) -> StmtModel
        decreases self,
    {
        match self {
            Stmt::Block(stmts) => StmtModel::Block(stmt_seq_view(stmts@)),
            Stmt::Expression(e) => StmtModel::Expression((e.0.deep_view(), e.1)),
            Stmt::Declare(name, init) => StmtModel::Declare(
                (name.0@, name.1),
                match init {
                    Some(e) => Some((e.0.deep_view(), e.1)),
                    None => None,
                },
            ),
            Stmt::If(cond, then, els) => StmtModel::If(
                (cond.0.deep_view(), cond.1),
                Box::new(((*then).0.deep_view(), (*then).1)),
                match els {
                    Some(e) => Some(Box::new(((*e).0.deep_view(), (*e).1))),
                    None => None,
                },
            ),
            Stmt::Return(e) => StmtModel::Return((e.0.deep_view(), e.1)),
            Stmt::Empty => StmtModel::Empty,
        }
    }
}

/// A named top-level function: its name and its body, a statement list.
/// Functions take no parameters and have an implicit integer return type.
#[derive(Debug, PartialEq, Eq)]
pub struct FnDeclaration(pub String, pub Vec<(Stmt, Span)>);

/// The mathematical model of a function declaration.
pub struct FnDeclarationModel(pub Seq<char>, pub Seq<(StmtModel, Span)>);

impl DeepView for FnDeclaration {
    type V = FnDeclarationModel;

    open spec fn deep_view(&self) -> FnDeclarationModel {
        FnDeclarationModel(self.0@, stmt_seq_view(self.1@))
    }
}

} // verus!
