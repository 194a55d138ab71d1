//! The parser: precedence-aware recursive descent over a spanned token
//! sequence, building span-tagged syntax trees.
//!
//! The ladder has eleven uniform binary tiers, each a left fold over the
//! next-higher tier (so `a - b - c` groups as `(a - b) - c`), with the
//! conditional operator between logical-or and assignment. Assignment is
//! itself a left fold over its operator family, which groups chained
//! assignments to the left (`a = b = c` as `(a = b) = c`) — a recognized
//! quirk of the grammar, kept deliberately. Prefix operators fold to the
//! right over a run of operators and one atom. Statements are chosen by
//! their leading token; everything else is an expression statement.

use vstd::prelude::*;
use crate::expr::{Expr, ExprModel};
use crate::op::{spec_unary_op, BinaryOperator, UnaryOperator};
use crate::span::Span;
use crate::stmt::{lemma_stmt_seq_view_props, stmt_seq_view, FnDeclaration, FnDeclarationModel, Stmt, StmtModel};
use crate::token::{spec_token_text, Token, TokenModel};

verus! {

/// The binary operator a token spells at one precedence tier, if any.
/// Tier 0 binds tightest (multiplicative); tier 10 is assignment.
pub open spec fn tier_op(tier: int, t: TokenModel) -> Option<BinaryOperator> {
    if tier == 0 {
        match t {
            TokenModel::Slash => Some(BinaryOperator::Divide),
            TokenModel::Star => Some(BinaryOperator::Multiply),
            TokenModel::Percent => Some(BinaryOperator::Mod),
            _ => None,
        }
    } else if tier == 1 {
        match t {
            TokenModel::Plus => Some(BinaryOperator::Plus),
            TokenModel::Minus => Some(BinaryOperator::Minus),
            _ => None,
        }
    } else if tier == 2 {
        match t {
            TokenModel::LeftShift => Some(BinaryOperator::LeftShift),
            TokenModel::RightShift => Some(BinaryOperator::RightShift),
            _ => None,
        }
    } else if tier == 3 {
        match t {
            TokenModel::GreaterEquals => Some(BinaryOperator::Ge),
            TokenModel::LesserEquals => Some(BinaryOperator::Le),
            TokenModel::GreaterThan => Some(BinaryOperator::Gt),
            TokenModel::LesserThan => Some(BinaryOperator::Lt),
            _ => None,
        }
    } else if tier == 4 {
        match t {
            TokenModel::NotEquals => Some(BinaryOperator::Ne),
            TokenModel::EqualsEquals => Some(BinaryOperator::EqEq),
            _ => None,
        }
    } else if tier == 5 {
        match t {
            TokenModel::And => Some(BinaryOperator::BitwiseAnd),
            _ => None,
        }
    } else if tier == 6 {
        match t {
            TokenModel::Caret => Some(BinaryOperator::BitwiseXor),
            _ => None,
        }
    } else if tier == 7 {
        match t {
            TokenModel::Pipe => Some(BinaryOperator::BitwiseOr),
            _ => None,
        }
    } else if tier == 8 {
        match t {
            TokenModel::AndAnd => Some(BinaryOperator::LogicalAnd),
            _ => None,
        }
    } else if tier == 9 {
        match t {
            TokenModel::PipePipe => Some(BinaryOperator::LogicalOr),
            _ => None,
        }
    } else if tier == 10 {
        match t {
            TokenModel::Equals => Some(BinaryOperator::Eq),
            TokenModel::PlusEquals => Some(BinaryOperator::PlusEquals),
            TokenModel::MinusEquals => Some(BinaryOperator::MinusEquals),
            TokenModel::StarEquals => Some(BinaryOperator::MultiplyEquals),
            TokenModel::SlashEquals => Some(BinaryOperator::DivideEquals),
            TokenModel::PercentEquals => Some(BinaryOperator::ModEquals),
            TokenModel::AndEquals => Some(BinaryOperator::AndEquals),
            TokenModel::PipeEquals => Some(BinaryOperator::OrEquals),
            TokenModel::CaretEquals => Some(BinaryOperator::XorEquals),
            TokenModel::LeftShiftEquals => Some(BinaryOperator::LeftShiftEquals),
            TokenModel::RightShiftEquals => Some(BinaryOperator::RightShiftEquals),
            _ => None,
        }
    } else {
        None
    }
}

/// The termination rank of one tier in the mutual recursion below.
pub open spec fn tier_rank(tier: int) -> int {
    if tier < 0 {
        2
    } else if tier <= 9 {
        tier + 2
    } else {
        13
    }
}

/// The source span covering tokens `i .. j` (inclusive start, exclusive
/// end): from the first token's start to the last one's end.
pub open spec fn span_of(t: Seq<(TokenModel, Span)>, i: int, j: int) -> Span {
    Span { start: t[i].1.start, end: t[j - 1].1.end }
}

/// Parses an atom: an integer literal, a parenthesized expression (which
/// keeps the inner expression's span), or a variable reference.
pub open spec fn parse_atom(t: Seq<(TokenModel, Span)>, i: int) -> Option<((ExprModel, Span), int)>
    decreases t.len() - i, 0int, 0int,
{
    if 0 <= i < t.len() {
        match t[i].0 {
            TokenModel::LitInteger(v) => Some(((ExprModel::LiteralInteger(v), t[i].1), i + 1)),
            TokenModel::OpenParen => match parse_bin(t, i + 1, 10) {
                Some((inner, j)) => if j < t.len() && t[j].0 is CloseParen {
                    Some((inner, j + 1))
                } else {
                    None
                },
                None => None,
            },
            TokenModel::Identifier(name) => Some(((ExprModel::Variable(name), t[i].1), i + 1)),
            _ => None,
        }
    } else {
        None
    }
}

/// Parses a run of prefix operators and one atom, folding to the right.
pub open spec fn parse_unary(t: Seq<(TokenModel, Span)>, i: int) -> Option<
    ((ExprModel, Span), int),
>
    decreases t.len() - i, 1int, 0int,
{
    if 0 <= i < t.len() && spec_unary_op(t[i].0) is Some {
        let op = spec_unary_op(t[i].0)->Some_0;
        match parse_unary(t, i + 1) {
            Some((rhs, j)) => Some(
                ((ExprModel::Unary(op, Box::new(rhs)), span_of(t, i, j)), j),
            ),
            None => None,
        }
    } else {
        parse_atom(t, i)
    }
}

/// Parses one binary tier: one operand of the next-higher tier, then a
/// left fold over `(operator, operand)` pairs. Tier 10 (assignment) folds
/// over conditional-expression operands.
pub open spec fn parse_bin(t: Seq<(TokenModel, Span)>, i: int, tier: int) -> Option<
    ((ExprModel, Span), int),
>
    decreases t.len() - i, tier_rank(tier), 1int,
{
    let first = if tier <= 0 {
        parse_unary(t, i)
    } else if tier >= 10 {
        parse_ternary(t, i)
    } else {
        parse_bin(t, i, tier - 1)
    };
    match first {
        Some((lhs, j)) => if i <= j <= t.len() {
            parse_bin_fold(t, lhs, i, j, tier)
        } else {
            None
        },
        None => None,
    }
}

/// The left fold of one binary tier: while an operator of the tier
/// follows and an operand parses after it, extend the tree to the left;
/// a failing operand rolls the operator back and ends the fold.
pub open spec fn parse_bin_fold(
    t: Seq<(TokenModel, Span)>,
    lhs: (ExprModel, Span),
    start: int,
    j: int,
    tier: int,
) -> Option<((ExprModel, Span), int)>
    decreases t.len() - j, tier_rank(tier), 0int,
{
    if 0 <= j < t.len() && tier_op(tier, t[j].0) is Some {
        let op = tier_op(tier, t[j].0)->Some_0;
        let rhs_r = if tier <= 0 {
            parse_unary(t, j + 1)
        } else if tier >= 10 {
            parse_ternary(t, j + 1)
        } else {
            parse_bin(t, j + 1, tier - 1)
        };
        match rhs_r {
            Some((rhs, k)) => if j < k <= t.len() {
                let node = (
                    ExprModel::Binary(Box::new(lhs), op, Box::new(rhs)),
                    span_of(t, start, k),
                );
                parse_bin_fold(t, node, start, k, tier)
            } else {
                None
            },
            None => Some((lhs, j)),
        }
    } else {
        Some((lhs, j))
    }
}

/// Parses the conditional tier: a logical-or operand, then a left fold
/// over `? a : b` tails whose branches are logical-or operands.
pub open spec fn parse_ternary(t: Seq<(TokenModel, Span)>, i: int) -> Option<
    ((ExprModel, Span), int),
>
    decreases t.len() - i, 12int, 1int,
{
    match parse_bin(t, i, 9) {
        Some((cond, j)) => if i <= j <= t.len() {
            parse_ternary_fold(t, cond, i, j)
        } else {
            None
        },
        None => None,
    }
}

/// The left fold of the conditional tier: a failing tail rolls back to
/// the condition parsed so far.
pub open spec fn parse_ternary_fold(
    t: Seq<(TokenModel, Span)>,
    cond: (ExprModel, Span),
    start: int,
    j: int,
) -> Option<((ExprModel, Span), int)>
    decreases t.len() - j, 12int, 0int,
{
    if 0 <= j < t.len() && t[j].0 is Question {
        match parse_bin(t, j + 1, 9) {
            Some((a, k)) => if j <= k && k < t.len() && t[k].0 is Colon {
                match parse_bin(t, k + 1, 9) {
                    Some((b, m)) => if j < m <= t.len() {
                        let node = (
                            ExprModel::Ternary(Box::new(cond), Box::new(a), Box::new(b)),
                            span_of(t, start, m),
                        );
                        parse_ternary_fold(t, node, start, m)
                    } else {
                        None
                    },
                    None => Some((cond, j)),
                }
            } else {
                Some((cond, j))
            },
            None => Some((cond, j)),
        }
    } else {
        Some((cond, j))
    }
}

/// Parses one full expression: the assignment tier.
pub open spec fn parse_expr(t: Seq<(TokenModel, Span)>, i: int) -> Option<((ExprModel, Span), int)>
{
    parse_bin(t, i, 10)
}

/// Parses one statement, chosen by its leading token: `if`, a block, a
/// `return`, a declaration, an empty statement, or an expression
/// statement.
pub open spec fn parse_stmt(t: Seq<(TokenModel, Span)>, i: int) -> Option<((StmtModel, Span), int)>
    decreases t.len() - i, 20int, 0int,
{
    if 0 <= i < t.len() {
        match t[i].0 {
            TokenModel::If => {
                if i + 1 < t.len() && t[i + 1].0 is OpenParen {
                    match parse_expr(t, i + 2) {
                        Some((cond, j)) => if i < j && j < t.len() && t[j].0 is CloseParen {
                            match parse_stmt(t, j + 1) {
                                Some((then, k)) => if j < k <= t.len() {
                                    if k < t.len() && t[k].0 is Else {
                                        match parse_stmt(t, k + 1) {
                                            Some((els, m)) => Some(
                                                (
                                                    (
                                                        StmtModel::If(
                                                            cond,
                                                            Box::new(then),
                                                            Some(Box::new(els)),
                                                        ),
                                                        span_of(t, i, m),
                                                    ),
                                                    m,
                                                ),
                                            ),
                                            None => Some(
                                                (
                                                    (
                                                        StmtModel::If(cond, Box::new(then), None),
                                                        span_of(t, i, k),
                                                    ),
                                                    k,
                                                ),
                                            ),
                                        }
                                    } else {
                                        Some(
                                            (
                                                (
                                                    StmtModel::If(cond, Box::new(then), None),
                                                    span_of(t, i, k),
                                                ),
                                                k,
                                            ),
                                        )
                                    }
                                } else {
                                    None
                                },
                                None => None,
                            }
                        } else {
                            None
                        },
                        None => None,
                    }
                } else {
                    None
                }
            },
            TokenModel::OpenBrace => {
                let (stmts, j) = parse_stmt_list(t, i + 1);
                if j < t.len() && t[j].0 is CloseBrace {
                    Some(((StmtModel::Block(stmts), span_of(t, i, j + 1)), j + 1))
                } else {
                    None
                }
            },
            TokenModel::Return => match parse_expr(t, i + 1) {
                Some((e, j)) => if j < t.len() && t[j].0 is Semicolon {
                    Some(((StmtModel::Return(e), span_of(t, i, j + 1)), j + 1))
                } else {
                    None
                },
                None => None,
            },
            TokenModel::Int => {
                if i + 1 < t.len() && t[i + 1].0 is Identifier {
                    let name = t[i + 1].0->Identifier_0;
                    let nspan = t[i + 1].1;
                    if i + 2 < t.len() && t[i + 2].0 is Equals {
                        match parse_expr(t, i + 3) {
                            Some((e, j)) => if j < t.len() && t[j].0 is Semicolon {
                                Some(
                                    (
                                        (
                                            StmtModel::Declare((name, nspan), Some(e)),
                                            span_of(t, i, j + 1),
                                        ),
                                        j + 1,
                                    ),
                                )
                            } else {
                                None
                            },
                            // A failing initializer cannot fall back to a
                            // bare declaration: the `=` sits where the
                            // semicolon would have to be.
                            None => None,
                        }
                    } else if i + 2 < t.len() && t[i + 2].0 is Semicolon {
                        Some(
                            (
                                (StmtModel::Declare((name, nspan), None), span_of(t, i, i + 3)),
                                i + 3,
                            ),
                        )
                    } else {
                        None
                    }
                } else {
                    None
                }
            },
            TokenModel::Semicolon => Some(((StmtModel::Empty, t[i].1), i + 1)),
            _ => match parse_expr(t, i) {
                Some((e, j)) => if j < t.len() && t[j].0 is Semicolon {
                    Some(((StmtModel::Expression(e), span_of(t, i, j + 1)), j + 1))
                } else {
                    None
                },
                None => None,
            },
        }
    } else {
        None
    }
}

/// Parses zero or more statements, stopping before the first position
/// where no statement parses.
pub open spec fn parse_stmt_list(t: Seq<(TokenModel, Span)>, i: int) -> (
    Seq<(StmtModel, Span)>,
    int,
)
    decreases t.len() - i, 21int, 0int,
{
    if 0 <= i < t.len() {
        match parse_stmt(t, i) {
            Some((s, j)) => if i < j <= t.len() {
                let (rest, k) = parse_stmt_list(t, j);
                (seq![s] + rest, k)
            } else {
                (Seq::empty(), i)
            },
            None => (Seq::empty(), i),
        }
    } else {
        (Seq::empty(), i)
    }
}

/// Parses one function declaration: the `int` keyword, the name, an empty
/// parameter list, and a brace-delimited statement sequence as the body.
pub open spec fn parse_fn_decl(t: Seq<(TokenModel, Span)>, i: int) -> Option<
    ((FnDeclarationModel, Span), int),
>
    decreases t.len() - i, 22int, 0int,
{
    if 0 <= i && i + 4 < t.len() && t[i].0 is Int && t[i + 1].0 is Identifier && t[i + 2].0
        is OpenParen && t[i + 3].0 is CloseParen && t[i + 4].0 is OpenBrace {
        let name = t[i + 1].0->Identifier_0;
        let (body, j) = parse_stmt_list(t, i + 5);
        if j < t.len() && t[j].0 is CloseBrace {
            Some(((FnDeclarationModel(name, body), span_of(t, i, j + 1)), j + 1))
        } else {
            None
        }
    } else {
        None
    }
}

/// Parses zero or more function declarations.
pub open spec fn parse_program_rec(t: Seq<(TokenModel, Span)>, i: int) -> (
    Seq<(FnDeclarationModel, Span)>,
    int,
)
    decreases t.len() - i, 23int, 0int,
{
    if 0 <= i < t.len() {
        match parse_fn_decl(t, i) {
            Some((f, j)) => if i < j <= t.len() {
                let (rest, k) = parse_program_rec(t, j);
                (seq![f] + rest, k)
            } else {
                (Seq::empty(), i)
            },
            None => (Seq::empty(), i),
        }
    } else {
        (Seq::empty(), i)
    }
}

/// What parsing a whole token sequence yields: the program's function
/// declarations when the whole input is consumed, or the position of the
/// first token the grammar could not consume.
pub open spec fn spec_parse_program(t: Seq<(TokenModel, Span)>) -> Result<
    Seq<(FnDeclarationModel, Span)>,
    int,
> {
    let (fns, j) = parse_program_rec(t, 0);
    if j == t.len() {
        Ok(fns)
    } else {
        Err(j)
    }
}

fn tier_op_ex(tier: usize, tok: &Token) -> (r: Option<BinaryOperator>)
    ensures
        r == tier_op(tier as int, tok.deep_view()),
{
    if tier == 0 {
        match tok {
            Token::Slash => Some(BinaryOperator::Divide),
            Token::Star => Some(BinaryOperator::Multiply),
            Token::Percent => Some(BinaryOperator::Mod),
            _ => None,
        }
    } else if tier == 1 {
        match tok {
            Token::Plus => Some(BinaryOperator::Plus),
            Token::Minus => Some(BinaryOperator::Minus),
            _ => None,
        }
    } else if tier == 2 {
        match tok {
            Token::LeftShift => Some(BinaryOperator::LeftShift),
            Token::RightShift => Some(BinaryOperator::RightShift),
            _ => None,
        }
    } else if tier == 3 {
        match tok {
            Token::GreaterEquals => Some(BinaryOperator::Ge),
            Token::LesserEquals => Some(BinaryOperator::Le),
            Token::GreaterThan => Some(BinaryOperator::Gt),
            Token::LesserThan => Some(BinaryOperator::Lt),
            _ => None,
        }
    } else if tier == 4 {
        match tok {
            Token::NotEquals => Some(BinaryOperator::Ne),
            Token::EqualsEquals => Some(BinaryOperator::EqEq),
            _ => None,
        }
    } else if tier == 5 {
        match tok {
            Token::And => Some(BinaryOperator::BitwiseAnd),
            _ => None,
        }
    } else if tier == 6 {
        match tok {
            Token::Caret => Some(BinaryOperator::BitwiseXor),
            _ => None,
        }
    } else if tier == 7 {
        match tok {
            Token::Pipe => Some(BinaryOperator::BitwiseOr),
            _ => None,
        }
    } else if tier == 8 {
        match tok {
            Token::AndAnd => Some(BinaryOperator::LogicalAnd),
            _ => None,
        }
    } else if tier == 9 {
        match tok {
            Token::PipePipe => Some(BinaryOperator::LogicalOr),
            _ => None,
        }
    } else if tier == 10 {
        match tok {
            Token::Equals => Some(BinaryOperator::Eq),
            Token::PlusEquals => Some(BinaryOperator::PlusEquals),
            Token::MinusEquals => Some(BinaryOperator::MinusEquals),
            Token::StarEquals => Some(BinaryOperator::MultiplyEquals),
            Token::SlashEquals => Some(BinaryOperator::DivideEquals),
            Token::PercentEquals => Some(BinaryOperator::ModEquals),
            Token::AndEquals => Some(BinaryOperator::AndEquals),
            Token::PipeEquals => Some(BinaryOperator::OrEquals),
            Token::CaretEquals => Some(BinaryOperator::XorEquals),
            Token::LeftShiftEquals => Some(BinaryOperator::LeftShiftEquals),
            Token::RightShiftEquals => Some(BinaryOperator::RightShiftEquals),
            _ => None,
        }
    } else {
        None
    }
}

fn p_atom(toks: &Vec<(Token, Span)>, i: usize) -> (r: Option<((Expr, Span), usize)>)
    ensures
        match parse_atom(toks.deep_view(), i as int) {
            Some((em, j)) => r matches Some((e2, j2)) && e2.0.deep_view() == em.0 && e2.1 == em.1
                && j2 as int == j && i < j2 <= toks@.len(),
            None => r is None,
        },
    decreases toks@.len() - i, 0int, 0int,
{
    proof {
        assert(toks.deep_view().len() == toks@.len());
    }
    if i < toks.len() {
        proof {
            assert(toks.deep_view()[i as int] == toks@[i as int].deep_view());
        }
        let tok = &toks[i];
        match &tok.0 {
            Token::LitInteger(v) => Some(((Expr::LiteralInteger(*v), tok.1), i + 1)),
            Token::OpenParen => match p_bin(toks, i + 1, 10) {
                Some((inner, j)) => {
                    proof {
                        if (j as int) < toks@.len() {
                            assert(toks.deep_view()[j as int] == toks@[j as int].deep_view());
                        }
                    }
                    if j < toks.len() && matches!(&toks[j].0, Token::CloseParen) {
                        Some((inner, j + 1))
                    } else {
                        None
                    }
                },
                None => None,
            },
            Token::Identifier(name) => Some(((Expr::Variable(name.clone()), tok.1), i + 1)),
            _ => None,
        }
    } else {
        None
    }
}

fn p_unary(toks: &Vec<(Token, Span)>, i: usize) -> (r: Option<((Expr, Span), usize)>)
    ensures
        match parse_unary(toks.deep_view(), i as int) {
            Some((em, j)) => r matches Some((e2, j2)) && e2.0.deep_view() == em.0 && e2.1 == em.1
                && j2 as int == j && i < j2 <= toks@.len(),
            None => r is None,
        },
    decreases toks@.len() - i, 1int, 0int,
{
    proof {
        reveal_with_fuel(parse_unary, 2);
        assert(toks.deep_view().len() == toks@.len());
        if (i as int) < toks@.len() {
            assert(toks.deep_view()[i as int] == toks@[i as int].deep_view());
        }
    }
    if i < toks.len() {
        match UnaryOperator::from_token(&toks[i].0) {
            Some(op) => match p_unary(toks, i + 1) {
                Some((rhs, j)) => {
                    let span = Span::new(toks[i].1.start, toks[j - 1].1.end);
                    proof {
                        assert(toks.deep_view()[j - 1] == toks@[j - 1].deep_view());
                        assert(span == span_of(toks.deep_view(), i as int, j as int));
                    }
                    let node = Expr::new_unary(op, rhs, span);
                    proof {
                        assert(parse_unary(toks.deep_view(), i as int) matches Some((em, jj))
                            && node.0.deep_view() == em.0 && node.1 == em.1 && jj == j as int);
                    }
                    Some((node, j))
                },
                None => {
                    proof {
                        assert(parse_unary(toks.deep_view(), i as int) is None);
                    }
                    None
                },
            },
            None => p_atom(toks, i),
        }
    } else {
        proof {
            assert(parse_unary(toks.deep_view(), i as int) is None);
        }
        None
    }
}

fn p_bin(toks: &Vec<(Token, Span)>, i: usize, tier: usize) -> (r: Option<((Expr, Span), usize)>)
    ensures
        match parse_bin(toks.deep_view(), i as int, tier as int) {
            Some((em, j)) => r matches Some((e2, j2)) && e2.0.deep_view() == em.0 && e2.1 == em.1
                && j2 as int == j && i < j2 <= toks@.len(),
            None => r is None,
        },
    decreases toks@.len() - i, tier_rank(tier as int), 1int,
{
    let first = if tier == 0 {
        p_unary(toks, i)
    } else if tier >= 10 {
        p_ternary(toks, i)
    } else {
        p_bin(toks, i, tier - 1)
    };
    match first {
        Some((lhs, j)) => Some(p_bin_fold(toks, lhs, i, j, tier)),
        None => None,
    }
}

fn p_bin_fold(toks: &Vec<(Token, Span)>, lhs: (Expr, Span), start: usize, j: usize, tier: usize) -> (r: ((Expr, Span), usize))
    requires
        start < j,
        j <= toks@.len(),
        start < toks@.len(),
    ensures
        parse_bin_fold(
            toks.deep_view(),
            (lhs.0.deep_view(), lhs.1),
            start as int,
            j as int,
            tier as int,
        ) == Some(((r.0.0.deep_view(), r.0.1), r.1 as int)),
        j <= r.1 <= toks@.len(),
    decreases toks@.len() - j, tier_rank(tier as int), 0int,
{
    proof {
        assert(toks.deep_view().len() == toks@.len());
        if (j as int) < toks@.len() {
            assert(toks.deep_view()[j as int] == toks@[j as int].deep_view());
        }
    }
    if j < toks.len() {
        match tier_op_ex(tier, &toks[j].0) {
            Some(op) => {
                let rhs_r = if tier == 0 {
                    p_unary(toks, j + 1)
                } else if tier >= 10 {
                    p_ternary(toks, j + 1)
                } else {
                    p_bin(toks, j + 1, tier - 1)
                };
                match rhs_r {
                    Some((rhs, k)) => {
                        let span = Span::new(toks[start].1.start, toks[k - 1].1.end);
                        proof {
                            assert(toks.deep_view()[start as int] == toks@[start as int].deep_view());
                            assert(toks.deep_view()[k - 1] == toks@[k - 1].deep_view());
                            assert(span == span_of(toks.deep_view(), start as int, k as int));
                        }
                        let node = Expr::new_binary(lhs, op, rhs, span);
                        p_bin_fold(toks, node, start, k, tier)
                    },
                    None => (lhs, j),
                }
            },
            None => (lhs, j),
        }
    } else {
        (lhs, j)
    }
}

fn p_ternary(toks: &Vec<(Token, Span)>, i: usize) -> (r: Option<((Expr, Span), usize)>)
    ensures
        match parse_ternary(toks.deep_view(), i as int) {
            Some((em, j)) => r matches Some((e2, j2)) && e2.0.deep_view() == em.0 && e2.1 == em.1
                && j2 as int == j && i < j2 <= toks@.len(),
            None => r is None,
        },
    decreases toks@.len() - i, 12int, 1int,
{
    match p_bin(toks, i, 9) {
        Some((cond, j)) => Some(p_ternary_fold(toks, cond, i, j)),
        None => None,
    }
}

fn p_ternary_fold(toks: &Vec<(Token, Span)>, cond: (Expr, Span), start: usize, j: usize) -> (r: (
    (Expr, Span),
    usize,
))
    requires
        start < j,
        j <= toks@.len(),
        start < toks@.len(),
    ensures
        parse_ternary_fold(
            toks.deep_view(),
            (cond.0.deep_view(), cond.1),
            start as int,
            j as int,
        ) == Some(((r.0.0.deep_view(), r.0.1), r.1 as int)),
        j <= r.1 <= toks@.len(),
    decreases toks@.len() - j, 12int, 0int,
{
    proof {
        assert(toks.deep_view().len() == toks@.len());
        if (j as int) < toks@.len() {
            assert(toks.deep_view()[j as int] == toks@[j as int].deep_view());
        }
    }
    if j < toks.len() && matches!(&toks[j].0, Token::Question) {
        match p_bin(toks, j + 1, 9) {
            Some((a, k)) => {
                proof {
                    if (k as int) < toks@.len() {
                        assert(toks.deep_view()[k as int] == toks@[k as int].deep_view());
                    }
                }
                if k < toks.len() && matches!(&toks[k].0, Token::Colon) {
                    match p_bin(toks, k + 1, 9) {
                        Some((b, m)) => {
                            let span = Span::new(toks[start].1.start, toks[m - 1].1.end);
                            proof {
                                assert(toks.deep_view()[start as int] == toks@[start as int].deep_view());
                                assert(toks.deep_view()[m - 1] == toks@[m - 1].deep_view());
                                assert(span == span_of(toks.deep_view(), start as int, m as int));
                            }
                            let node = Expr::new_ternary(cond, a, b, span);
                            p_ternary_fold(toks, node, start, m)
                        },
                        None => (cond, j),
                    }
                } else {
                    (cond, j)
                }
            },
            None => (cond, j),
        }
    } else {
        (cond, j)
    }
}

/// Parses one full expression (the assignment tier) at position `i`,
/// returning the spanned tree and the position after it, exactly as
/// `parse_expr` describes.
pub fn parse_expression(toks: &Vec<(Token, Span)>, i: usize) -> (r: Option<((Expr, Span), usize)>)
    ensures
        match parse_expr(toks.deep_view(), i as int) {
            Some((em, j)) => r matches Some((e2, j2)) && e2.0.deep_view() == em.0 && e2.1 == em.1
                && j2 as int == j && i < j2 <= toks@.len(),
            None => r is None,
        },
{
    p_bin(toks, i, 10)
}

proof fn tv_elem(toks: &Vec<(Token, Span)>, k: int)
    requires
        0 <= k < toks@.len(),
    ensures
        toks.deep_view().len() == toks@.len(),
        toks.deep_view()[k] == toks@[k].deep_view(),
{
}

/// Parses one statement at position `i`, exactly as `parse_stmt`
/// describes.
#[verifier::rlimit(100)]
pub fn parse_statement(toks: &Vec<(Token, Span)>, i: usize) -> (r: Option<((Stmt, Span), usize)>)
    ensures
        match parse_stmt(toks.deep_view(), i as int) {
            Some((sm, j)) => r matches Some((s2, j2)) && s2.0.deep_view() == sm.0 && s2.1 == sm.1
                && j2 as int == j && i < j2 <= toks@.len(),
            None => r is None,
        },
    decreases toks@.len() - i, 20int, 0int,
{
    proof {
        assert(toks.deep_view().len() == toks@.len());
        if (i as int) < toks@.len() {
            tv_elem(toks, i as int);
        }
    }
    if i >= toks.len() {
        return None;
    }
    match &toks[i].0 {
        Token::If => {
            proof {
                if i + 1 < toks@.len() {
                    tv_elem(toks, i + 1);
                }
            }
            if i + 1 < toks.len() && matches!(&toks[i + 1].0, Token::OpenParen) {
                match parse_expression(toks, i + 2) {
                    Some((cond, j)) => {
                        proof {
                            if (j as int) < toks@.len() {
                                tv_elem(toks, j as int);
                            }
                        }
                        if j < toks.len() && matches!(&toks[j].0, Token::CloseParen) {
                            match parse_statement(toks, j + 1) {
                                Some((then, k)) => {
                                    proof {
                                        if (k as int) < toks@.len() {
                                            tv_elem(toks, k as int);
                                        }
                                    }
                                    if k < toks.len() && matches!(&toks[k].0, Token::Else) {
                                        match parse_statement(toks, k + 1) {
                                            Some((els, m)) => {
                                                let span = Span::new(
                                                    toks[i].1.start,
                                                    toks[m - 1].1.end,
                                                );
                                                proof {
                                                    tv_elem(toks, m - 1);
                                                    assert(span == span_of(
                                                        toks.deep_view(),
                                                        i as int,
                                                        m as int,
                                                    ));
                                                }
                                                Some(
                                                    (
                                                        (
                                                            Stmt::If(
                                                                cond,
                                                                Box::new(then),
                                                                Some(Box::new(els)),
                                                            ),
                                                            span,
                                                        ),
                                                        m,
                                                    ),
                                                )
                                            },
                                            None => {
                                                let span = Span::new(
                                                    toks[i].1.start,
                                                    toks[k - 1].1.end,
                                                );
                                                proof {
                                                    tv_elem(toks, k - 1);
                                                    assert(span == span_of(
                                                        toks.deep_view(),
                                                        i as int,
                                                        k as int,
                                                    ));
                                                }
                                                Some(
                                                    ((Stmt::If(cond, Box::new(then), None), span), k),
                                                )
                                            },
                                        }
                                    } else {
                                        let span = Span::new(toks[i].1.start, toks[k - 1].1.end);
                                        proof {
                                            tv_elem(toks, k - 1);
                                            assert(span == span_of(
                                                toks.deep_view(),
                                                i as int,
                                                k as int,
                                            ));
                                        }
                                        Some(((Stmt::If(cond, Box::new(then), None), span), k))
                                    }
                                },
                                None => None,
                            }
                        } else {
                            None
                        }
                    },
                    None => None,
                }
            } else {
                None
            }
        },
        Token::OpenBrace => {
            let (stmts, j) = parse_statement_list(toks, i + 1);
            proof {
                if (j as int) < toks@.len() {
                    tv_elem(toks, j as int);
                }
            }
            if j < toks.len() && matches!(&toks[j].0, Token::CloseBrace) {
                let span = Span::new(toks[i].1.start, toks[j].1.end);
                proof {
                    assert(span == span_of(toks.deep_view(), i as int, j + 1));
                }
                Some(((Stmt::Block(stmts), span), j + 1))
            } else {
                None
            }
        },
        Token::Return => match parse_expression(toks, i + 1) {
            Some((e, j)) => {
                proof {
                    if (j as int) < toks@.len() {
                        tv_elem(toks, j as int);
                    }
                }
                if j < toks.len() && matches!(&toks[j].0, Token::Semicolon) {
                    let span = Span::new(toks[i].1.start, toks[j].1.end);
                    proof {
                        assert(span == span_of(toks.deep_view(), i as int, j + 1));
                    }
                    Some(((Stmt::Return(e), span), j + 1))
                } else {
                    None
                }
            },
            None => None,
        },
        Token::Int => {
            proof {
                if i + 1 < toks@.len() {
                    tv_elem(toks, i + 1);
                }
                if i + 2 < toks@.len() {
                    tv_elem(toks, i + 2);
                }
            }
            if i + 1 < toks.len() {
                let name = match &toks[i + 1].0 {
                    Token::Identifier(s) => s.clone(),
                    _ => {
                        return None;
                    },
                };
                let nspan = toks[i + 1].1;
                if i + 2 < toks.len() && matches!(&toks[i + 2].0, Token::Equals) {
                    match parse_expression(toks, i + 3) {
                        Some((e, j)) => {
                            proof {
                                if (j as int) < toks@.len() {
                                    tv_elem(toks, j as int);
                                }
                            }
                            if j < toks.len() && matches!(&toks[j].0, Token::Semicolon) {
                                let span = Span::new(toks[i].1.start, toks[j].1.end);
                                proof {
                                    assert(span == span_of(toks.deep_view(), i as int, j + 1));
                                }
                                Some(((Stmt::Declare((name, nspan), Some(e)), span), j + 1))
                            } else {
                                None
                            }
                        },
                        None => None,
                    }
                } else if i + 2 < toks.len() && matches!(&toks[i + 2].0, Token::Semicolon) {
                    let span = Span::new(toks[i].1.start, toks[i + 2].1.end);
                    proof {
                        assert(span == span_of(toks.deep_view(), i as int, i + 3));
                    }
                    Some(((Stmt::Declare((name, nspan), None), span), i + 3))
                } else {
                    None
                }
            } else {
                None
            }
        },
        Token::Semicolon => Some(((Stmt::Empty, toks[i].1), i + 1)),
        _ => match parse_expression(toks, i) {
            Some((e, j)) => {
                proof {
                    if (j as int) < toks@.len() {
                        tv_elem(toks, j as int);
                    }
                }
                if j < toks.len() && matches!(&toks[j].0, Token::Semicolon) {
                    let span = Span::new(toks[i].1.start, toks[j].1.end);
                    proof {
                        assert(span == span_of(toks.deep_view(), i as int, j + 1));
                    }
                    Some(((Stmt::Expression(e), span), j + 1))
                } else {
                    None
                }
            },
            None => None,
        },
    }
}

/// Parses zero or more statements from position `i`, exactly as
/// `parse_stmt_list` describes.
pub fn parse_statement_list(toks: &Vec<(Token, Span)>, i: usize) -> (r: (
    Vec<(Stmt, Span)>,
    usize,
))
    requires
        i <= toks@.len(),
    ensures
        ({
            let (sm, j) = parse_stmt_list(toks.deep_view(), i as int);
            stmt_seq_view(r.0@) == sm && r.1 as int == j && i <= r.1 <= toks@.len()
        }),
    decreases toks@.len() - i, 21int, 0int,
{
    proof {
        assert(toks.deep_view().len() == toks@.len());
    }
    if i >= toks.len() {
        let empty: Vec<(Stmt, Span)> = Vec::new();
        proof {
            assert(stmt_seq_view(empty@) =~= Seq::<(StmtModel, Span)>::empty());
        }
        return (empty, i);
    }
    match parse_statement(toks, i) {
        Some((s, j)) => {
            let ghost sm = (s.0.deep_view(), s.1);
            let (rest, k) = parse_statement_list(toks, j);
            let ghost rest_snap = rest@;
            let mut v: Vec<(Stmt, Span)> = Vec::new();
            v.push(s);
            let mut rest_mut = rest;
            v.append(&mut rest_mut);
            proof {
                lemma_stmt_seq_view_props(v@);
                lemma_stmt_seq_view_props(rest_snap);
                assert(v@.len() == 1 + rest_snap.len());
                assert(v@[0] == (v@[0].0, v@[0].1));
                assert(stmt_seq_view(v@) =~= seq![sm] + stmt_seq_view(rest_snap));
            }
            (v, k)
        },
        None => {
            let empty: Vec<(Stmt, Span)> = Vec::new();
            proof {
                assert(stmt_seq_view(empty@) =~= Seq::<(StmtModel, Span)>::empty());
            }
            (empty, i)
        },
    }
}

/// A syntax error: the index, source span and spelling of the first token
/// the grammar could not consume.
#[derive(Debug, Clone, PartialEq, Eq)]
pub struct ParseError {
    pub at: usize,
    pub span: Span,
    pub found: String,
}

/// Parses one function declaration at position `i`, exactly as
/// `parse_fn_decl` describes.
pub fn parse_fn_declaration(toks: &Vec<(Token, Span)>, i: usize) -> (r: Option<
    ((FnDeclaration, Span), usize),
>)
    ensures
        match parse_fn_decl(toks.deep_view(), i as int) {
            Some((fm, j)) => r matches Some((f2, j2)) && f2.0.deep_view() == fm.0 && f2.1 == fm.1
                && j2 as int == j && i < j2 <= toks@.len(),
            None => r is None,
        },
{
    proof {
        assert(toks.deep_view().len() == toks@.len());
        if i + 4 < toks@.len() {
            tv_elem(toks, i as int);
            tv_elem(toks, i + 1);
            tv_elem(toks, i + 2);
            tv_elem(toks, i + 3);
            tv_elem(toks, i + 4);
        }
    }
    if i < toks.len() && toks.len() - i > 4 && matches!(&toks[i].0, Token::Int) && matches!(
        &toks[i + 2].0,
        Token::OpenParen,
    ) && matches!(&toks[i + 3].0, Token::CloseParen) && matches!(&toks[i + 4].0, Token::OpenBrace)
    {
        let name = match &toks[i + 1].0 {
            Token::Identifier(s) => s.clone(),
            _ => {
                return None;
            },
        };
        let (body, j) = parse_statement_list(toks, i + 5);
        proof {
            if (j as int) < toks@.len() {
                tv_elem(toks, j as int);
            }
        }
        if j < toks.len() && matches!(&toks[j].0, Token::CloseBrace) {
            let span = Span::new(toks[i].1.start, toks[j].1.end);
            proof {
                assert(span == span_of(toks.deep_view(), i as int, j + 1));
            }
            Some(((FnDeclaration(name, body), span), j + 1))
        } else {
            None
        }
    } else {
        None
    }
}

fn p_program_rec(toks: &Vec<(Token, Span)>, i: usize) -> (r: (Vec<(FnDeclaration, Span)>, usize))
    requires
        i <= toks@.len(),
    ensures
        ({
            let (fm, j) = parse_program_rec(toks.deep_view(), i as int);
            r.0.deep_view() == fm && r.1 as int == j && i <= r.1 <= toks@.len()
        }),
    decreases toks@.len() - i,
{
    proof {
        assert(toks.deep_view().len() == toks@.len());
    }
    if i >= toks.len() {
        let empty: Vec<(FnDeclaration, Span)> = Vec::new();
        proof {
            assert(empty.deep_view() =~= Seq::<(FnDeclarationModel, Span)>::empty());
        }
        return (empty, i);
    }
    match parse_fn_declaration(toks, i) {
        Some((f, j)) => {
            let ghost fm = (f.0.deep_view(), f.1);
            let (rest, k) = p_program_rec(toks, j);
            let ghost rest_snap = rest.deep_view();
            let mut v: Vec<(FnDeclaration, Span)> = Vec::new();
            v.push(f);
            let mut rest_mut = rest;
            v.append(&mut rest_mut);
            proof {
                assert(v.deep_view() =~= seq![fm] + rest_snap);
            }
            (v, k)
        },
        None => {
            let empty: Vec<(FnDeclaration, Span)> = Vec::new();
            proof {
                assert(empty.deep_view() =~= Seq::<(FnDeclarationModel, Span)>::empty());
            }
            (empty, i)
        },
    }
}

/// Parses a whole program: zero or more function declarations covering the
/// entire token sequence. Returns the declarations, or the position and
/// span of the first token the grammar could not consume, exactly as
/// `spec_parse_program` describes.
pub fn parse_program(toks: &Vec<(Token, Span)>) -> (r: Result<
    Vec<(FnDeclaration, Span)>,
    ParseError,
>)
    ensures
        match spec_parse_program(toks.deep_view()) {
            Ok(fns) => r matches Ok(v) && v.deep_view() == fns,
            Err(j) => r matches Err(pe) && pe.at as int == j && 0 <= j < toks@.len() && pe.span
                == toks@[j as int].1 && pe.found@ == spec_token_text(toks.deep_view()[j].0),
        },
{
    proof {
        assert(toks.deep_view().len() == toks@.len());
    }
    let (fns, j) = p_program_rec(toks, 0);
    if j == toks.len() {
        Ok(fns)
    } else {
        proof {
            tv_elem(toks, j as int);
        }
        Err(ParseError { at: j, span: toks[j].1, found: toks[j].0.text() })
    }
}

} // verus!
