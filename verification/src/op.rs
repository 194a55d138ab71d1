//! Unary and binary operators of the expression grammar.

use vstd::prelude::*;
use crate::token::{Token, TokenModel};

verus! {

/// A prefix operator. `Plus` exists only at parse time: code generation
/// folds it away.
#[derive(Debug, Clone, Copy, PartialEq, Eq, Structural)]
pub enum UnaryOperator {
    Plus,
    Minus,
    LogicalNot,
    BitwiseNot,
}

/// A binary operator, including plain assignment and the compound
/// assignment forms.
#[derive(Debug, Clone, Copy, PartialEq, Eq, Structural)]
pub enum BinaryOperator {
    // Math
    Plus,
    Minus,
    Multiply,
    Divide,
    Mod,
    // Comparison
    EqEq,
    Ne,
    Gt,
    Lt,
    Ge,
    Le,
    // Logical
    LogicalAnd,
    LogicalOr,
    // Bitwise
    BitwiseAnd,
    BitwiseOr,
    BitwiseXor,
    LeftShift,
    RightShift,
    // Assignment
    Eq,
    PlusEquals,
    MinusEquals,
    MultiplyEquals,
    DivideEquals,
    ModEquals,
    AndEquals,
    OrEquals,
    XorEquals,
    LeftShiftEquals,
    RightShiftEquals,
}

/// Which unary operator a token spells, if any.
pub open spec fn spec_unary_op(t: TokenModel) -> Option<UnaryOperator> {
    match t {
        TokenModel::Plus => Some(UnaryOperator::Plus),
        TokenModel::Minus => Some(UnaryOperator::Minus),
        TokenModel::Exclamation => Some(UnaryOperator::LogicalNot),
        TokenModel::Tilde => Some(UnaryOperator::BitwiseNot),
        _ => None,
    }
}

/// Which binary operator a token spells, if any.
pub open spec fn spec_binary_op(t: TokenModel) -> Option<BinaryOperator> {
    match t {
        TokenModel::Plus => Some(BinaryOperator::Plus),
        TokenModel::Star => Some(BinaryOperator::Multiply),
        TokenModel::Slash => Some(BinaryOperator::Divide),
        TokenModel::Minus => Some(BinaryOperator::Minus),
        TokenModel::Percent => Some(BinaryOperator::Mod),
        TokenModel::EqualsEquals => Some(BinaryOperator::EqEq),
        TokenModel::NotEquals => Some(BinaryOperator::Ne),
        TokenModel::GreaterThan => Some(BinaryOperator::Gt),
        TokenModel::LesserThan => Some(BinaryOperator::Lt),
        TokenModel::GreaterEquals => Some(BinaryOperator::Ge),
        TokenModel::LesserEquals => Some(BinaryOperator::Le),
        TokenModel::AndAnd => Some(BinaryOperator::LogicalAnd),
        TokenModel::PipePipe => Some(BinaryOperator::LogicalOr),
        TokenModel::And => Some(BinaryOperator::BitwiseAnd),
        TokenModel::Pipe => Some(BinaryOperator::BitwiseOr),
        TokenModel::Caret => Some(BinaryOperator::BitwiseXor),
        TokenModel::LeftShift => Some(BinaryOperator::LeftShift),
        TokenModel::RightShift => Some(BinaryOperator::RightShift),
        TokenModel::Equals => Some(BinaryOperator::Eq),
        TokenModel::PlusEquals => Some(BinaryOperator::PlusEquals),
        TokenModel::MinusEquals => Some(BinaryOperator::MinusEquals),
        TokenModel::StarEquals => Some(BinaryOperator::MultiplyEquals),
        TokenModel::SlashEquals => Some(BinaryOperator::DivideEquals),
        TokenModel::PercentEquals => Some(BinaryOperator::ModEquals),
        TokenModel::AndEquals => Some(BinaryOperator::AndEquals),
        TokenModel::PipeEquals => Some(BinaryOperator::OrEquals),
        TokenModel::CaretEquals => Some(BinaryOperator::XorEquals),
        TokenModel::LeftShiftEquals => Some(BinaryOperator::LeftShiftEquals),
        TokenModel::RightShiftEquals => Some(BinaryOperator::RightShiftEquals),
        _ => None,
    }
}

impl UnaryOperator {
    /// Reads a unary operator off a token.
    pub fn from_token(t: &Token) -> (r: Option<UnaryOperator>)
        ensures
            r == spec_unary_op(t.deep_view()),
    {
        match t {
            Token::Plus => Some(UnaryOperator::Plus),
            Token::Minus => Some(UnaryOperator::Minus),
            Token::Exclamation => Some(UnaryOperator::LogicalNot),
            Token::Tilde => Some(UnaryOperator::BitwiseNot),
            _ => None,
        }
    }
}

/// Whether `op` is one of the compound assignment operators (`+=` and its
/// kin).
pub open spec fn spec_is_compound_assignment(op: BinaryOperator) -> bool {
    match op {
        BinaryOperator::PlusEquals
        | BinaryOperator::MinusEquals
        | BinaryOperator::MultiplyEquals
        | BinaryOperator::DivideEquals
        | BinaryOperator::ModEquals
        | BinaryOperator::AndEquals
        | BinaryOperator::OrEquals
        | BinaryOperator::XorEquals
        | BinaryOperator::LeftShiftEquals
        | BinaryOperator::RightShiftEquals => true,
        _ => false,
    }
}

/// The plain operator a compound assignment abbreviates: `+=` maps to `+`,
/// and so on; `None` for every non-compound operator.
pub open spec fn spec_compound_to_operator(op: BinaryOperator) -> Option<BinaryOperator> {
    match op {
        BinaryOperator::PlusEquals => Some(BinaryOperator::Plus),
        BinaryOperator::MinusEquals => Some(BinaryOperator::Minus),
        BinaryOperator::MultiplyEquals => Some(BinaryOperator::Multiply),
        BinaryOperator::DivideEquals => Some(BinaryOperator::Divide),
        BinaryOperator::ModEquals => Some(BinaryOperator::Mod),
        BinaryOperator::AndEquals => Some(BinaryOperator::BitwiseAnd),
        BinaryOperator::OrEquals => Some(BinaryOperator::BitwiseOr),
        BinaryOperator::XorEquals => Some(BinaryOperator::BitwiseXor),
        BinaryOperator::LeftShiftEquals => Some(BinaryOperator::LeftShift),
        BinaryOperator::RightShiftEquals => Some(BinaryOperator::RightShift),
        _ => None,
    }
}

impl BinaryOperator {
    /// Reads a binary operator off a token.
    pub fn from_token(t: &Token) -> (r: Option<BinaryOperator>)
        ensures
            r == spec_binary_op(t.deep_view()),
    {
        match t {
            Token::Plus => Some(BinaryOperator::Plus),
            Token::Star => Some(BinaryOperator::Multiply),
            Token::Slash => Some(BinaryOperator::Divide),
            Token::Minus => Some(BinaryOperator::Minus),
            Token::Percent => Some(BinaryOperator::Mod),
            Token::EqualsEquals => Some(BinaryOperator::EqEq),
            Token::NotEquals => Some(BinaryOperator::Ne),
            Token::GreaterThan => Some(BinaryOperator::Gt),
            Token::LesserThan => Some(BinaryOperator::Lt),
            Token::GreaterEquals => Some(BinaryOperator::Ge),
            Token::LesserEquals => Some(BinaryOperator::Le),
            Token::AndAnd => Some(BinaryOperator::LogicalAnd),
            Token::PipePipe => Some(BinaryOperator::LogicalOr),
            Token::And => Some(BinaryOperator::BitwiseAnd),
            Token::Pipe => Some(BinaryOperator::BitwiseOr),
            Token::Caret => Some(BinaryOperator::BitwiseXor),
            Token::LeftShift => Some(BinaryOperator::LeftShift),
            Token::RightShift => Some(BinaryOperator::RightShift),
            Token::Equals => Some(BinaryOperator::Eq),
            Token::PlusEquals => Some(BinaryOperator::PlusEquals),
            Token::MinusEquals => Some(BinaryOperator::MinusEquals),
            Token::StarEquals => Some(BinaryOperator::MultiplyEquals),
            Token::SlashEquals => Some(BinaryOperator::DivideEquals),
            Token::PercentEquals => Some(BinaryOperator::ModEquals),
            Token::AndEquals => Some(BinaryOperator::AndEquals),
            Token::PipeEquals => Some(BinaryOperator::OrEquals),
            Token::CaretEquals => Some(BinaryOperator::XorEquals),
            Token::LeftShiftEquals => Some(BinaryOperator::LeftShiftEquals),
            Token::RightShiftEquals => Some(BinaryOperator::RightShiftEquals),
            _ => None,
        }
    }

    /// Whether this operator is a compound assignment.
    pub fn is_compound_assignment(&self) -> (r: bool)
        ensures
            r == spec_is_compound_assignment(*self),
    {
        match self {
            BinaryOperator::PlusEquals
            | BinaryOperator::MinusEquals
            | BinaryOperator::MultiplyEquals
            | BinaryOperator::DivideEquals
            | BinaryOperator::ModEquals
            | BinaryOperator::AndEquals
            | BinaryOperator::OrEquals
            | BinaryOperator::XorEquals
            | BinaryOperator::LeftShiftEquals
            | BinaryOperator::RightShiftEquals => true,
            _ => false,
        }
    }

    /// The plain operator behind a compound assignment, or `None`.
    pub fn compound_to_operator(self) -> (r: Option<BinaryOperator>)
        ensures
            r == spec_compound_to_operator(self),
    {
        match self {
            BinaryOperator::PlusEquals => Some(BinaryOperator::Plus),
            BinaryOperator::MinusEquals => Some(BinaryOperator::Minus),
            BinaryOperator::MultiplyEquals => Some(BinaryOperator::Multiply),
            BinaryOperator::DivideEquals => Some(BinaryOperator::Divide),
            BinaryOperator::ModEquals => Some(BinaryOperator::Mod),
            BinaryOperator::AndEquals => Some(BinaryOperator::BitwiseAnd),
            BinaryOperator::OrEquals => Some(BinaryOperator::BitwiseOr),
            BinaryOperator::XorEquals => Some(BinaryOperator::BitwiseXor),
            BinaryOperator::LeftShiftEquals => Some(BinaryOperator::LeftShift),
            BinaryOperator::RightShiftEquals => Some(BinaryOperator::RightShift),
            _ => None,
        }
    }
}

} // verus!
