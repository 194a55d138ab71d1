//! The token alphabet of the language. Tokens arrive from an external
//! lexer as an ordered sequence of `(Token, Span)` pairs; the parser only
//! consumes that sequence and never re-tokenizes.

use vstd::prelude::*;
use vstd::string::StringExecFns;
use crate::decimal::{dec_chars, u64_to_string};

verus! {

/// One lexical token.
#[derive(Debug, Clone, PartialEq, Eq)]
pub enum Token {
    // Keywords
    Int,
    Return,
    If,
    Else,
    // Literals
    LitInteger(u64),
    // Miscellaneous
    Identifier(String),
    // Delimiters
    OpenParen,
    CloseParen,
    OpenBrace,
    CloseBrace,
    // Math operators
    Plus,
    Minus,
    Star,
    Slash,
    Percent,
    // Logical operators
    Exclamation,
    AndAnd,
    PipePipe,
    // Comparison operators
    EqualsEquals,
    NotEquals,
    GreaterThan,
    LesserThan,
    GreaterEquals,
    LesserEquals,
    // Bitwise operators
    Tilde,
    And,
    Pipe,
    Caret,
    LeftShift,
    RightShift,
    // Assignment operators
    Equals,
    PlusEquals,
    MinusEquals,
    StarEquals,
    SlashEquals,
    PercentEquals,
    AndEquals,
    PipeEquals,
    CaretEquals,
    LeftShiftEquals,
    RightShiftEquals,
    // Conditional operators
    Colon,
    Question,
    // Control
    Semicolon,
}

/// The mathematical model of a token: identifier text as a character
/// sequence. Contracts speak of tokens through this model.
pub enum TokenModel {
    Int,
    Return,
    If,
    Else,
    LitInteger(u64),
    Identifier(Seq<char>),
    OpenParen,
    CloseParen,
    OpenBrace,
    CloseBrace,
    Plus,
    Minus,
    Star,
    Slash,
    Percent,
    Exclamation,
    AndAnd,
    PipePipe,
    EqualsEquals,
    NotEquals,
    GreaterThan,
    LesserThan,
    GreaterEquals,
    LesserEquals,
    Tilde,
    And,
    Pipe,
    Caret,
    LeftShift,
    RightShift,
    Equals,
    PlusEquals,
    MinusEquals,
    StarEquals,
    SlashEquals,
    PercentEquals,
    AndEquals,
    PipeEquals,
    CaretEquals,
    LeftShiftEquals,
    RightShiftEquals,
    Colon,
    Question,
    Semicolon,
}

impl DeepView for Token {
    type V = TokenModel;

    open spec fn deep_view(&self) -> TokenModel {
        match self {
            Token::Int => TokenModel::Int,
            Token::Return => TokenModel::Return,
            Token::If => TokenModel::If,
            Token::Else => TokenModel::Else,
            Token::LitInteger(v) => TokenModel::LitInteger(*v),
            Token::Identifier(s) => TokenModel::Identifier(s@),
            Token::OpenParen => TokenModel::OpenParen,
            Token::CloseParen => TokenModel::CloseParen,
            Token::OpenBrace => TokenModel::OpenBrace,
            Token::CloseBrace => TokenModel::CloseBrace,
            Token::Plus => TokenModel::Plus,
            Token::Minus => TokenModel::Minus,
            Token::Star => TokenModel::Star,
            Token::Slash => TokenModel::Slash,
            Token::Percent => TokenModel::Percent,
            Token::Exclamation => TokenModel::Exclamation,
            Token::AndAnd => TokenModel::AndAnd,
            Token::PipePipe => TokenModel::PipePipe,
            Token::EqualsEquals => TokenModel::EqualsEquals,
            Token::NotEquals => TokenModel::NotEquals,
            Token::GreaterThan => TokenModel::GreaterThan,
            Token::LesserThan => TokenModel::LesserThan,
            Token::GreaterEquals => TokenModel::GreaterEquals,
            Token::LesserEquals => TokenModel::LesserEquals,
            Token::Tilde => TokenModel::Tilde,
            Token::And => TokenModel::And,
            Token::Pipe => TokenModel::Pipe,
            Token::Caret => TokenModel::Caret,
            Token::LeftShift => TokenModel::LeftShift,
            Token::RightShift => TokenModel::RightShift,
            Token::Equals => TokenModel::Equals,
            Token::PlusEquals => TokenModel::PlusEquals,
            Token::MinusEquals => TokenModel::MinusEquals,
            Token::StarEquals => TokenModel::StarEquals,
            Token::SlashEquals => TokenModel::SlashEquals,
            Token::PercentEquals => TokenModel::PercentEquals,
            Token::AndEquals => TokenModel::AndEquals,
            Token::PipeEquals => TokenModel::PipeEquals,
            Token::CaretEquals => TokenModel::CaretEquals,
            Token::LeftShiftEquals => TokenModel::LeftShiftEquals,
            Token::RightShiftEquals => TokenModel::RightShiftEquals,
            Token::Colon => TokenModel::Colon,
            Token::Question => TokenModel::Question,
            Token::Semicolon => TokenModel::Semicolon,
        }
    }
}

/// The source spelling of a token: keywords and symbols as written,
/// literals in decimal, identifiers as themselves.
pub open spec fn spec_token_text(t: TokenModel) -> Seq<char> {
    match t {
        TokenModel::Int => "int"@,
        TokenModel::Return => "return"@,
        TokenModel::If => "if"@,
        TokenModel::Else => "else"@,
        TokenModel::LitInteger(n) => dec_chars(n as nat),
        TokenModel::Identifier(s) => s,
        TokenModel::OpenParen => "("@,
        TokenModel::CloseParen => ")"@,
        TokenModel::OpenBrace => "{"@,
        TokenModel::CloseBrace => "}"@,
        TokenModel::Plus => "+"@,
        TokenModel::Minus => "-"@,
        TokenModel::Star => "*"@,
        TokenModel::Slash => "/"@,
        TokenModel::Percent => "%"@,
        TokenModel::Exclamation => "!"@,
        TokenModel::AndAnd => "&&"@,
        TokenModel::PipePipe => "||"@,
        TokenModel::EqualsEquals => "=="@,
        TokenModel::NotEquals => "!="@,
        TokenModel::GreaterThan => ">"@,
        TokenModel::LesserThan => "<"@,
        TokenModel::GreaterEquals => ">="@,
        TokenModel::LesserEquals => "<="@,
        TokenModel::Tilde => "~"@,
        TokenModel::And => "&"@,
        TokenModel::Pipe => "|"@,
        TokenModel::Caret => "^"@,
        TokenModel::LeftShift => "<<"@,
        TokenModel::RightShift => ">>"@,
        TokenModel::Equals => "="@,
        TokenModel::PlusEquals => "+="@,
        TokenModel::MinusEquals => "-="@,
        TokenModel::StarEquals => "*="@,
        TokenModel::SlashEquals => "/="@,
        TokenModel::PercentEquals => "%="@,
        TokenModel::AndEquals => "&="@,
        TokenModel::PipeEquals => "|="@,
        TokenModel::CaretEquals => "^="@,
        TokenModel::LeftShiftEquals => "<<="@,
        TokenModel::RightShiftEquals => ">>="@,
        TokenModel::Colon => ":"@,
        TokenModel::Question => "?"@,
        TokenModel::Semicolon => ";"@,
    }
}

impl Token {
    /// The token's source spelling, as diagnostics print it.
    pub fn text(&self) -> (r: String)
        ensures
            r@ == spec_token_text(self.deep_view()),
    {
        match self {
            Token::Int => "int".to_owned(),
            Token::Return => "return".to_owned(),
            Token::If => "if".to_owned(),
            Token::Else => "else".to_owned(),
            Token::LitInteger(n) => u64_to_string(*n),
            Token::Identifier(s) => s.clone(),
            Token::OpenParen => "(".to_owned(),
            Token::CloseParen => ")".to_owned(),
            Token::OpenBrace => "{".to_owned(),
            Token::CloseBrace => "}".to_owned(),
            Token::Plus => "+".to_owned(),
            Token::Minus => "-".to_owned(),
            Token::Star => "*".to_owned(),
            Token::Slash => "/".to_owned(),
            Token::Percent => "%".to_owned(),
            Token::Exclamation => "!".to_owned(),
            Token::AndAnd => "&&".to_owned(),
            Token::PipePipe => "||".to_owned(),
            Token::EqualsEquals => "==".to_owned(),
            Token::NotEquals => "!=".to_owned(),
            Token::GreaterThan => ">".to_owned(),
            Token::LesserThan => "<".to_owned(),
            Token::GreaterEquals => ">=".to_owned(),
            Token::LesserEquals => "<=".to_owned(),
            Token::Tilde => "~".to_owned(),
            Token::And => "&".to_owned(),
            Token::Pipe => "|".to_owned(),
            Token::Caret => "^".to_owned(),
            Token::LeftShift => "<<".to_owned(),
            Token::RightShift => ">>".to_owned(),
            Token::Equals => "=".to_owned(),
            Token::PlusEquals => "+=".to_owned(),
            Token::MinusEquals => "-=".to_owned(),
            Token::StarEquals => "*=".to_owned(),
            Token::SlashEquals => "/=".to_owned(),
            Token::PercentEquals => "%=".to_owned(),
            Token::AndEquals => "&=".to_owned(),
            Token::PipeEquals => "|=".to_owned(),
            Token::CaretEquals => "^=".to_owned(),
            Token::LeftShiftEquals => "<<=".to_owned(),
            Token::RightShiftEquals => ">>=".to_owned(),
            Token::Colon => ":".to_owned(),
            Token::Question => "?".to_owned(),
            Token::Semicolon => ";".to_owned(),
        }
    }
}

} // verus!
