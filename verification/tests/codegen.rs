use rcc::codegen::{code_gen, code_gen_program_instrs, CodegenError};
use rcc::emitter::Emitter;
use rcc::env::Environment;
use rcc::instr::Instr;
use rcc::label_tracker::LabelTracker;
use rcc::parser::parse_program;
use rcc::span::Span;
use rcc::token::Token;

fn spanned(ts: Vec<Token>) -> Vec<(Token, Span)> {
    ts.into_iter()
        .enumerate()
        .map(|(i, t)| (t, Span::new(i, i + 1)))
        .collect()
}

fn var(name: &str) -> Token {
    Token::Identifier(name.to_string())
}

fn emit_text(toks: Vec<Token>) -> Result<Vec<String>, (CodegenError, Span)> {
    let toks = spanned(toks);
    let fns = parse_program(&toks).expect("program parses");
    let mut lt = LabelTracker::new();
    let mut em = Emitter::new();
    let mut env = Environment::new();
    code_gen(&fns, &mut lt, &mut em, &mut env)?;
    Ok(em.as_lines().clone())
}

fn gen_instrs(toks: Vec<Token>) -> Result<Vec<Instr>, (CodegenError, Span)> {
    let toks = spanned(toks);
    let fns = parse_program(&toks).expect("program parses");
    let mut lt = LabelTracker::new();
    let mut env = Environment::new();
    let mut out: Vec<Instr> = Vec::new();
    code_gen_program_instrs(&fns, &mut lt, &mut out, &mut env)?;
    Ok(out)
}

#[test]
fn return_42_text() {
    // int main() { return 42; }
    let lines = emit_text(vec![
        Token::Int,
        var("main"),
        Token::OpenParen,
        Token::CloseParen,
        Token::OpenBrace,
        Token::Return,
        Token::LitInteger(42),
        Token::Semicolon,
        Token::CloseBrace,
    ])
    .expect("generates");
    assert_eq!(
        lines,
        vec![
            "\t.globl main",
            "main:",
            "\tpush %rbp",
            "\tmov %rsp, %rbp",
            "\tmov $42, %rax",
            "\tmov %rbp, %rsp",
            "\tpop %rbp",
            "\tret",
        ]
    );
}

#[test]
fn variables_use_frame_offsets() {
    // int main() { int x = 5; return x; }
    let lines = emit_text(vec![
        Token::Int,
        var("main"),
        Token::OpenParen,
        Token::CloseParen,
        Token::OpenBrace,
        Token::Int,
        var("x"),
        Token::Equals,
        Token::LitInteger(5),
        Token::Semicolon,
        Token::Return,
        var("x"),
        Token::Semicolon,
        Token::CloseBrace,
    ])
    .expect("generates");
    assert!(lines.contains(&"\tpush %rax".to_string()));
    assert!(lines.contains(&"\tmov -8(%rbp), %rax".to_string()));
}

#[test]
fn lvalue_enforcement() {
    // int main() { 1 = 2; }  fails at the span of `1` (token index 5).
    let err = emit_text(vec![
        Token::Int,
        var("main"),
        Token::OpenParen,
        Token::CloseParen,
        Token::OpenBrace,
        Token::LitInteger(1),
        Token::Equals,
        Token::LitInteger(2),
        Token::Semicolon,
        Token::CloseBrace,
    ])
    .unwrap_err();
    assert_eq!(err, (CodegenError::InvalidAssignmentTarget, Span::new(5, 6)));
}

#[test]
fn redeclaration_in_same_scope_fails() {
    // int main() { int x; int x; }
    let err = emit_text(vec![
        Token::Int,
        var("main"),
        Token::OpenParen,
        Token::CloseParen,
        Token::OpenBrace,
        Token::Int,
        var("x"),
        Token::Semicolon,
        Token::Int,
        var("x"),
        Token::Semicolon,
        Token::CloseBrace,
    ])
    .unwrap_err();
    assert_eq!(
        err,
        (
            CodegenError::RedeclaredVariable("x".to_string(), Span::new(6, 7)),
            Span::new(9, 10)
        )
    );
}

#[test]
fn shadowing_in_nested_block_is_allowed() {
    // int main() { int x; { int x; } }
    let result = emit_text(vec![
        Token::Int,
        var("main"),
        Token::OpenParen,
        Token::CloseParen,
        Token::OpenBrace,
        Token::Int,
        var("x"),
        Token::Semicolon,
        Token::OpenBrace,
        Token::Int,
        var("x"),
        Token::Semicolon,
        Token::CloseBrace,
        Token::CloseBrace,
    ]);
    assert!(result.is_ok());
}

#[test]
fn reference_after_block_ends_fails() {
    // int main() { { int x; } return x; }
    let err = emit_text(vec![
        Token::Int,
        var("main"),
        Token::OpenParen,
        Token::CloseParen,
        Token::OpenBrace,
        Token::OpenBrace,
        Token::Int,
        var("x"),
        Token::Semicolon,
        Token::CloseBrace,
        Token::Return,
        var("x"),
        Token::Semicolon,
        Token::CloseBrace,
    ])
    .unwrap_err();
    assert_eq!(
        err,
        (
            CodegenError::UndeclaredVariable("x".to_string()),
            Span::new(11, 12)
        )
    );
}

#[test]
fn compound_assignment_generates_desugared_code() {
    // "x += 3;" generates exactly the instructions of "x = x + 3;".
    let compound = gen_instrs(vec![
        Token::Int,
        var("main"),
        Token::OpenParen,
        Token::CloseParen,
        Token::OpenBrace,
        Token::Int,
        var("x"),
        Token::Equals,
        Token::LitInteger(5),
        Token::Semicolon,
        var("x"),
        Token::PlusEquals,
        Token::LitInteger(3),
        Token::Semicolon,
        Token::Return,
        var("x"),
        Token::Semicolon,
        Token::CloseBrace,
    ])
    .expect("generates");
    let plain = gen_instrs(vec![
        Token::Int,
        var("main"),
        Token::OpenParen,
        Token::CloseParen,
        Token::OpenBrace,
        Token::Int,
        var("x"),
        Token::Equals,
        Token::LitInteger(5),
        Token::Semicolon,
        var("x"),
        Token::Equals,
        var("x"),
        Token::Plus,
        Token::LitInteger(3),
        Token::Semicolon,
        Token::Return,
        var("x"),
        Token::Semicolon,
        Token::CloseBrace,
    ])
    .expect("generates");
    assert_eq!(compound, plain);
}

#[test]
fn logical_and_uses_fresh_labels() {
    // int main() { return 1 && 1 && 1; }  allocates and_0/and_1 pairs.
    let lines = emit_text(vec![
        Token::Int,
        var("main"),
        Token::OpenParen,
        Token::CloseParen,
        Token::OpenBrace,
        Token::Return,
        Token::LitInteger(1),
        Token::AndAnd,
        Token::LitInteger(1),
        Token::AndAnd,
        Token::LitInteger(1),
        Token::Semicolon,
        Token::CloseBrace,
    ])
    .expect("generates");
    assert!(lines.contains(&"and_0:".to_string()));
    assert!(lines.contains(&"and_ss_0:".to_string()));
    assert!(lines.contains(&"and_1:".to_string()));
    assert!(lines.contains(&"and_ss_1:".to_string()));
    assert!(lines.contains(&"\tjne and_0".to_string()));
}

#[test]
fn if_reuses_ternary_label_kinds() {
    // int main() { if (1) ; return 2; }
    let lines = emit_text(vec![
        Token::Int,
        var("main"),
        Token::OpenParen,
        Token::CloseParen,
        Token::OpenBrace,
        Token::If,
        Token::OpenParen,
        Token::LitInteger(1),
        Token::CloseParen,
        Token::Semicolon,
        Token::Return,
        Token::LitInteger(2),
        Token::Semicolon,
        Token::CloseBrace,
    ])
    .expect("generates");
    assert!(lines.contains(&"\tje cond_end_0".to_string()));
    assert!(lines.contains(&"cond_end_0:".to_string()));
    assert!(!lines.contains(&"cond_else_0:".to_string()));
}
