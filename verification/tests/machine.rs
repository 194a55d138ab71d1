use rcc::codegen::code_gen_program_instrs;
use rcc::env::Environment;
use rcc::instr::Instr;
use rcc::label_tracker::LabelTracker;
use rcc::machine::run;
use rcc::parser::parse_program;
use rcc::span::Span;
use rcc::token::Token;

fn spanned(ts: Vec<Token>) -> Vec<(Token, Span)> {
    ts.into_iter()
        .enumerate()
        .map(|(i, t)| (t, Span::new(i, i + 1)))
        .collect()
}

fn var(name: &str) -> Token {
    Token::Identifier(name.to_string())
}

fn compile_and_run(ts: Vec<Token>) -> Option<u64> {
    let toks = spanned(ts);
    let fns = parse_program(&toks).expect("program parses");
    let mut lt = LabelTracker::new();
    let mut env = Environment::new();
    let mut out: Vec<Instr> = Vec::new();
    code_gen_program_instrs(&fns, &mut lt, &mut out, &mut env).expect("generates");
    run(&out, 1024, 100_000)
}

fn main_around(body: Vec<Token>) -> Vec<Token> {
    let mut ts = vec![
        Token::Int,
        var("main"),
        Token::OpenParen,
        Token::CloseParen,
        Token::OpenBrace,
    ];
    ts.extend(body);
    ts.push(Token::CloseBrace);
    ts
}

#[test]
fn round_trip_returns_six() {
    // int main() { int x = 5; if (x == 5) { x = x + 1; } else { x = 0; }
    // return x; }
    let result = compile_and_run(main_around(vec![
        Token::Int,
        var("x"),
        Token::Equals,
        Token::LitInteger(5),
        Token::Semicolon,
        Token::If,
        Token::OpenParen,
        var("x"),
        Token::EqualsEquals,
        Token::LitInteger(5),
        Token::CloseParen,
        Token::OpenBrace,
        var("x"),
        Token::Equals,
        var("x"),
        Token::Plus,
        Token::LitInteger(1),
        Token::Semicolon,
        Token::CloseBrace,
        Token::Else,
        Token::OpenBrace,
        var("x"),
        Token::Equals,
        Token::LitInteger(0),
        Token::Semicolon,
        Token::CloseBrace,
        Token::Return,
        var("x"),
        Token::Semicolon,
    ]));
    assert_eq!(result, Some(6));
}

#[test]
fn short_circuit_and_skips_assignment() {
    // int main() { int x = 7; int y = 0 && (x = 1); return x * 10 + y; }
    // The assignment must not run: x keeps 7, the expression is 0.
    let result = compile_and_run(main_around(vec![
        Token::Int,
        var("x"),
        Token::Equals,
        Token::LitInteger(7),
        Token::Semicolon,
        Token::Int,
        var("y"),
        Token::Equals,
        Token::LitInteger(0),
        Token::AndAnd,
        Token::OpenParen,
        var("x"),
        Token::Equals,
        Token::LitInteger(1),
        Token::CloseParen,
        Token::Semicolon,
        Token::Return,
        var("x"),
        Token::Star,
        Token::LitInteger(10),
        Token::Plus,
        var("y"),
        Token::Semicolon,
    ]));
    assert_eq!(result, Some(70));
}

#[test]
fn logical_or_produces_boolean() {
    // int main() { return 0 || 2; }
    let result = compile_and_run(main_around(vec![
        Token::Return,
        Token::LitInteger(0),
        Token::PipePipe,
        Token::LitInteger(2),
        Token::Semicolon,
    ]));
    assert_eq!(result, Some(1));
}

#[test]
fn division_and_remainder() {
    // int main() { return 7 / 2 * 100 + 7 % 3; }
    let result = compile_and_run(main_around(vec![
        Token::Return,
        Token::LitInteger(7),
        Token::Slash,
        Token::LitInteger(2),
        Token::Star,
        Token::LitInteger(100),
        Token::Plus,
        Token::LitInteger(7),
        Token::Percent,
        Token::LitInteger(3),
        Token::Semicolon,
    ]));
    assert_eq!(result, Some(301));
}

#[test]
fn ternary_takes_the_right_branch() {
    // int main() { return 0 ? 5 : 9; }
    let result = compile_and_run(main_around(vec![
        Token::Return,
        Token::LitInteger(0),
        Token::Question,
        Token::LitInteger(5),
        Token::Colon,
        Token::LitInteger(9),
        Token::Semicolon,
    ]));
    assert_eq!(result, Some(9));
}

#[test]
fn shadowed_variable_is_separate() {
    // int main() { int x = 1; { int x = 2; } return x; }
    let result = compile_and_run(main_around(vec![
        Token::Int,
        var("x"),
        Token::Equals,
        Token::LitInteger(1),
        Token::Semicolon,
        Token::OpenBrace,
        Token::Int,
        var("x"),
        Token::Equals,
        Token::LitInteger(2),
        Token::Semicolon,
        Token::CloseBrace,
        Token::Return,
        var("x"),
        Token::Semicolon,
    ]));
    assert_eq!(result, Some(1));
}

#[test]
fn compound_assignment_behaves_like_plain() {
    // int main() { int x = 5; x += 3; return x; }
    let result = compile_and_run(main_around(vec![
        Token::Int,
        var("x"),
        Token::Equals,
        Token::LitInteger(5),
        Token::Semicolon,
        var("x"),
        Token::PlusEquals,
        Token::LitInteger(3),
        Token::Semicolon,
        Token::Return,
        var("x"),
        Token::Semicolon,
    ]));
    assert_eq!(result, Some(8));
}

#[test]
fn unary_minus_negates() {
    // int main() { return -5; }
    let result = compile_and_run(main_around(vec![
        Token::Return,
        Token::Minus,
        Token::LitInteger(5),
        Token::Semicolon,
    ]));
    assert_eq!(result, Some((-5i64) as u64));
}

#[test]
fn bitwise_operations() {
    // int main() { return (6 & 3) | (1 << 2); }
    let result = compile_and_run(main_around(vec![
        Token::Return,
        Token::OpenParen,
        Token::LitInteger(6),
        Token::And,
        Token::LitInteger(3),
        Token::CloseParen,
        Token::Pipe,
        Token::OpenParen,
        Token::LitInteger(1),
        Token::LeftShift,
        Token::LitInteger(2),
        Token::CloseParen,
        Token::Semicolon,
    ]));
    assert_eq!(result, Some(6));
}

#[test]
fn function_without_return_runs_off_the_end() {
    // int main() { 1; }  emits no ret, so the machine runs off the end and
    // reports no result: the known gap, kept deliberately.
    let result = compile_and_run(main_around(vec![
        Token::LitInteger(1),
        Token::Semicolon,
    ]));
    assert_eq!(result, None);
}

#[test]
fn logical_and_bitwise_not() {
    // int main() { return !5 + ~0 + 2; }  is 0 + -1 + 2 = 1.
    let result = compile_and_run(main_around(vec![
        Token::Return,
        Token::Exclamation,
        Token::LitInteger(5),
        Token::Plus,
        Token::Tilde,
        Token::LitInteger(0),
        Token::Plus,
        Token::LitInteger(2),
        Token::Semicolon,
    ]));
    assert_eq!(result, Some(1));
}

#[test]
fn subtraction_leaves_difference_in_accumulator() {
    // int main() { return 2 - 1; }
    let result = compile_and_run(main_around(vec![
        Token::Return,
        Token::LitInteger(2),
        Token::Minus,
        Token::LitInteger(1),
        Token::Semicolon,
    ]));
    assert_eq!(result, Some(1));
}

#[test]
fn subtraction_chains_left_associatively() {
    // int main() { return 1 - 2 - 3; }  is (1 - 2) - 3 = -4.
    let result = compile_and_run(main_around(vec![
        Token::Return,
        Token::LitInteger(1),
        Token::Minus,
        Token::LitInteger(2),
        Token::Minus,
        Token::LitInteger(3),
        Token::Semicolon,
    ]));
    assert_eq!(result, Some((-4i64) as u64));
}

#[test]
fn logical_not_sees_the_whole_value() {
    // int main() { return !(1 << 40); }  the operand's low 32 bits are
    // zero, but the value is not, so the result is 0.
    let result = compile_and_run(main_around(vec![
        Token::Return,
        Token::Exclamation,
        Token::OpenParen,
        Token::LitInteger(1),
        Token::LeftShift,
        Token::LitInteger(40),
        Token::CloseParen,
        Token::Semicolon,
    ]));
    assert_eq!(result, Some(0));
}
