//! A compiler for a small C-like expression/statement language, lowering
//! source programs to textual x86-64 assembly.
//!
//! The pipeline is: token sequence -> parser -> abstract syntax tree ->
//! code generator (driving an environment of stack slots, a label
//! generator, and a line emitter) -> assembly text.

pub mod codegen;
pub mod decimal;
pub mod emitter;
pub mod env;
pub mod eval;
pub mod expr;
pub mod instr;
pub mod label_tracker;
pub mod machine;
pub mod op;
pub mod parser;
pub mod span;
pub mod stmt;
pub mod token;
