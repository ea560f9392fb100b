//! A code generator that lowers a small imperative language to C source text.
//!
//! The input is a typed syntax tree ([`Program`]); the output is the text of
//! one C compilation unit. Every emitter is specified against a mathematical
//! description of the text it appends, given in [`target_text`]; [`laws`]
//! holds what follows from that description for every input.

pub mod ast;
pub mod decimal;
pub mod emit;
pub mod laws;
pub mod string_literal;
pub mod target_text;

pub use ast::{Block, BlockOrIf, Expr, InfixOp, PrefixOp, Program, Stmt, Type};
pub use emit::{
    emit_block, emit_expr, emit_function, emit_stmt, indent, transpile, type_to_c, SourceFile,
};
