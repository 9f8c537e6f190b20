//! The syntax tree of the language.
pub mod common;
pub mod expression;
pub mod function;
pub mod imports;
pub mod program;
pub mod spans;
pub mod statement;
pub mod types;
