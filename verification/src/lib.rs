//! The core of a compiler from a typed language to rank-1 constraint systems:
//! the syntax tree and the passes that rewrite it, and the integers of the
//! language with the arithmetic that their constraints stand for.
pub mod arithmetic;
pub mod ast;
pub mod errors;
pub mod freshness;
pub mod input;
pub mod integer;
pub mod integer_type;
pub mod package;
pub mod reducer;
pub mod soundness;
pub mod span;
pub mod synthesis;
pub mod text;
