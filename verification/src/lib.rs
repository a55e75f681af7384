//! Front-end of a compiler for a small statically-typed circuit-description
//! language: the declaration/type/statement parser and the abstract syntax
//! tree it produces, together with the structural type-equivalence relations
//! used by semantic analysis.
//!
//! Parsing consumes a cursor over an already-lexed token stream and builds
//! AST nodes bottom-up, merging source spans as it returns.  Every parse
//! function is specified against a mathematical model of the grammar: a
//! spec-level parser over the token sequence which pins down, for every
//! input, whether parsing succeeds, the exact node produced, the exact
//! error otherwise, and the cursor position afterwards.

pub mod constants;
pub mod error;
pub mod expr;
pub mod functions;
pub mod laws;
pub mod scope;
pub mod statements;
pub mod syntax;
pub mod tokens;
pub mod types;

pub use constants::{Field, Span};
