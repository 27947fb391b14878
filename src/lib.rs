//! A translator from the syntax tree of a dynamically typed scripting language
//! to the source text of a statically typed systems language.
//!
//! The rules are stated as spec functions (`expr_spec`, `stmt_spec`,
//! `annotation`, `operators`, `translate::transpile`): each gives the text of
//! a node and the run's state after it, or the rule that rejected the node.
//! The executable translators (`expr`, `stmt`, `translate::p2r`) are proved
//! to produce exactly that text and state, or exactly that error, and to keep
//! the import tables ordered, and to keep every declared record, enumeration
//! and imported name in place. `laws` and `async_law` prove properties that hold of every input.
pub mod ast;
pub mod error;
pub mod text;
pub mod padded;
pub mod context;
pub mod operators;
pub mod annotation;
pub mod expr_spec;
pub mod expr;
pub mod stmt_spec;
pub mod stmt;
pub mod translate;
pub mod laws;
pub mod async_law;

pub use context::{Ctx, Imports, Promotion};
pub use error::{ParseError, Rule, TranspileError};
pub use padded::{Padded, PaddedT};
pub use translate::p2r;
