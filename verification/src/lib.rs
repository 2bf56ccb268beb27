//! A static type checker for Heap-IMP, a small imperative language whose
//! programs manipulate a stack of typed variables and a heap of
//! natural-valued cells reached through pointers.
//!
//! The library models a typing context as a finite map from variable names
//! to types, evaluates the type of an expression under such a context, and
//! checks a statement while threading the context through it.  Both checkers
//! are verified against spec-level definitions of the typing rules.

#![allow(non_snake_case)]

pub mod ast;
pub mod check;
pub mod context;
pub mod errors;
pub mod laws;
pub mod render;

pub use ast::ExType;
pub use ast::Expression;
pub use ast::Statement;
pub use check::typeCheck;
pub use check::typeCheckExp;
pub use context::TypeContext;
pub use errors::Mismatch;
pub use errors::TypeError;
pub use render::printExpression;
pub use render::printStatement;
pub use render::printType;
