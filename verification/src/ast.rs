//! The abstract syntax of Heap-IMP: expressions, statements, and the types
//! that the checker assigns to expressions and variables.

use vstd::prelude::*;

verus! {

/// The type of a Heap-IMP expression or variable.
///
/// `PointerType` marks a stack variable that names a heap cell; the cell
/// itself always holds a natural number, so a dereference has `NatType`.
#[derive(Clone, Copy, PartialEq, Eq, Structural, Debug)]
pub enum ExType {
    NatType,
    BoolType,
    PointerType,
}

/// An expression: a pure tree that reads the stack or the heap but never
/// changes either.  Each node owns its operands exclusively.
pub enum Expression {
    /// Read the value of the stack variable `x`.
    StackVar { x: String },
    /// Read the heap cell named by the pointer variable `x`.
    HeapRead { x: String },
    /// A natural-number literal.
    NatConstant { n: i32 },
    /// A boolean literal.
    BoolConstant { b: bool },
    /// Addition of two natural-valued expressions.
    Add { ex1: Box<Expression>, ex2: Box<Expression> },
    /// Boolean negation.
    Negation { ex1: Box<Expression> },
    /// Boolean conjunction.
    Conjunction { ex1: Box<Expression>, ex2: Box<Expression> },
    /// The comparison `ex1 <= ex2` over naturals.
    Comparison { ex1: Box<Expression>, ex2: Box<Expression> },
}

/// A statement: a tree whose checking threads a typing context through it.
pub enum Statement {
    /// `x := e` — bind or rebind the stack variable `x`.
    StackAssignment { x: String, ex1: Expression },
    /// `!x := e` — store into the heap cell that the pointer `x` names.
    HeapUpdate { x: String, ex1: Expression },
    /// `x := y` — let `x` name the same heap cell as the pointer `y`.
    HeapAlias { x: String, y: String },
    /// `x := new(e)` — allocate a heap cell holding `e` and bind `x` to it.
    HeapNew { x: String, ex1: Expression },
    /// `s1; s2` — run `st1`, then `st2`.
    Sequence { st1: Box<Statement>, st2: Box<Statement> },
    /// `if e then s1 else s2`.
    IfThenElse {
        condition: Expression,
        then_branch: Box<Statement>,
        else_branch: Box<Statement>,
    },
    /// `skip` — do nothing.
    Skip,
    /// `while e do s`.
    While { condition: Expression, st: Box<Statement> },
}

} // verus!
