//! The diagnostics that checking can produce.  A `TypeError` carries the
//! offending names and the rendered text of offending subexpressions; its
//! view lifts those payloads to character sequences so that contracts can
//! state exactly which error an input produces.

use vstd::prelude::*;

use crate::ast::ExType;
use crate::render::printType;
use crate::render::type_text;

verus! {

/// The ways an expression or statement can sit in a position whose type
/// rules it violates.  `text` fields hold the rendered offending expression.
pub enum Mismatch {
    /// One operand (or a guard) should have the expected type but does not.
    Operand { text: String, expected: ExType },
    /// Both operands of a binary form miss the expected type.
    Operands { left: String, right: String, expected: ExType },
    /// A pointer value may never be assigned to a stack variable.
    PointerOnStack,
    /// A name is rebound to an expression whose type differs from the
    /// name's recorded type.
    Rebind { name: String, text: String },
    /// A name that should be bound as a pointer is already bound to a
    /// different type.
    BoundNotPointer { name: String },
}

/// The spec-level shape of a `Mismatch`, over character sequences.
pub enum MismatchView {
    Operand { text: Seq<char>, expected: ExType },
    Operands { left: Seq<char>, right: Seq<char>, expected: ExType },
    PointerOnStack,
    Rebind { name: Seq<char>, text: Seq<char> },
    BoundNotPointer { name: Seq<char> },
}

impl View for Mismatch {
    type V = MismatchView;

    open spec fn view(&self) -> MismatchView {
        match self {
            Mismatch::Operand { text, expected } => MismatchView::Operand {
                text: text@,
                expected: *expected,
            },
            Mismatch::Operands { left, right, expected } => MismatchView::Operands {
                left: left@,
                right: right@,
                expected: *expected,
            },
            Mismatch::PointerOnStack => MismatchView::PointerOnStack,
            Mismatch::Rebind { name, text } => MismatchView::Rebind { name: name@, text: text@ },
            Mismatch::BoundNotPointer { name } => MismatchView::BoundNotPointer { name: name@ },
        }
    }
}

/// A checking diagnostic.  The four variants are the four kinds of rule
/// violation the checker can find; every error is terminal for the check
/// that produced it.
pub enum TypeError {
    /// A name was used where it is not bound in the context.
    UndeclaredVariable { name: String },
    /// A bound name was dereferenced, aliased or updated as a pointer, but
    /// its recorded type is not `PointerType`.
    NotAPointer { name: String },
    /// An expression's type does not fit its syntactic position.
    TypeMismatch { mismatch: Mismatch },
    /// The two branches of a conditional leave incompatible contexts.
    BranchContextMismatch,
}

/// The spec-level shape of a `TypeError`, over character sequences.
pub enum TypeErrorView {
    UndeclaredVariable { name: Seq<char> },
    NotAPointer { name: Seq<char> },
    TypeMismatch { mismatch: MismatchView },
    BranchContextMismatch,
}

impl View for TypeError {
    type V = TypeErrorView;

    open spec fn view(&self) -> TypeErrorView {
        match self {
            TypeError::UndeclaredVariable { name } => TypeErrorView::UndeclaredVariable {
                name: name@,
            },
            TypeError::NotAPointer { name } => TypeErrorView::NotAPointer { name: name@ },
            TypeError::TypeMismatch { mismatch } => TypeErrorView::TypeMismatch {
                mismatch: mismatch@,
            },
            TypeError::BranchContextMismatch => TypeErrorView::BranchContextMismatch,
        }
    }
}

/// The display text of a mismatch diagnostic.
pub open spec fn mismatch_text(m: MismatchView) -> Seq<char> {
    match m {
        MismatchView::Operand { text, expected } => "Expression: "@ + text + " should be of "@
            + type_text(expected),
        MismatchView::Operands { left, right, expected } => "Expression: "@ + left
            + " & Expression: "@ + right + " should be of "@ + type_text(expected),
        MismatchView::PointerOnStack => "Cannot assign a pointer value to a stack variable"@,
        MismatchView::Rebind { name, text } => "Variable "@ + name
            + " already exists & does not match the type of "@ + text,
        MismatchView::BoundNotPointer { name } => "Variable "@ + name
            + " already exists and is not PointerType"@,
    }
}

/// The display text of a diagnostic.
pub open spec fn error_text(e: TypeErrorView) -> Seq<char> {
    match e {
        TypeErrorView::UndeclaredVariable { name } => "Undeclared variable: "@ + name,
        TypeErrorView::NotAPointer { name } => "Variable "@ + name + " is not PointerType"@,
        TypeErrorView::TypeMismatch { mismatch } => mismatch_text(mismatch),
        TypeErrorView::BranchContextMismatch =>
            "Contexts after the branches of an if-then-else are not identical"@,
    }
}

impl Mismatch {
    /// Renders this mismatch for display.
    pub fn message(&self) -> (r: String)
        ensures
            r@ == mismatch_text(self@),
    {
        match self {
            Mismatch::Operand { text, expected } => {
                let mut s = String::from_str("Expression: ");
                s.append(text.as_str());
                s.append(" should be of ");
                let t = printType(*expected);
                s.append(t.as_str());
                s
            },
            Mismatch::Operands { left, right, expected } => {
                let mut s = String::from_str("Expression: ");
                s.append(left.as_str());
                s.append(" & Expression: ");
                s.append(right.as_str());
                s.append(" should be of ");
                let t = printType(*expected);
                s.append(t.as_str());
                s
            },
            Mismatch::PointerOnStack => String::from_str(
                "Cannot assign a pointer value to a stack variable",
            ),
            Mismatch::Rebind { name, text } => {
                let mut s = String::from_str("Variable ");
                s.append(name.as_str());
                s.append(" already exists & does not match the type of ");
                s.append(text.as_str());
                s
            },
            Mismatch::BoundNotPointer { name } => {
                let mut s = String::from_str("Variable ");
                s.append(name.as_str());
                s.append(" already exists and is not PointerType");
                s
            },
        }
    }
}

impl TypeError {
    /// Renders this diagnostic for display.
    pub fn message(&self) -> (r: String)
        ensures
            r@ == error_text(self@),
    {
        match self {
            TypeError::UndeclaredVariable { name } => {
                let mut s = String::from_str("Undeclared variable: ");
                s.append(name.as_str());
                s
            },
            TypeError::NotAPointer { name } => {
                let mut s = String::from_str("Variable ");
                s.append(name.as_str());
                s.append(" is not PointerType");
                s
            },
            TypeError::TypeMismatch { mismatch } => mismatch.message(),
            TypeError::BranchContextMismatch => String::from_str(
                "Contexts after the branches of an if-then-else are not identical",
            ),
        }
    }
}

} // verus!
