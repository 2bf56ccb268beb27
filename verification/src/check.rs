//! The type checker itself.  The spec functions `exp_type` and `stmt_check`
//! define the typing rules of Heap-IMP as total functions from an AST node
//! and a context mapping to a result; the executable checkers are proved to
//! return exactly what those definitions say, for every input.

use vstd::prelude::*;

use crate::ast::ExType;
use crate::ast::Expression;
use crate::ast::Statement;
use crate::context::TypeContext;
use crate::errors::Mismatch;
use crate::errors::MismatchView;
use crate::errors::TypeError;
use crate::errors::TypeErrorView;
use crate::render::exp_text;
use crate::render::render_exp;

verus! {

/// Combines the results of a binary form's two operands.  A failed operand
/// fails the form, the left one first; two successful operands must both
/// have the `operand` type, and whichever misses it is named, both when
/// both miss it.
pub open spec fn binop_check(
    r1: Result<ExType, TypeErrorView>,
    r2: Result<ExType, TypeErrorView>,
    t1: Seq<char>,
    t2: Seq<char>,
    operand: ExType,
    result: ExType,
) -> Result<ExType, TypeErrorView> {
    match (r1, r2) {
        (Result::Err(e), _) => Result::Err(e),
        (Result::Ok(_), Result::Err(e)) => Result::Err(e),
        (Result::Ok(a), Result::Ok(b)) => {
            if a == operand && b == operand {
                Result::Ok(result)
            } else if a == operand {
                Result::Err(
                    TypeErrorView::TypeMismatch {
                        mismatch: MismatchView::Operand { text: t2, expected: operand },
                    },
                )
            } else if b == operand {
                Result::Err(
                    TypeErrorView::TypeMismatch {
                        mismatch: MismatchView::Operand { text: t1, expected: operand },
                    },
                )
            } else {
                Result::Err(
                    TypeErrorView::TypeMismatch {
                        mismatch: MismatchView::Operands { left: t1, right: t2, expected: operand },
                    },
                )
            }
        },
    }
}

/// The type of an expression under a context mapping, or the first error
/// found in a left-to-right walk.  Evaluation never changes the context.
pub open spec fn exp_type(e: Expression, c: Map<Seq<char>, ExType>) -> Result<
    ExType,
    TypeErrorView,
>
    decreases e,
{
    match e {
        Expression::StackVar { x } => {
            if c.dom().contains(x@) {
                Result::Ok(c[x@])
            } else {
                Result::Err(TypeErrorView::UndeclaredVariable { name: x@ })
            }
        },
        Expression::HeapRead { x } => {
            if !c.dom().contains(x@) {
                Result::Err(TypeErrorView::UndeclaredVariable { name: x@ })
            } else if c[x@] is PointerType {
                Result::Ok(ExType::NatType)
            } else {
                Result::Err(TypeErrorView::NotAPointer { name: x@ })
            }
        },
        Expression::NatConstant { n } => Result::Ok(ExType::NatType),
        Expression::BoolConstant { b } => Result::Ok(ExType::BoolType),
        Expression::Add { ex1, ex2 } => binop_check(
            exp_type(*ex1, c),
            exp_type(*ex2, c),
            exp_text(*ex1),
            exp_text(*ex2),
            ExType::NatType,
            ExType::NatType,
        ),
        Expression::Negation { ex1 } => match exp_type(*ex1, c) {
            Result::Err(e) => Result::Err(e),
            Result::Ok(t) => {
                if t is BoolType {
                    Result::Ok(ExType::BoolType)
                } else {
                    Result::Err(
                        TypeErrorView::TypeMismatch {
                            mismatch: MismatchView::Operand {
                                text: exp_text(*ex1),
                                expected: ExType::BoolType,
                            },
                        },
                    )
                }
            },
        },
        Expression::Conjunction { ex1, ex2 } => binop_check(
            exp_type(*ex1, c),
            exp_type(*ex2, c),
            exp_text(*ex1),
            exp_text(*ex2),
            ExType::BoolType,
            ExType::BoolType,
        ),
        Expression::Comparison { ex1, ex2 } => binop_check(
            exp_type(*ex1, c),
            exp_type(*ex2, c),
            exp_text(*ex1),
            exp_text(*ex2),
            ExType::NatType,
            ExType::BoolType,
        ),
    }
}

/// The context mapping that checking a statement leaves behind, or the
/// first error found.  This is the typing discipline itself: binding rules
/// for assignments, the pointer rules for the heap forms, sequencing, the
/// branch-merge rule for conditionals, and the single-pass loop rule.
pub open spec fn stmt_check(st: Statement, c: Map<Seq<char>, ExType>) -> Result<
    Map<Seq<char>, ExType>,
    TypeErrorView,
>
    decreases st,
{
    match st {
        Statement::StackAssignment { x, ex1 } => match exp_type(ex1, c) {
            Result::Err(e) => Result::Err(e),
            Result::Ok(t) => {
                if t is PointerType {
                    Result::Err(
                        TypeErrorView::TypeMismatch { mismatch: MismatchView::PointerOnStack },
                    )
                } else if c.dom().contains(x@) {
                    if c[x@] == t {
                        Result::Ok(c)
                    } else {
                        Result::Err(
                            TypeErrorView::TypeMismatch {
                                mismatch: MismatchView::Rebind { name: x@, text: exp_text(ex1) },
                            },
                        )
                    }
                } else {
                    Result::Ok(c.insert(x@, t))
                }
            },
        },
        Statement::HeapUpdate { x, ex1 } => {
            if !c.dom().contains(x@) {
                Result::Err(TypeErrorView::UndeclaredVariable { name: x@ })
            } else if !(c[x@] is PointerType) {
                Result::Err(TypeErrorView::NotAPointer { name: x@ })
            } else {
                match exp_type(ex1, c) {
                    Result::Err(e) => Result::Err(e),
                    Result::Ok(t) => {
                        if t is NatType {
                            Result::Ok(c)
                        } else {
                            Result::Err(
                                TypeErrorView::TypeMismatch {
                                    mismatch: MismatchView::Operand {
                                        text: exp_text(ex1),
                                        expected: ExType::NatType,
                                    },
                                },
                            )
                        }
                    },
                }
            }
        },
        Statement::HeapAlias { x, y } => {
            if !c.dom().contains(y@) {
                Result::Err(TypeErrorView::UndeclaredVariable { name: y@ })
            } else if !(c[y@] is PointerType) {
                Result::Err(TypeErrorView::NotAPointer { name: y@ })
            } else if c.dom().contains(x@) {
                if c[x@] is PointerType {
                    Result::Ok(c)
                } else {
                    Result::Err(
                        TypeErrorView::TypeMismatch {
                            mismatch: MismatchView::BoundNotPointer { name: x@ },
                        },
                    )
                }
            } else {
                Result::Ok(c.insert(x@, ExType::PointerType))
            }
        },
        Statement::HeapNew { x, ex1 } => match exp_type(ex1, c) {
            Result::Err(e) => Result::Err(e),
            Result::Ok(t) => {
                if !(t is NatType) {
                    Result::Err(
                        TypeErrorView::TypeMismatch {
                            mismatch: MismatchView::Operand {
                                text: exp_text(ex1),
                                expected: ExType::NatType,
                            },
                        },
                    )
                } else if c.dom().contains(x@) {
                    if c[x@] is PointerType {
                        Result::Ok(c)
                    } else {
                        Result::Err(
                            TypeErrorView::TypeMismatch {
                                mismatch: MismatchView::BoundNotPointer { name: x@ },
                            },
                        )
                    }
                } else {
                    Result::Ok(c.insert(x@, ExType::PointerType))
                }
            },
        },
        Statement::Sequence { st1, st2 } => match stmt_check(*st1, c) {
            Result::Err(e) => Result::Err(e),
            Result::Ok(c1) => stmt_check(*st2, c1),
        },
        Statement::IfThenElse { condition, then_branch, else_branch } => match exp_type(
            condition,
            c,
        ) {
            Result::Err(e) => Result::Err(e),
            Result::Ok(t) => {
                if !(t is BoolType) {
                    Result::Err(
                        TypeErrorView::TypeMismatch {
                            mismatch: MismatchView::Operand {
                                text: exp_text(condition),
                                expected: ExType::BoolType,
                            },
                        },
                    )
                } else {
                    match (stmt_check(*then_branch, c), stmt_check(*else_branch, c)) {
                        (Result::Err(e), _) => Result::Err(e),
                        (Result::Ok(c1), Result::Err(e)) => Result::Err(e),
                        (Result::Ok(c1), Result::Ok(c2)) => {
                            if c1 == c2 {
                                Result::Ok(c2)
                            } else {
                                Result::Err(TypeErrorView::BranchContextMismatch)
                            }
                        },
                    }
                }
            },
        },
        Statement::Skip => Result::Ok(c),
        Statement::While { condition, st } => match exp_type(condition, c) {
            Result::Err(e) => Result::Err(e),
            Result::Ok(t) => {
                if t is BoolType {
                    stmt_check(*st, c)
                } else {
                    Result::Err(
                        TypeErrorView::TypeMismatch {
                            mismatch: MismatchView::Operand {
                                text: exp_text(condition),
                                expected: ExType::BoolType,
                            },
                        },
                    )
                }
            },
        },
    }
}

/// Lifts an executable evaluation result to the spec level.
pub open spec fn result_view(r: Result<ExType, TypeError>) -> Result<ExType, TypeErrorView> {
    match r {
        Result::Ok(t) => Result::Ok(t),
        Result::Err(e) => Result::Err(e@),
    }
}

/// Combines two already-evaluated operand results as `binop_check` says,
/// rendering the operands only when a diagnostic needs their text.
fn combine_binop(
    r1: Result<ExType, TypeError>,
    r2: Result<ExType, TypeError>,
    ex1: &Expression,
    ex2: &Expression,
    operand: ExType,
    result: ExType,
) -> (r: Result<ExType, TypeError>)
    ensures
        result_view(r) == binop_check(
            result_view(r1),
            result_view(r2),
            exp_text(*ex1),
            exp_text(*ex2),
            operand,
            result,
        ),
{
    match (r1, r2) {
        (Result::Err(e), _) => Result::Err(e),
        (Result::Ok(_), Result::Err(e)) => Result::Err(e),
        (Result::Ok(a), Result::Ok(b)) => {
            if a == operand && b == operand {
                Result::Ok(result)
            } else if a == operand {
                Result::Err(
                    TypeError::TypeMismatch {
                        mismatch: Mismatch::Operand { text: render_exp(ex2), expected: operand },
                    },
                )
            } else if b == operand {
                Result::Err(
                    TypeError::TypeMismatch {
                        mismatch: Mismatch::Operand { text: render_exp(ex1), expected: operand },
                    },
                )
            } else {
                Result::Err(
                    TypeError::TypeMismatch {
                        mismatch: Mismatch::Operands {
                            left: render_exp(ex1),
                            right: render_exp(ex2),
                            expected: operand,
                        },
                    },
                )
            }
        },
    }
}

/// The executable expression evaluator, by reference.
fn check_exp(e: &Expression, ctx: &TypeContext) -> (r: Result<ExType, TypeError>)
    requires
        ctx.wf(),
    ensures
        result_view(r) == exp_type(*e, ctx@),
    decreases *e,
{
    match e {
        Expression::StackVar { x } => match ctx.get(x) {
            Some(t) => Result::Ok(t),
            None => Result::Err(TypeError::UndeclaredVariable { name: x.clone() }),
        },
        Expression::HeapRead { x } => match ctx.get(x) {
            None => Result::Err(TypeError::UndeclaredVariable { name: x.clone() }),
            Some(ExType::PointerType) => Result::Ok(ExType::NatType),
            Some(_) => Result::Err(TypeError::NotAPointer { name: x.clone() }),
        },
        Expression::NatConstant { n: _ } => Result::Ok(ExType::NatType),
        Expression::BoolConstant { b: _ } => Result::Ok(ExType::BoolType),
        Expression::Add { ex1, ex2 } => {
            let r1 = check_exp(&**ex1, ctx);
            let r2 = check_exp(&**ex2, ctx);
            combine_binop(r1, r2, &**ex1, &**ex2, ExType::NatType, ExType::NatType)
        },
        Expression::Negation { ex1 } => {
            match check_exp(&**ex1, ctx) {
                Result::Err(e) => Result::Err(e),
                Result::Ok(ExType::BoolType) => Result::Ok(ExType::BoolType),
                Result::Ok(_) => Result::Err(
                    TypeError::TypeMismatch {
                        mismatch: Mismatch::Operand {
                            text: render_exp(&**ex1),
                            expected: ExType::BoolType,
                        },
                    },
                ),
            }
        },
        Expression::Conjunction { ex1, ex2 } => {
            let r1 = check_exp(&**ex1, ctx);
            let r2 = check_exp(&**ex2, ctx);
            combine_binop(r1, r2, &**ex1, &**ex2, ExType::BoolType, ExType::BoolType)
        },
        Expression::Comparison { ex1, ex2 } => {
            let r1 = check_exp(&**ex1, ctx);
            let r2 = check_exp(&**ex2, ctx);
            combine_binop(r1, r2, &**ex1, &**ex2, ExType::NatType, ExType::BoolType)
        },
    }
}

/// Evaluates the type of `exp` under `stack`, or explains why it has none.
/// The context is only read, never changed.
pub fn typeCheckExp(exp: Expression, stack: &TypeContext) -> (r: Result<ExType, TypeError>)
    requires
        stack.wf(),
    ensures
        result_view(r) == exp_type(exp, stack@),
{
    check_exp(&exp, stack)
}

/// The executable statement checker, by reference.
fn check_stmt(s: &Statement, ctx: &mut TypeContext) -> (r: Option<TypeError>)
    requires
        old(ctx).wf(),
    ensures
        final(ctx).wf(),
        match stmt_check(*s, old(ctx)@) {
            Result::Ok(m) => r is None && final(ctx)@ == m,
            Result::Err(ev) => r matches Some(er) && er@ == ev,
        },
    decreases *s,
{
    match s {
        Statement::StackAssignment { x, ex1 } => {
            match check_exp(ex1, ctx) {
                Result::Err(e) => Some(e),
                Result::Ok(t) => {
                    if t == ExType::PointerType {
                        Some(TypeError::TypeMismatch { mismatch: Mismatch::PointerOnStack })
                    } else {
                        match ctx.get(x) {
                            Some(t0) => {
                                if t0 == t {
                                    None
                                } else {
                                    Some(
                                        TypeError::TypeMismatch {
                                            mismatch: Mismatch::Rebind {
                                                name: x.clone(),
                                                text: render_exp(ex1),
                                            },
                                        },
                                    )
                                }
                            },
                            None => {
                                ctx.insert(x.clone(), t);
                                None
                            },
                        }
                    }
                },
            }
        },
        Statement::HeapUpdate { x, ex1 } => {
            match ctx.get(x) {
                None => Some(TypeError::UndeclaredVariable { name: x.clone() }),
                Some(t0) => {
                    if !(t0 == ExType::PointerType) {
                        Some(TypeError::NotAPointer { name: x.clone() })
                    } else {
                        match check_exp(ex1, ctx) {
                            Result::Err(e) => Some(e),
                            Result::Ok(ExType::NatType) => None,
                            Result::Ok(_) => Some(
                                TypeError::TypeMismatch {
                                    mismatch: Mismatch::Operand {
                                        text: render_exp(ex1),
                                        expected: ExType::NatType,
                                    },
                                },
                            ),
                        }
                    }
                },
            }
        },
        Statement::HeapAlias { x, y } => {
            match ctx.get(y) {
                None => Some(TypeError::UndeclaredVariable { name: y.clone() }),
                Some(t0) => {
                    if !(t0 == ExType::PointerType) {
                        Some(TypeError::NotAPointer { name: y.clone() })
                    } else {
                        match ctx.get(x) {
                            Some(tx) => {
                                if tx == ExType::PointerType {
                                    None
                                } else {
                                    Some(
                                        TypeError::TypeMismatch {
                                            mismatch: Mismatch::BoundNotPointer {
                                                name: x.clone(),
                                            },
                                        },
                                    )
                                }
                            },
                            None => {
                                ctx.insert(x.clone(), ExType::PointerType);
                                None
                            },
                        }
                    }
                },
            }
        },
        Statement::HeapNew { x, ex1 } => {
            match check_exp(ex1, ctx) {
                Result::Err(e) => Some(e),
                Result::Ok(t) => {
                    if !(t == ExType::NatType) {
                        Some(
                            TypeError::TypeMismatch {
                                mismatch: Mismatch::Operand {
                                    text: render_exp(ex1),
                                    expected: ExType::NatType,
                                },
                            },
                        )
                    } else {
                        match ctx.get(x) {
                            Some(tx) => {
                                if tx == ExType::PointerType {
                                    None
                                } else {
                                    Some(
                                        TypeError::TypeMismatch {
                                            mismatch: Mismatch::BoundNotPointer {
                                                name: x.clone(),
                                            },
                                        },
                                    )
                                }
                            },
                            None => {
                                ctx.insert(x.clone(), ExType::PointerType);
                                None
                            },
                        }
                    }
                },
            }
        },
        Statement::Sequence { st1, st2 } => {
            match check_stmt(&**st1, ctx) {
                Some(e) => Some(e),
                None => check_stmt(&**st2, ctx),
            }
        },
        Statement::IfThenElse { condition, then_branch, else_branch } => {
            match check_exp(condition, ctx) {
                Result::Err(e) => Some(e),
                Result::Ok(t) => {
                    if !(t == ExType::BoolType) {
                        Some(
                            TypeError::TypeMismatch {
                                mismatch: Mismatch::Operand {
                                    text: render_exp(condition),
                                    expected: ExType::BoolType,
                                },
                            },
                        )
                    } else {
                        let mut branch_ctx = ctx.clone();
                        let r1 = check_stmt(&**then_branch, &mut branch_ctx);
                        let r2 = check_stmt(&**else_branch, ctx);
                        match (r1, r2) {
                            (Some(e), _) => Some(e),
                            (None, Some(e)) => Some(e),
                            (None, None) => {
                                if branch_ctx.same_entries(ctx) {
                                    None
                                } else {
                                    Some(TypeError::BranchContextMismatch)
                                }
                            },
                        }
                    }
                },
            }
        },
        Statement::Skip => None,
        Statement::While { condition, st } => {
            match check_exp(condition, ctx) {
                Result::Err(e) => Some(e),
                Result::Ok(t) => {
                    if t == ExType::BoolType {
                        check_stmt(&**st, ctx)
                    } else {
                        Some(
                            TypeError::TypeMismatch {
                                mismatch: Mismatch::Operand {
                                    text: render_exp(condition),
                                    expected: ExType::BoolType,
                                },
                            },
                        )
                    }
                },
            }
        },
    }
}

/// Checks `st` under `stack`, mutating `stack` into the context that the
/// statement leaves behind.  `None` means the statement is well-typed and
/// `stack` now reflects its bindings; `Some` carries the first violation
/// found, and `stack` must then be discarded by the caller.
pub fn typeCheck(st: Statement, stack: &mut TypeContext) -> (r: Option<TypeError>)
    requires
        old(stack).wf(),
    ensures
        final(stack).wf(),
        match stmt_check(st, old(stack)@) {
            Result::Ok(m) => r is None && final(stack)@ == m,
            Result::Err(ev) => r matches Some(er) && er@ == ev,
        },
{
    check_stmt(&st, stack)
}

} // verus!
