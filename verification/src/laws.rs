//! General properties of the typing discipline, each stated over the spec
//! checkers for all inputs and proved once and for all.

use vstd::prelude::*;

use crate::ast::ExType;
use crate::ast::Expression;
use crate::ast::Statement;
use crate::check::exp_type;
use crate::check::stmt_check;
use crate::errors::MismatchView;
use crate::errors::TypeErrorView;

verus! {

/// Soundness of rebinding: when `x` is already bound in `c`, checking
/// `x := e` with `e` of a different type than `x` fails with a type
/// mismatch, and with `e` of the same (non-pointer) type it succeeds and
/// leaves the context unchanged.  A pointer-typed `e` can never succeed,
/// even against a pointer-typed binding: that is pointer exclusion.
pub proof fn lemma_rebinding_soundness(x: String, e: Expression, c: Map<Seq<char>, ExType>)
    requires
        c.dom().contains(x@),
    ensures
        exp_type(e, c) matches Result::Ok(t) && t != c[x@] ==> (stmt_check(
            Statement::StackAssignment { x, ex1: e },
            c,
        ) matches Result::Err(er) && er is TypeMismatch),
        exp_type(e, c) matches Result::Ok(t) && t == c[x@] && !(t is PointerType) ==> (stmt_check(
            Statement::StackAssignment { x, ex1: e },
            c,
        ) matches Result::Ok(m) && m == c),
{
}

/// Pointer exclusion: whenever `e` evaluates to `PointerType`, checking
/// `x := e` fails, for every context and every name.
pub proof fn lemma_pointer_exclusion(x: String, e: Expression, c: Map<Seq<char>, ExType>)
    requires
        exp_type(e, c) matches Result::Ok(t) && t is PointerType,
    ensures
        stmt_check(Statement::StackAssignment { x, ex1: e }, c) matches Result::Err(er) && er
            == (TypeErrorView::TypeMismatch { mismatch: MismatchView::PointerOnStack }),
{
}

/// Branch symmetry: when `if g then s1 else s2` checks successfully from
/// `c`, each branch independently checks successfully from `c` (checking
/// reads `c` by value, so a clone of `c` behaves identically), and both
/// branches leave exactly the mapping that the conditional leaves.
pub proof fn lemma_branch_symmetry(
    g: Expression,
    s1: Statement,
    s2: Statement,
    c: Map<Seq<char>, ExType>,
)
    ensures
        stmt_check(
            Statement::IfThenElse {
                condition: g,
                then_branch: Box::new(s1),
                else_branch: Box::new(s2),
            },
            c,
        ) matches Result::Ok(m) ==> ({
            &&& stmt_check(s1, c) matches Result::Ok(m1) && m1 == m
            &&& stmt_check(s2, c) matches Result::Ok(m2) && m2 == m
        }),
{
}

/// Alias transitivity of pointer-ness: when `y` is a pointer in `c` and
/// `x` is free or itself a pointer, `x := y` succeeds and binds `x` as a
/// pointer; afterwards both `!x := e` and `!y := e` succeed for any `e`
/// that evaluates to `NatType` in the resulting context, and neither
/// update changes the context.
pub proof fn lemma_alias_transitivity(
    x: String,
    y: String,
    e: Expression,
    c: Map<Seq<char>, ExType>,
)
    requires
        c.dom().contains(y@),
        c[y@] is PointerType,
        !c.dom().contains(x@) || c[x@] is PointerType,
        exp_type(e, c.insert(x@, ExType::PointerType)) matches Result::Ok(t) && t is NatType,
    ensures
        ({
            let c1 = c.insert(x@, ExType::PointerType);
            &&& stmt_check(Statement::HeapAlias { x, y }, c) matches Result::Ok(ca) && ca == c1
            &&& stmt_check(Statement::HeapUpdate { x, ex1: e }, c1) matches Result::Ok(cu) && cu
                == c1
            &&& stmt_check(Statement::HeapUpdate { x: y, ex1: e }, c1) matches Result::Ok(cy) && cy
                == c1
        }),
{
    let c1 = c.insert(x@, ExType::PointerType);
    if c.dom().contains(x@) {
        assert(c1 =~= c);
    }
}

/// Idempotence of heap update: a successful `!x := e` leaves the context
/// exactly as it was, and checking it twice in sequence from a context
/// yields the same result as checking it once.
pub proof fn lemma_heap_update_idempotent(x: String, e: Expression, c: Map<Seq<char>, ExType>)
    ensures
        stmt_check(Statement::HeapUpdate { x, ex1: e }, c) matches Result::Ok(m) ==> m == c,
        stmt_check(Statement::HeapUpdate { x, ex1: e }, c) matches Result::Ok(m) ==> (stmt_check(
            Statement::Sequence {
                st1: Box::new(Statement::HeapUpdate { x, ex1: e }),
                st2: Box::new(Statement::HeapUpdate { x, ex1: e }),
            },
            c,
        ) matches Result::Ok(m2) && m2 == m),
{
}

} // verus!
