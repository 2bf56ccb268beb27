use heapy_imp::typeCheck;
use heapy_imp::typeCheckExp;
use heapy_imp::ExType;
use heapy_imp::Expression;
use heapy_imp::Mismatch;
use heapy_imp::Statement;
use heapy_imp::TypeContext;
use heapy_imp::TypeError;

fn var(x: &str) -> Expression {
    Expression::StackVar { x: x.to_string() }
}

fn heap_read(x: &str) -> Expression {
    Expression::HeapRead { x: x.to_string() }
}

fn num(n: i32) -> Expression {
    Expression::NatConstant { n }
}

fn boolean(b: bool) -> Expression {
    Expression::BoolConstant { b }
}

fn add(a: Expression, b: Expression) -> Expression {
    Expression::Add {
        ex1: Box::new(a),
        ex2: Box::new(b),
    }
}

fn neg(a: Expression) -> Expression {
    Expression::Negation { ex1: Box::new(a) }
}

fn conj(a: Expression, b: Expression) -> Expression {
    Expression::Conjunction {
        ex1: Box::new(a),
        ex2: Box::new(b),
    }
}

fn leq(a: Expression, b: Expression) -> Expression {
    Expression::Comparison {
        ex1: Box::new(a),
        ex2: Box::new(b),
    }
}

fn assign(x: &str, e: Expression) -> Statement {
    Statement::StackAssignment {
        x: x.to_string(),
        ex1: e,
    }
}

fn heap_update(x: &str, e: Expression) -> Statement {
    Statement::HeapUpdate {
        x: x.to_string(),
        ex1: e,
    }
}

fn alias(x: &str, y: &str) -> Statement {
    Statement::HeapAlias {
        x: x.to_string(),
        y: y.to_string(),
    }
}

fn heap_new(x: &str, e: Expression) -> Statement {
    Statement::HeapNew {
        x: x.to_string(),
        ex1: e,
    }
}

fn seq(a: Statement, b: Statement) -> Statement {
    Statement::Sequence {
        st1: Box::new(a),
        st2: Box::new(b),
    }
}

fn if_then_else(c: Expression, t: Statement, e: Statement) -> Statement {
    Statement::IfThenElse {
        condition: c,
        then_branch: Box::new(t),
        else_branch: Box::new(e),
    }
}

fn while_do(c: Expression, body: Statement) -> Statement {
    Statement::While {
        condition: c,
        st: Box::new(body),
    }
}

fn ctx_of(entries: &[(&str, ExType)]) -> TypeContext {
    let mut ctx = TypeContext::new();
    for (name, ty) in entries {
        ctx.insert(name.to_string(), *ty);
    }
    ctx
}

#[test]
fn assign_nat_to_empty_context() {
    let mut ctx = TypeContext::new();
    let r = typeCheck(assign("x", num(5)), &mut ctx);
    assert!(r.is_none());
    assert_eq!(ctx.get(&"x".to_string()), Some(ExType::NatType));
    let expected = ctx_of(&[("x", ExType::NatType)]);
    assert!(ctx.same_entries(&expected));
}

#[test]
fn compare_nat_with_bool_is_mismatch() {
    let ctx = TypeContext::new();
    let r = typeCheckExp(leq(num(5), boolean(true)), &ctx);
    match r {
        Err(TypeError::TypeMismatch {
            mismatch: Mismatch::Operand { text, expected },
        }) => {
            assert_eq!(text, "true");
            assert_eq!(expected, ExType::NatType);
        }
        _ => panic!("expected a type mismatch naming the boolean operand"),
    }
}

#[test]
fn conditional_with_matching_branches() {
    let mut ctx = ctx_of(&[("n", ExType::NatType)]);
    let st = if_then_else(
        leq(var("n"), var("n")),
        assign("n", num(10)),
        assign("n", num(12)),
    );
    let r = typeCheck(st, &mut ctx);
    assert!(r.is_none());
    let expected = ctx_of(&[("n", ExType::NatType)]);
    assert!(ctx.same_entries(&expected));
}

#[test]
fn conditional_with_asymmetric_branches_fails() {
    let mut ctx = ctx_of(&[("n", ExType::NatType)]);
    let st = if_then_else(leq(var("n"), var("n")), assign("x", num(10)), Statement::Skip);
    let r = typeCheck(st, &mut ctx);
    assert!(matches!(r, Some(TypeError::BranchContextMismatch)));
}

#[test]
fn pointer_chain_allocate_alias_update() {
    let mut ctx = TypeContext::new();
    let st = seq(
        seq(heap_new("x", num(5)), alias("y", "x")),
        heap_update("y", num(7)),
    );
    let r = typeCheck(st, &mut ctx);
    assert!(r.is_none());
    assert_eq!(ctx.get(&"x".to_string()), Some(ExType::PointerType));
    assert_eq!(ctx.get(&"y".to_string()), Some(ExType::PointerType));
}

#[test]
fn while_loop_with_counter() {
    let mut ctx = ctx_of(&[("counter", ExType::NatType), ("limit", ExType::NatType)]);
    let st = while_do(
        leq(var("counter"), var("limit")),
        assign("counter", add(var("counter"), num(1))),
    );
    let r = typeCheck(st, &mut ctx);
    assert!(r.is_none());
    let expected = ctx_of(&[("counter", ExType::NatType), ("limit", ExType::NatType)]);
    assert!(ctx.same_entries(&expected));
}

#[test]
fn rebinding_to_same_type_keeps_context() {
    let mut ctx = ctx_of(&[("x", ExType::NatType)]);
    let r = typeCheck(assign("x", num(7)), &mut ctx);
    assert!(r.is_none());
    let expected = ctx_of(&[("x", ExType::NatType)]);
    assert!(ctx.same_entries(&expected));
}

#[test]
fn rebinding_to_different_type_fails() {
    let mut ctx = ctx_of(&[("x", ExType::NatType)]);
    let r = typeCheck(assign("x", boolean(true)), &mut ctx);
    match r {
        Some(TypeError::TypeMismatch {
            mismatch: Mismatch::Rebind { name, text },
        }) => {
            assert_eq!(name, "x");
            assert_eq!(text, "true");
        }
        _ => panic!("expected a rebind mismatch"),
    }
}

#[test]
fn pointer_value_cannot_reach_the_stack() {
    let mut ctx = ctx_of(&[("h", ExType::PointerType)]);
    let r = typeCheck(assign("x", var("h")), &mut ctx);
    assert!(matches!(
        r,
        Some(TypeError::TypeMismatch {
            mismatch: Mismatch::PointerOnStack
        })
    ));
}

#[test]
fn alias_shares_pointer_updates() {
    let mut ctx = TypeContext::new();
    let st = seq(
        seq(heap_new("x", num(5)), alias("y", "x")),
        seq(heap_update("x", num(7)), heap_update("y", num(8))),
    );
    let r = typeCheck(st, &mut ctx);
    assert!(r.is_none());
}

#[test]
fn heap_update_leaves_context_unchanged_twice() {
    let mut once = ctx_of(&[("p", ExType::PointerType)]);
    let mut twice = ctx_of(&[("p", ExType::PointerType)]);
    assert!(typeCheck(heap_update("p", num(3)), &mut once).is_none());
    assert!(typeCheck(
        seq(heap_update("p", num(3)), heap_update("p", num(3))),
        &mut twice
    )
    .is_none());
    assert!(once.same_entries(&twice));
    let expected = ctx_of(&[("p", ExType::PointerType)]);
    assert!(once.same_entries(&expected));
}

#[test]
fn undeclared_stack_variable() {
    let ctx = TypeContext::new();
    let r = typeCheckExp(var("z"), &ctx);
    match r {
        Err(TypeError::UndeclaredVariable { name }) => assert_eq!(name, "z"),
        _ => panic!("expected an undeclared-variable error"),
    }
}

#[test]
fn undeclared_heap_variable() {
    let ctx = TypeContext::new();
    let r = typeCheckExp(heap_read("z"), &ctx);
    assert!(matches!(r, Err(TypeError::UndeclaredVariable { .. })));
}

#[test]
fn heap_read_of_non_pointer() {
    let ctx = ctx_of(&[("n", ExType::NatType)]);
    let r = typeCheckExp(heap_read("n"), &ctx);
    match r {
        Err(TypeError::NotAPointer { name }) => assert_eq!(name, "n"),
        _ => panic!("expected a not-a-pointer error"),
    }
}

#[test]
fn heap_read_of_pointer_has_nat_type() {
    let ctx = ctx_of(&[("h", ExType::PointerType)]);
    assert_eq!(typeCheckExp(heap_read("h"), &ctx).ok(), Some(ExType::NatType));
}

#[test]
fn heap_update_of_non_pointer() {
    let mut ctx = ctx_of(&[("b", ExType::BoolType)]);
    let r = typeCheck(heap_update("b", num(1)), &mut ctx);
    assert!(matches!(r, Some(TypeError::NotAPointer { .. })));
}

#[test]
fn heap_update_with_bool_value() {
    let mut ctx = ctx_of(&[("p", ExType::PointerType)]);
    let r = typeCheck(heap_update("p", boolean(false)), &mut ctx);
    match r {
        Some(TypeError::TypeMismatch {
            mismatch: Mismatch::Operand { text, expected },
        }) => {
            assert_eq!(text, "false");
            assert_eq!(expected, ExType::NatType);
        }
        _ => panic!("expected an operand mismatch"),
    }
}

#[test]
fn alias_of_non_pointer_source() {
    let mut ctx = ctx_of(&[("n", ExType::NatType)]);
    let r = typeCheck(alias("x", "n"), &mut ctx);
    assert!(matches!(r, Some(TypeError::NotAPointer { .. })));
}

#[test]
fn alias_into_non_pointer_target() {
    let mut ctx = ctx_of(&[("h", ExType::PointerType), ("x", ExType::NatType)]);
    let r = typeCheck(alias("x", "h"), &mut ctx);
    match r {
        Some(TypeError::TypeMismatch {
            mismatch: Mismatch::BoundNotPointer { name },
        }) => assert_eq!(name, "x"),
        _ => panic!("expected a bound-not-pointer mismatch"),
    }
}

#[test]
fn allocation_into_non_pointer_target() {
    let mut ctx = ctx_of(&[("x", ExType::BoolType)]);
    let r = typeCheck(heap_new("x", num(4)), &mut ctx);
    assert!(matches!(
        r,
        Some(TypeError::TypeMismatch {
            mismatch: Mismatch::BoundNotPointer { .. }
        })
    ));
}

#[test]
fn allocation_of_non_nat_value() {
    let mut ctx = TypeContext::new();
    let r = typeCheck(heap_new("x", boolean(true)), &mut ctx);
    assert!(matches!(
        r,
        Some(TypeError::TypeMismatch {
            mismatch: Mismatch::Operand { .. }
        })
    ));
}

#[test]
fn both_operands_wrong_are_named_together() {
    let ctx = TypeContext::new();
    let r = typeCheckExp(add(boolean(true), boolean(false)), &ctx);
    match r {
        Err(TypeError::TypeMismatch {
            mismatch: Mismatch::Operands { left, right, expected },
        }) => {
            assert_eq!(left, "true");
            assert_eq!(right, "false");
            assert_eq!(expected, ExType::NatType);
        }
        _ => panic!("expected a double operand mismatch"),
    }
}

#[test]
fn left_failure_wins_over_right_failure() {
    let ctx = TypeContext::new();
    let r = typeCheckExp(add(var("a"), var("b")), &ctx);
    match r {
        Err(TypeError::UndeclaredVariable { name }) => assert_eq!(name, "a"),
        _ => panic!("expected the left operand's failure"),
    }
}

#[test]
fn left_operand_wrong_is_named() {
    let ctx = TypeContext::new();
    let r = typeCheckExp(add(boolean(true), num(3)), &ctx);
    match r {
        Err(TypeError::TypeMismatch {
            mismatch: Mismatch::Operand { text, expected },
        }) => {
            assert_eq!(text, "true");
            assert_eq!(expected, ExType::NatType);
        }
        _ => panic!("expected a mismatch naming the left operand"),
    }
}

#[test]
fn conjunction_and_negation_types() {
    let ctx = TypeContext::new();
    assert_eq!(
        typeCheckExp(conj(boolean(true), neg(boolean(false))), &ctx).ok(),
        Some(ExType::BoolType)
    );
    assert_eq!(
        typeCheckExp(neg(leq(num(5), num(5))), &ctx).ok(),
        Some(ExType::BoolType)
    );
    assert_eq!(
        typeCheckExp(add(num(2), add(num(49), num(23))), &ctx).ok(),
        Some(ExType::NatType)
    );
    assert_eq!(
        typeCheckExp(leq(num(2), num(3)), &ctx).ok(),
        Some(ExType::BoolType)
    );
}

#[test]
fn negation_of_nat_fails() {
    let ctx = TypeContext::new();
    let r = typeCheckExp(neg(num(4)), &ctx);
    match r {
        Err(TypeError::TypeMismatch {
            mismatch: Mismatch::Operand { text, expected },
        }) => {
            assert_eq!(text, "4");
            assert_eq!(expected, ExType::BoolType);
        }
        _ => panic!("expected a mismatch on the negated operand"),
    }
}

#[test]
fn conditional_guard_must_be_bool() {
    let mut ctx = ctx_of(&[("n", ExType::NatType)]);
    let st = if_then_else(num(10), assign("n", num(10)), Statement::Skip);
    let r = typeCheck(st, &mut ctx);
    match r {
        Some(TypeError::TypeMismatch {
            mismatch: Mismatch::Operand { text, expected },
        }) => {
            assert_eq!(text, "10");
            assert_eq!(expected, ExType::BoolType);
        }
        _ => panic!("expected a guard mismatch"),
    }
}

#[test]
fn loop_guard_must_be_bool() {
    let mut ctx = TypeContext::new();
    let r = typeCheck(while_do(num(5), Statement::Skip), &mut ctx);
    assert!(matches!(
        r,
        Some(TypeError::TypeMismatch {
            mismatch: Mismatch::Operand { .. }
        })
    ));
}

#[test]
fn sequence_short_circuits_on_first_failure() {
    let mut ctx = TypeContext::new();
    let st = seq(assign("x", var("missing")), assign("y", num(1)));
    let r = typeCheck(st, &mut ctx);
    match r {
        Some(TypeError::UndeclaredVariable { name }) => assert_eq!(name, "missing"),
        _ => panic!("expected the first statement's failure"),
    }
}

#[test]
fn then_branch_failure_takes_priority() {
    let mut ctx = ctx_of(&[("n", ExType::NatType)]);
    let st = if_then_else(
        leq(var("n"), var("n")),
        assign("n", var("p")),
        assign("n", var("q")),
    );
    let r = typeCheck(st, &mut ctx);
    match r {
        Some(TypeError::UndeclaredVariable { name }) => assert_eq!(name, "p"),
        _ => panic!("expected the then branch's failure"),
    }
}

#[test]
fn branches_may_introduce_the_same_binding() {
    let mut ctx = ctx_of(&[("b", ExType::BoolType)]);
    let st = if_then_else(var("b"), assign("x", num(1)), assign("x", num(2)));
    let r = typeCheck(st, &mut ctx);
    assert!(r.is_none());
    let expected = ctx_of(&[("b", ExType::BoolType), ("x", ExType::NatType)]);
    assert!(ctx.same_entries(&expected));
}

#[test]
fn branches_with_conflicting_types_fail() {
    let mut ctx = ctx_of(&[("b", ExType::BoolType)]);
    let st = if_then_else(var("b"), assign("x", num(1)), assign("x", boolean(true)));
    let r = typeCheck(st, &mut ctx);
    assert!(matches!(r, Some(TypeError::BranchContextMismatch)));
}

#[test]
fn fibonacci_program_checks() {
    let body = seq(
        assign("counter", add(var("counter"), num(1))),
        seq(
            assign("fibonacci_number", add(var("curr"), var("prev"))),
            seq(assign("prev", var("curr")), assign("curr", var("fibonacci_number"))),
        ),
    );
    let program = seq(
        assign("fibonacci_index", num(50)),
        seq(
            assign("fibonacci_number", num(1)),
            seq(
                assign("prev", num(0)),
                seq(
                    assign("curr", num(1)),
                    seq(
                        assign("counter", num(2)),
                        while_do(leq(var("counter"), var("fibonacci_index")), body),
                    ),
                ),
            ),
        ),
    );
    let mut ctx = TypeContext::new();
    let r = typeCheck(program, &mut ctx);
    assert!(r.is_none());
    assert_eq!(
        ctx.get(&"fibonacci_number".to_string()),
        Some(ExType::NatType)
    );
    let expected = ctx_of(&[
        ("fibonacci_index", ExType::NatType),
        ("fibonacci_number", ExType::NatType),
        ("prev", ExType::NatType),
        ("curr", ExType::NatType),
        ("counter", ExType::NatType),
    ]);
    assert!(ctx.same_entries(&expected));
}

#[test]
fn skip_changes_nothing() {
    let mut ctx = ctx_of(&[("n", ExType::NatType)]);
    assert!(typeCheck(Statement::Skip, &mut ctx).is_none());
    let expected = ctx_of(&[("n", ExType::NatType)]);
    assert!(ctx.same_entries(&expected));
}
