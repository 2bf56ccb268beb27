//! Rendering of AST nodes back to display text, used to name offending
//! subtrees inside diagnostics.  Each executable renderer is proved to
//! produce exactly the character sequence that its spec-level counterpart
//! (`type_text`, `exp_text`, `stmt_text`) describes.

use vstd::prelude::*;

use crate::ast::ExType;
use crate::ast::Expression;
use crate::ast::Statement;

verus! {

/// The decimal digit character for a value below ten.
pub open spec fn digit_char(v: nat) -> char {
    if v == 0 {
        '0'
    } else if v == 1 {
        '1'
    } else if v == 2 {
        '2'
    } else if v == 3 {
        '3'
    } else if v == 4 {
        '4'
    } else if v == 5 {
        '5'
    } else if v == 6 {
        '6'
    } else if v == 7 {
        '7'
    } else if v == 8 {
        '8'
    } else {
        '9'
    }
}

/// The decimal representation of a natural number, most significant digit
/// first and without leading zeros (`0` itself is the single digit `0`).
pub open spec fn dec_digits(v: nat) -> Seq<char>
    decreases v,
{
    if v < 10 {
        seq![digit_char(v)]
    } else {
        dec_digits(v / 10).push(digit_char(v % 10))
    }
}

/// The decimal representation of an integer: a minus sign before the digits
/// of its magnitude when it is negative.
pub open spec fn int_text(n: int) -> Seq<char> {
    if n >= 0 {
        dec_digits(n as nat)
    } else {
        seq!['-'] + dec_digits((-n) as nat)
    }
}

/// The display text of a type.
pub open spec fn type_text(tp: ExType) -> Seq<char> {
    match tp {
        ExType::NatType => "NatType"@,
        ExType::BoolType => "BoolType"@,
        ExType::PointerType => "PointerType"@,
    }
}

/// The display text of an expression.
pub open spec fn exp_text(e: Expression) -> Seq<char>
    decreases e,
{
    match e {
        Expression::StackVar { x } => x@ + " "@,
        Expression::HeapRead { x } => "!"@ + x@ + " "@,
        Expression::NatConstant { n } => int_text(n as int),
        Expression::BoolConstant { b } => if b {
            "true"@
        } else {
            "false"@
        },
        Expression::Add { ex1, ex2 } => "("@ + exp_text(*ex1) + ") + ("@ + exp_text(*ex2) + ")"@,
        Expression::Negation { ex1 } => "not ("@ + exp_text(*ex1) + ")"@,
        Expression::Conjunction { ex1, ex2 } => "("@ + exp_text(*ex1) + ") and ("@ + exp_text(
            *ex2,
        ) + ")"@,
        Expression::Comparison { ex1, ex2 } => "("@ + exp_text(*ex1) + ") <= ("@ + exp_text(*ex2)
            + ")"@,
    }
}

/// The display text of a statement.
pub open spec fn stmt_text(st: Statement) -> Seq<char>
    decreases st,
{
    match st {
        Statement::StackAssignment { x, ex1 } => x@ + " = "@ + exp_text(ex1),
        Statement::HeapUpdate { x, ex1 } => "!"@ + x@ + " = "@ + exp_text(ex1),
        Statement::HeapAlias { x, y } => x@ + " = "@ + y@,
        Statement::HeapNew { x, ex1 } => x@ + " = new("@ + exp_text(ex1) + ")"@,
        Statement::Sequence { st1, st2 } => stmt_text(*st1) + "; "@ + stmt_text(*st2),
        Statement::IfThenElse { condition, then_branch, else_branch } => "if ("@ + exp_text(
            condition,
        ) + ") then { "@ + stmt_text(*then_branch) + " } else { "@ + stmt_text(*else_branch)
            + " }"@,
        Statement::Skip => "skip"@,
        Statement::While { condition, st } => "while ("@ + exp_text(condition) + ") do { "@
            + stmt_text(*st) + " }"@,
    }
}

/// The one-character string for a decimal digit.
fn digit_str(v: u32) -> (r: &'static str)
    requires
        v < 10,
    ensures
        r@ == seq![digit_char(v as nat)],
{
    proof {
        reveal_strlit("0");
        reveal_strlit("1");
        reveal_strlit("2");
        reveal_strlit("3");
        reveal_strlit("4");
        reveal_strlit("5");
        reveal_strlit("6");
        reveal_strlit("7");
        reveal_strlit("8");
        reveal_strlit("9");
    }
    let r = if v == 0 {
        "0"
    } else if v == 1 {
        "1"
    } else if v == 2 {
        "2"
    } else if v == 3 {
        "3"
    } else if v == 4 {
        "4"
    } else if v == 5 {
        "5"
    } else if v == 6 {
        "6"
    } else if v == 7 {
        "7"
    } else if v == 8 {
        "8"
    } else {
        "9"
    };
    proof {
        assert(r@ =~= seq![digit_char(v as nat)]);
    }
    r
}

/// Renders a natural number in decimal.
fn dec_string(v: u32) -> (r: String)
    ensures
        r@ == dec_digits(v as nat),
    decreases v,
{
    if v < 10 {
        digit_str(v).to_owned()
    } else {
        let mut s = dec_string(v / 10);
        s.append(digit_str(v % 10));
        proof {
            assert(s@ =~= dec_digits(v as nat));
        }
        s
    }
}

/// Renders an integer in decimal, with a leading minus sign when negative.
fn int_string(n: i32) -> (r: String)
    ensures
        r@ == int_text(n as int),
{
    if n >= 0 {
        dec_string(n as u32)
    } else {
        let mag: u32 = (-(n as i64)) as u32;
        proof {
            reveal_strlit("-");
        }
        let mut s = String::from_str("-");
        let digits = dec_string(mag);
        s.append(digits.as_str());
        proof {
            assert(s@ =~= int_text(n as int));
        }
        s
    }
}

/// Renders a type name for display.
pub fn printType(tp: ExType) -> (r: String)
    ensures
        r@ == type_text(tp),
{
    match tp {
        ExType::NatType => String::from_str("NatType"),
        ExType::BoolType => String::from_str("BoolType"),
        ExType::PointerType => String::from_str("PointerType"),
    }
}

/// Renders an expression for display, by reference.
pub(crate) fn render_exp(e: &Expression) -> (r: String)
    ensures
        r@ == exp_text(*e),
    decreases *e,
{
    match e {
        Expression::StackVar { x } => {
            let mut s = x.clone();
            s.append(" ");
            s
        },
        Expression::HeapRead { x } => {
            let mut s = String::from_str("!");
            s.append(x.as_str());
            s.append(" ");
            s
        },
        Expression::NatConstant { n } => int_string(*n),
        Expression::BoolConstant { b } => {
            if *b {
                String::from_str("true")
            } else {
                String::from_str("false")
            }
        },
        Expression::Add { ex1, ex2 } => {
            let t1 = render_exp(&**ex1);
            let t2 = render_exp(&**ex2);
            let mut s = String::from_str("(");
            s.append(t1.as_str());
            s.append(") + (");
            s.append(t2.as_str());
            s.append(")");
            s
        },
        Expression::Negation { ex1 } => {
            let t1 = render_exp(&**ex1);
            let mut s = String::from_str("not (");
            s.append(t1.as_str());
            s.append(")");
            s
        },
        Expression::Conjunction { ex1, ex2 } => {
            let t1 = render_exp(&**ex1);
            let t2 = render_exp(&**ex2);
            let mut s = String::from_str("(");
            s.append(t1.as_str());
            s.append(") and (");
            s.append(t2.as_str());
            s.append(")");
            s
        },
        Expression::Comparison { ex1, ex2 } => {
            let t1 = render_exp(&**ex1);
            let t2 = render_exp(&**ex2);
            let mut s = String::from_str("(");
            s.append(t1.as_str());
            s.append(") <= (");
            s.append(t2.as_str());
            s.append(")");
            s
        },
    }
}

/// Renders an expression for display.
pub fn printExpression(exp: Expression) -> (r: String)
    ensures
        r@ == exp_text(exp),
{
    render_exp(&exp)
}

/// Renders a statement for display, by reference.
pub(crate) fn render_stmt(st: &Statement) -> (r: String)
    ensures
        r@ == stmt_text(*st),
    decreases *st,
{
    match st {
        Statement::StackAssignment { x, ex1 } => {
            let t1 = render_exp(ex1);
            let mut s = x.clone();
            s.append(" = ");
            s.append(t1.as_str());
            s
        },
        Statement::HeapUpdate { x, ex1 } => {
            let t1 = render_exp(ex1);
            let mut s = String::from_str("!");
            s.append(x.as_str());
            s.append(" = ");
            s.append(t1.as_str());
            s
        },
        Statement::HeapAlias { x, y } => {
            let mut s = x.clone();
            s.append(" = ");
            s.append(y.as_str());
            s
        },
        Statement::HeapNew { x, ex1 } => {
            let t1 = render_exp(ex1);
            let mut s = x.clone();
            s.append(" = new(");
            s.append(t1.as_str());
            s.append(")");
            s
        },
        Statement::Sequence { st1, st2 } => {
            let t1 = render_stmt(&**st1);
            let t2 = render_stmt(&**st2);
            let mut s = t1;
            s.append("; ");
            s.append(t2.as_str());
            s
        },
        Statement::IfThenElse { condition, then_branch, else_branch } => {
            let cnd = render_exp(condition);
            let thenb = render_stmt(&**then_branch);
            let elseb = render_stmt(&**else_branch);
            let mut s = String::from_str("if (");
            s.append(cnd.as_str());
            s.append(") then { ");
            s.append(thenb.as_str());
            s.append(" } else { ");
            s.append(elseb.as_str());
            s.append(" }");
            s
        },
        Statement::Skip => String::from_str("skip"),
        Statement::While { condition, st } => {
            let cnd = render_exp(condition);
            let t1 = render_stmt(&**st);
            let mut s = String::from_str("while (");
            s.append(cnd.as_str());
            s.append(") do { ");
            s.append(t1.as_str());
            s.append(" }");
            s
        },
    }
}

/// Renders a statement for display.
pub fn printStatement(st: Statement) -> (r: String)
    ensures
        r@ == stmt_text(st),
{
    render_stmt(&st)
}

} // verus!
