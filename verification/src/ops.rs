//! What the operators and built-in functions of an expression compute.
//!
//! Each operator is defined on some pairs of value kinds and undefined on the rest;
//! which pairs is decided by the kinds alone. Integer arithmetic is carried out in
//! `i64`; where it would leave the range of `i64` the evaluation panics, as the
//! operators `+`, `-`, `*` and negation of `i64` do.

use vstd::prelude::*;

use crate::live_id::{LiveId, LIVE_ID_BLEND, LIVE_ID_HSVMOD, LIVE_ID_MIX, LIVE_ID_POW};
use crate::live_value::{LiveBinOp, LiveUnOp, LiveValue};
use crate::terms::{
    and_term, bool_and, bool_eq, bool_not, bool_or, eq_term, not_term, or_term, ArithOp, BoolTerm,
    Comparison, F32Term, F64Term, VecTerm,
};

verus! {

/// The outcome of applying an operator to operand values.
pub enum OpOutcome {
    /// The operator is defined on these operands and gives this value.
    Defined(LiveValue),
    /// The operator is not defined on these operands; evaluation reports an error.
    Undefined,
    /// The integer result leaves the range of `i64`; evaluation panics.
    Panics,
}

/// The value as an `f64` operand: an integer converted, or a 64-bit float.
pub open spec fn f64_operand(v: LiveValue) -> Option<F64Term> {
    match v {
        LiveValue::Int64(x) => Some(F64Term::FromI64(x)),
        LiveValue::Float64(t) => Some(t),
        _ => None,
    }
}

/// The value as a scalar that is combined with the components of a vector: an
/// integer or a 64-bit float, converted to `f32`.
pub open spec fn f32_operand(v: LiveValue) -> Option<F32Term> {
    match v {
        LiveValue::Int64(x) => Some(F32Term::FromI64(x)),
        LiveValue::Float64(t) => Some(F32Term::FromF64(t)),
        _ => None,
    }
}

/// The value as a vector operand: its number of components and its term.
pub open spec fn vec_operand(v: LiveValue) -> Option<(nat, VecTerm)> {
    match v {
        LiveValue::Vec2(t) => Some((2nat, t)),
        LiveValue::Vec3(t) => Some((3nat, t)),
        LiveValue::Vec4(t) => Some((4nat, t)),
        _ => None,
    }
}

/// The vector value with `dim` components and term `t`.
pub open spec fn vec_value(dim: nat, t: VecTerm) -> LiveValue {
    if dim == 2 {
        LiveValue::Vec2(t)
    } else if dim == 3 {
        LiveValue::Vec3(t)
    } else {
        LiveValue::Vec4(t)
    }
}

/// The value as a four-component vector: a `Vec4`, or a color.
pub open spec fn vec4_operand(v: LiveValue) -> Option<VecTerm> {
    match v {
        LiveValue::Vec4(t) => Some(t),
        LiveValue::Color(c) => Some(VecTerm::FromColor(c)),
        _ => None,
    }
}

/// The arithmetic operator that a binary operator stands for, if it is one.
pub open spec fn arith_of(op: LiveBinOp) -> Option<ArithOp> {
    match op {
        LiveBinOp::Add => Some(ArithOp::Add),
        LiveBinOp::Sub => Some(ArithOp::Sub),
        LiveBinOp::Mul => Some(ArithOp::Mul),
        LiveBinOp::Div => Some(ArithOp::Div),
        _ => None,
    }
}

/// The comparison that a binary operator stands for, if it is one.
pub open spec fn comparison_of(op: LiveBinOp) -> Option<Comparison> {
    match op {
        LiveBinOp::Eq => Some(Comparison::Eq),
        LiveBinOp::Ne => Some(Comparison::Ne),
        LiveBinOp::Lt => Some(Comparison::Lt),
        LiveBinOp::Le => Some(Comparison::Le),
        LiveBinOp::Gt => Some(Comparison::Gt),
        LiveBinOp::Ge => Some(Comparison::Ge),
        _ => None,
    }
}

/// The comparison on integers.
pub open spec fn int_compare(c: Comparison, x: int, y: int) -> bool {
    match c {
        Comparison::Eq => x == y,
        Comparison::Ne => x != y,
        Comparison::Lt => x < y,
        Comparison::Le => x <= y,
        Comparison::Gt => x > y,
        Comparison::Ge => x >= y,
    }
}

/// Addition, subtraction or multiplication on integers.
pub open spec fn int_arith(op: ArithOp, x: int, y: int) -> int {
    match op {
        ArithOp::Add => x + y,
        ArithOp::Sub => x - y,
        _ => x * y,
    }
}

/// `||` and `&&` on two booleans.
pub open spec fn logic_outcome(is_or: bool, a: LiveValue, b: LiveValue) -> OpOutcome {
    match (a, b) {
        (LiveValue::Bool(x), LiveValue::Bool(y)) => OpOutcome::Defined(
            LiveValue::Bool(if is_or { bool_or(x, y) } else { bool_and(x, y) }),
        ),
        _ => OpOutcome::Undefined,
    }
}

/// `==` and `!=` (`ne` true): on two booleans, on two numbers (compared in `f64`
/// unless both are integers), and on two vectors with as many components.
pub open spec fn equality_outcome(ne: bool, a: LiveValue, b: LiveValue) -> OpOutcome {
    match (a, b) {
        (LiveValue::Bool(x), LiveValue::Bool(y)) => OpOutcome::Defined(LiveValue::Bool(bool_eq(ne, x, y))),
        (LiveValue::Int64(x), LiveValue::Int64(y)) => OpOutcome::Defined(
            LiveValue::Bool(BoolTerm::Lit(if ne { x != y } else { x == y })),
        ),
        _ => if f64_operand(a) is Some && f64_operand(b) is Some {
            OpOutcome::Defined(
                LiveValue::Bool(
                    BoolTerm::Compare(
                        if ne { Comparison::Ne } else { Comparison::Eq },
                        f64_operand(a).unwrap(),
                        f64_operand(b).unwrap(),
                    ),
                ),
            )
        } else if vec_operand(a) is Some && vec_operand(b) is Some && vec_operand(a).unwrap().0
            == vec_operand(b).unwrap().0 {
            let u = vec_operand(a).unwrap().1;
            let v = vec_operand(b).unwrap().1;
            OpOutcome::Defined(LiveValue::Bool(if ne { BoolTerm::VecNe(u, v) } else { BoolTerm::VecEq(u, v) }))
        } else {
            OpOutcome::Undefined
        },
    }
}

/// `<`, `<=`, `>`, `>=` on two numbers (compared in `f64` unless both are integers).
pub open spec fn ordering_outcome(c: Comparison, a: LiveValue, b: LiveValue) -> OpOutcome {
    match (a, b) {
        (LiveValue::Int64(x), LiveValue::Int64(y)) => OpOutcome::Defined(
            LiveValue::Bool(BoolTerm::Lit(int_compare(c, x as int, y as int))),
        ),
        _ => if f64_operand(a) is Some && f64_operand(b) is Some {
            OpOutcome::Defined(
                LiveValue::Bool(BoolTerm::Compare(c, f64_operand(a).unwrap(), f64_operand(b).unwrap())),
            )
        } else {
            OpOutcome::Undefined
        },
    }
}

/// `+`, `-`, `*`, `/`: on two integers in `i64`, except that `/` divides in `f64`; on
/// two vectors with as many components, component by component; on a vector and a
/// number in either order, the number converted to `f32` and applied to each
/// component with the vector on the left; on other pairs of numbers in `f64`.
pub open spec fn arith_outcome(op: ArithOp, a: LiveValue, b: LiveValue) -> OpOutcome {
    match (a, b) {
        (LiveValue::Int64(x), LiveValue::Int64(y)) => if op == ArithOp::Div {
            OpOutcome::Defined(
                LiveValue::Float64(
                    F64Term::Arith(op, Box::new(F64Term::FromI64(x)), Box::new(F64Term::FromI64(y))),
                ),
            )
        } else {
            let r = int_arith(op, x as int, y as int);
            if i64::MIN <= r <= i64::MAX {
                OpOutcome::Defined(LiveValue::Int64(r as i64))
            } else {
                OpOutcome::Panics
            }
        },
        _ => if vec_operand(a) is Some && vec_operand(b) is Some {
            let (d, u) = vec_operand(a).unwrap();
            let (e, v) = vec_operand(b).unwrap();
            if d == e {
                OpOutcome::Defined(vec_value(d, VecTerm::Arith(op, Box::new(u), Box::new(v))))
            } else {
                OpOutcome::Undefined
            }
        } else if vec_operand(a) is Some && f32_operand(b) is Some {
            let (d, u) = vec_operand(a).unwrap();
            OpOutcome::Defined(vec_value(d, VecTerm::Scalar(op, Box::new(u), f32_operand(b).unwrap())))
        } else if f32_operand(a) is Some && vec_operand(b) is Some {
            let (d, v) = vec_operand(b).unwrap();
            OpOutcome::Defined(vec_value(d, VecTerm::Scalar(op, Box::new(v), f32_operand(a).unwrap())))
        } else if f64_operand(a) is Some && f64_operand(b) is Some {
            OpOutcome::Defined(
                LiveValue::Float64(
                    F64Term::Arith(op, Box::new(f64_operand(a).unwrap()), Box::new(f64_operand(b).unwrap())),
                ),
            )
        } else {
            OpOutcome::Undefined
        },
    }
}

/// What a binary operator gives on two operand values.
pub open spec fn binop_outcome(op: LiveBinOp, a: LiveValue, b: LiveValue) -> OpOutcome {
    match op {
        LiveBinOp::Or => logic_outcome(true, a, b),
        LiveBinOp::And => logic_outcome(false, a, b),
        LiveBinOp::Eq => equality_outcome(false, a, b),
        LiveBinOp::Ne => equality_outcome(true, a, b),
        LiveBinOp::Add | LiveBinOp::Sub | LiveBinOp::Mul | LiveBinOp::Div => arith_outcome(
            arith_of(op).unwrap(),
            a,
            b,
        ),
        _ => ordering_outcome(comparison_of(op).unwrap(), a, b),
    }
}

/// What a unary operator gives on an operand value: `!` on a boolean, `-` on a
/// 64-bit float or an integer.
pub open spec fn unop_outcome(op: LiveUnOp, a: LiveValue) -> OpOutcome {
    match (op, a) {
        (LiveUnOp::Not, LiveValue::Bool(x)) => OpOutcome::Defined(LiveValue::Bool(bool_not(x))),
        (LiveUnOp::Neg, LiveValue::Float64(t)) => OpOutcome::Defined(LiveValue::Float64(F64Term::Neg(Box::new(t)))),
        (LiveUnOp::Neg, LiveValue::Int64(x)) => if x == i64::MIN {
            OpOutcome::Panics
        } else {
            OpOutcome::Defined(LiveValue::Int64((-x) as i64))
        },
        _ => OpOutcome::Undefined,
    }
}

/// The number of arguments of the built-in function with this name, if there is one:
/// `pow` takes two, `blend` two, `mix` three and `hsvmod` four.
pub open spec fn builtin_arity(ident: LiveId) -> Option<nat> {
    if ident.0 == LIVE_ID_POW {
        Some(2nat)
    } else if ident.0 == LIVE_ID_BLEND {
        Some(2nat)
    } else if ident.0 == LIVE_ID_MIX {
        Some(3nat)
    } else if ident.0 == LIVE_ID_HSVMOD {
        Some(4nat)
    } else {
        None
    }
}

/// What a built-in function gives on its argument values, where they are of the
/// kinds it takes: `pow(f64, f64)`, `blend(vec4, vec4)`, `mix(vec4, vec4, f64)`,
/// `mix(vec4, vec4, vec4)` and `hsvmod(vec4, f64, f64, f64)`, where a color counts as a `vec4`.
pub open spec fn builtin_result(ident: LiveId, args: Seq<LiveValue>) -> Option<LiveValue> {
    if ident.0 == LIVE_ID_POW {
        match (args[0], args[1]) {
            (LiveValue::Float64(x), LiveValue::Float64(y)) => Some(
                LiveValue::Float64(F64Term::Pow(Box::new(x), Box::new(y))),
            ),
            _ => None,
        }
    } else if ident.0 == LIVE_ID_BLEND {
        match (vec4_operand(args[0]), vec4_operand(args[1])) {
            (Some(u), Some(v)) => Some(LiveValue::Vec4(VecTerm::Blend(Box::new(u), Box::new(v)))),
            _ => None,
        }
    } else if ident.0 == LIVE_ID_MIX {
        match (vec4_operand(args[0]), vec4_operand(args[1])) {
            (Some(u), Some(v)) => match args[2] {
                LiveValue::Float64(t) => Some(
                    LiveValue::Vec4(VecTerm::Mix(Box::new(u), Box::new(v), F32Term::FromF64(t))),
                ),
                _ => match vec4_operand(args[2]) {
                    Some(w) => Some(LiveValue::Vec4(VecTerm::MixVec(Box::new(u), Box::new(v), Box::new(w)))),
                    None => None,
                },
            },
            _ => None,
        }
    } else {
        match (vec4_operand(args[0]), args[1], args[2], args[3]) {
            (Some(u), LiveValue::Float64(h), LiveValue::Float64(s), LiveValue::Float64(v)) => Some(
                LiveValue::Vec4(VecTerm::HsvMod(Box::new(u), h, s, v)),
            ),
            _ => None,
        }
    }
}

/// The number of components where the value is a vector, else 0.
fn vec_dim(v: &LiveValue) -> (r: u8)
    ensures
        r == (match vec_operand(*v) {
            Some((d, _)) => d,
            None => 0,
        }),
{
    match v {
        LiveValue::Vec2(_) => 2,
        LiveValue::Vec3(_) => 3,
        LiveValue::Vec4(_) => 4,
        _ => 0,
    }
}

/// Whether the value is a number: an integer or a 64-bit float.
fn is_number(v: &LiveValue) -> (r: bool)
    ensures
        r == f64_operand(*v) is Some,
        r == f32_operand(*v) is Some,
{
    match v {
        LiveValue::Int64(_) | LiveValue::Float64(_) => true,
        _ => false,
    }
}

/// Whether the value is a boolean.
fn is_bool(v: &LiveValue) -> (r: bool)
    ensures
        r == v is Bool,
{
    match v {
        LiveValue::Bool(_) => true,
        _ => false,
    }
}

fn into_f64(v: LiveValue) -> (r: F64Term)
    requires
        f64_operand(v) is Some,
    ensures
        r == f64_operand(v).unwrap(),
{
    match v {
        LiveValue::Int64(x) => F64Term::FromI64(x),
        LiveValue::Float64(t) => t,
        _ => {
            proof {
                assert(false);
            }
            F64Term::FromI64(0)
        },
    }
}

fn into_f32(v: LiveValue) -> (r: F32Term)
    requires
        f32_operand(v) is Some,
    ensures
        r == f32_operand(v).unwrap(),
{
    match v {
        LiveValue::Int64(x) => F32Term::FromI64(x),
        LiveValue::Float64(t) => F32Term::FromF64(t),
        _ => {
            proof {
                assert(false);
            }
            F32Term::FromI64(0)
        },
    }
}

fn into_vec(v: LiveValue) -> (r: (u8, VecTerm))
    requires
        vec_operand(v) is Some,
    ensures
        r.0 as nat == vec_operand(v).unwrap().0,
        r.1 == vec_operand(v).unwrap().1,
{
    match v {
        LiveValue::Vec2(t) => (2, t),
        LiveValue::Vec3(t) => (3, t),
        LiveValue::Vec4(t) => (4, t),
        _ => {
            proof {
                assert(false);
            }
            (0, VecTerm::FromColor(0))
        },
    }
}

fn make_vec(dim: u8, t: VecTerm) -> (r: LiveValue)
    ensures
        r == vec_value(dim as nat, t),
{
    if dim == 2 {
        LiveValue::Vec2(t)
    } else if dim == 3 {
        LiveValue::Vec3(t)
    } else {
        LiveValue::Vec4(t)
    }
}

/// The value as a four-component vector: a `Vec4`, or a color.
pub fn into_vec4(v: LiveValue) -> (r: Option<VecTerm>)
    ensures
        r == vec4_operand(v),
{
    match v {
        LiveValue::Vec4(t) => Some(t),
        LiveValue::Color(c) => Some(VecTerm::FromColor(c)),
        _ => None,
    }
}

/// Whether the binary operator is defined on operands of these kinds.
fn binop_defined(op: LiveBinOp, a: &LiveValue, b: &LiveValue) -> (r: bool)
    ensures
        r == !(binop_outcome(op, *a, *b) is Undefined),
{
    let da = vec_dim(a);
    let db = vec_dim(b);
    match op {
        LiveBinOp::Or | LiveBinOp::And => is_bool(a) && is_bool(b),
        LiveBinOp::Eq | LiveBinOp::Ne => (is_bool(a) && is_bool(b)) || (is_number(a) && is_number(b))
            || (da != 0 && da == db),
        LiveBinOp::Add | LiveBinOp::Sub | LiveBinOp::Mul | LiveBinOp::Div => (da != 0 && da == db)
            || (da != 0 && db == 0 && is_number(b)) || (da == 0 && is_number(a) && db != 0)
            || (is_number(a) && is_number(b)),
        _ => is_number(a) && is_number(b),
    }
}

/// `==` (`ne` false) or `!=` (`ne` true) on operands on which it is defined.
fn apply_equality(ne: bool, a: LiveValue, b: LiveValue) -> (r: LiveValue)
    requires
        equality_outcome(ne, a, b) is Defined,
    ensures
        equality_outcome(ne, a, b) == OpOutcome::Defined(r),
{
    match (a, b) {
        (LiveValue::Bool(x), LiveValue::Bool(y)) => LiveValue::Bool(eq_term(ne, x, y)),
        (LiveValue::Int64(x), LiveValue::Int64(y)) => LiveValue::Bool(
            BoolTerm::Lit(if ne { x != y } else { x == y }),
        ),
        (a, b) => if is_number(&a) && is_number(&b) {
            let c = if ne { Comparison::Ne } else { Comparison::Eq };
            LiveValue::Bool(BoolTerm::Compare(c, into_f64(a), into_f64(b)))
        } else {
            let (_, u) = into_vec(a);
            let (_, v) = into_vec(b);
            LiveValue::Bool(if ne { BoolTerm::VecNe(u, v) } else { BoolTerm::VecEq(u, v) })
        },
    }
}

/// `<`, `<=`, `>`, `>=` on operands on which it is defined.
fn apply_ordering(c: Comparison, a: LiveValue, b: LiveValue) -> (r: LiveValue)
    requires
        ordering_outcome(c, a, b) is Defined,
    ensures
        ordering_outcome(c, a, b) == OpOutcome::Defined(r),
{
    match (a, b) {
        (LiveValue::Int64(x), LiveValue::Int64(y)) => {
            let t = match c {
                Comparison::Eq => x == y,
                Comparison::Ne => x != y,
                Comparison::Lt => x < y,
                Comparison::Le => x <= y,
                Comparison::Gt => x > y,
                Comparison::Ge => x >= y,
            };
            LiveValue::Bool(BoolTerm::Lit(t))
        },
        (a, b) => LiveValue::Bool(BoolTerm::Compare(c, into_f64(a), into_f64(b))),
    }
}

/// `+`, `-`, `*`, `/` on operands on which it is defined and does not leave `i64`.
fn apply_arith(op: ArithOp, a: LiveValue, b: LiveValue) -> (r: LiveValue)
    requires
        arith_outcome(op, a, b) is Defined,
    ensures
        arith_outcome(op, a, b) == OpOutcome::Defined(r),
{
    match (a, b) {
        (LiveValue::Int64(x), LiveValue::Int64(y)) => match op {
            ArithOp::Add => LiveValue::Int64(x + y),
            ArithOp::Sub => LiveValue::Int64(x - y),
            ArithOp::Mul => LiveValue::Int64(x * y),
            ArithOp::Div => LiveValue::Float64(
                F64Term::Arith(op, Box::new(F64Term::FromI64(x)), Box::new(F64Term::FromI64(y))),
            ),
        },
        (a, b) => {
            let da = vec_dim(&a);
            let db = vec_dim(&b);
            if da != 0 && db != 0 {
                let (d, u) = into_vec(a);
                let (_, v) = into_vec(b);
                make_vec(d, VecTerm::Arith(op, Box::new(u), Box::new(v)))
            } else if da != 0 {
                let (d, u) = into_vec(a);
                make_vec(d, VecTerm::Scalar(op, Box::new(u), into_f32(b)))
            } else if db != 0 {
                let (d, v) = into_vec(b);
                make_vec(d, VecTerm::Scalar(op, Box::new(v), into_f32(a)))
            } else {
                LiveValue::Float64(F64Term::Arith(op, Box::new(into_f64(a)), Box::new(into_f64(b))))
            }
        },
    }
}

/// Applies a binary operator; where it is not defined on the operands, hands them back.
pub fn apply_binop(op: LiveBinOp, a: LiveValue, b: LiveValue) -> (r: Result<LiveValue, (LiveValue, LiveValue)>)
    requires
        !(binop_outcome(op, a, b) is Panics),
    ensures
        match r {
            Ok(v) => binop_outcome(op, a, b) == OpOutcome::Defined(v),
            Err((x, y)) => binop_outcome(op, a, b) is Undefined && x == a && y == b,
        },
{
    if !binop_defined(op, &a, &b) {
        return Err((a, b));
    }
    let v = match op {
        LiveBinOp::Or | LiveBinOp::And => match (a, b) {
            (LiveValue::Bool(x), LiveValue::Bool(y)) => LiveValue::Bool(
                if op == LiveBinOp::Or { or_term(x, y) } else { and_term(x, y) },
            ),
            (x, _) => {
                proof {
                    assert(false);
                }
                x
            },
        },
        LiveBinOp::Eq => apply_equality(false, a, b),
        LiveBinOp::Ne => apply_equality(true, a, b),
        LiveBinOp::Add => apply_arith(ArithOp::Add, a, b),
        LiveBinOp::Sub => apply_arith(ArithOp::Sub, a, b),
        LiveBinOp::Mul => apply_arith(ArithOp::Mul, a, b),
        LiveBinOp::Div => apply_arith(ArithOp::Div, a, b),
        LiveBinOp::Lt => apply_ordering(Comparison::Lt, a, b),
        LiveBinOp::Le => apply_ordering(Comparison::Le, a, b),
        LiveBinOp::Gt => apply_ordering(Comparison::Gt, a, b),
        LiveBinOp::Ge => apply_ordering(Comparison::Ge, a, b),
    };
    Ok(v)
}

/// Applies a unary operator; where it is not defined on the operand, hands it back.
pub fn apply_unop(op: LiveUnOp, a: LiveValue) -> (r: Result<LiveValue, LiveValue>)
    requires
        !(unop_outcome(op, a) is Panics),
    ensures
        match r {
            Ok(v) => unop_outcome(op, a) == OpOutcome::Defined(v),
            Err(x) => unop_outcome(op, a) is Undefined && x == a,
        },
{
    match (op, a) {
        (LiveUnOp::Not, LiveValue::Bool(x)) => Ok(LiveValue::Bool(not_term(x))),
        (LiveUnOp::Neg, LiveValue::Float64(t)) => Ok(LiveValue::Float64(F64Term::Neg(Box::new(t)))),
        (LiveUnOp::Neg, LiveValue::Int64(x)) => Ok(LiveValue::Int64(-x)),
        (_, a) => Err(a),
    }
}

/// The number of arguments of the built-in function with this name, if there is one.
pub fn builtin_args(ident: LiveId) -> (r: Option<usize>)
    ensures
        match r {
            Some(n) => builtin_arity(ident) == Some(n as nat),
            None => builtin_arity(ident) is None,
        },
{
    if ident.0 == LIVE_ID_POW {
        Some(2)
    } else if ident.0 == LIVE_ID_BLEND {
        Some(2)
    } else if ident.0 == LIVE_ID_MIX {
        Some(3)
    } else if ident.0 == LIVE_ID_HSVMOD {
        Some(4)
    } else {
        None
    }
}

/// Applies a built-in function to as many argument values as it takes.
pub fn apply_builtin(ident: LiveId, args: Vec<LiveValue>) -> (r: Option<LiveValue>)
    requires
        builtin_arity(ident) == Some(args@.len()),
    ensures
        r == builtin_result(ident, args@),
{
    let ghost all = args@;
    let mut args = args;
    if ident.0 == LIVE_ID_POW {
        let b = args.pop().unwrap();
        let a = args.pop().unwrap();
        match (a, b) {
            (LiveValue::Float64(x), LiveValue::Float64(y)) => Some(
                LiveValue::Float64(F64Term::Pow(Box::new(x), Box::new(y))),
            ),
            _ => None,
        }
    } else if ident.0 == LIVE_ID_BLEND {
        let b = args.pop().unwrap();
        let a = args.pop().unwrap();
        match (into_vec4(a), into_vec4(b)) {
            (Some(u), Some(v)) => Some(LiveValue::Vec4(VecTerm::Blend(Box::new(u), Box::new(v)))),
            _ => None,
        }
    } else if ident.0 == LIVE_ID_MIX {
        let c = args.pop().unwrap();
        let b = args.pop().unwrap();
        let a = args.pop().unwrap();
        match (into_vec4(a), into_vec4(b)) {
            (Some(u), Some(v)) => match c {
                LiveValue::Float64(t) => Some(
                    LiveValue::Vec4(VecTerm::Mix(Box::new(u), Box::new(v), F32Term::FromF64(t))),
                ),
                c => match into_vec4(c) {
                    Some(w) => Some(LiveValue::Vec4(VecTerm::MixVec(Box::new(u), Box::new(v), Box::new(w)))),
                    None => None,
                },
            },
            _ => None,
        }
    } else {
        let d = args.pop().unwrap();
        let c = args.pop().unwrap();
        let b = args.pop().unwrap();
        let a = args.pop().unwrap();
        match (into_vec4(a), b, c, d) {
            (Some(u), LiveValue::Float64(h), LiveValue::Float64(s), LiveValue::Float64(v)) => Some(
                LiveValue::Vec4(VecTerm::HsvMod(Box::new(u), h, s, v)),
            ),
            _ => None,
        }
    }
}

} // verus!
