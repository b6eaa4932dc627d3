//! What each operator and built-in function gives, stated case by case over all
//! operand values with the operations of the integers and booleans themselves.

use vstd::prelude::*;

use crate::live_id::{LiveId, LIVE_ID_BLEND, LIVE_ID_HSVMOD, LIVE_ID_MIX, LIVE_ID_POW};
use crate::live_value::{LiveBinOp, LiveUnOp, LiveValue};
use crate::ops::{binop_outcome, builtin_arity, builtin_result, unop_outcome, OpOutcome};
use crate::terms::{ArithOp, BoolTerm, Comparison, F32Term, F64Term, VecTerm};

verus! {

/// `||`, `&&`, `==`, `!=` and `!` on known booleans give the known boolean that the
/// boolean operation gives; in particular `true || true` is true.
pub proof fn logic_on_known_booleans(x: bool, y: bool)
    ensures
        binop_outcome(LiveBinOp::Or, LiveValue::Bool(BoolTerm::Lit(x)), LiveValue::Bool(BoolTerm::Lit(y)))
            == OpOutcome::Defined(LiveValue::Bool(BoolTerm::Lit(x || y))),
        binop_outcome(LiveBinOp::And, LiveValue::Bool(BoolTerm::Lit(x)), LiveValue::Bool(BoolTerm::Lit(y)))
            == OpOutcome::Defined(LiveValue::Bool(BoolTerm::Lit(x && y))),
        binop_outcome(LiveBinOp::Eq, LiveValue::Bool(BoolTerm::Lit(x)), LiveValue::Bool(BoolTerm::Lit(y)))
            == OpOutcome::Defined(LiveValue::Bool(BoolTerm::Lit(x == y))),
        binop_outcome(LiveBinOp::Ne, LiveValue::Bool(BoolTerm::Lit(x)), LiveValue::Bool(BoolTerm::Lit(y)))
            == OpOutcome::Defined(LiveValue::Bool(BoolTerm::Lit(x != y))),
        unop_outcome(LiveUnOp::Not, LiveValue::Bool(BoolTerm::Lit(x)))
            == OpOutcome::Defined(LiveValue::Bool(BoolTerm::Lit(!x))),
{
}

/// Where a boolean operand is not known, `||`, `&&`, `==`, `!=` build the term of that
/// operation with the operands in their order, and `!` the negation of the operand.
pub proof fn logic_on_boolean_terms(a: BoolTerm, b: BoolTerm)
    requires
        !(a is Lit && b is Lit),
    ensures
        binop_outcome(LiveBinOp::Or, LiveValue::Bool(a), LiveValue::Bool(b))
            == OpOutcome::Defined(LiveValue::Bool(BoolTerm::Or(Box::new(a), Box::new(b)))),
        binop_outcome(LiveBinOp::And, LiveValue::Bool(a), LiveValue::Bool(b))
            == OpOutcome::Defined(LiveValue::Bool(BoolTerm::And(Box::new(a), Box::new(b)))),
        binop_outcome(LiveBinOp::Eq, LiveValue::Bool(a), LiveValue::Bool(b))
            == OpOutcome::Defined(LiveValue::Bool(BoolTerm::Eq(Box::new(a), Box::new(b)))),
        binop_outcome(LiveBinOp::Ne, LiveValue::Bool(a), LiveValue::Bool(b))
            == OpOutcome::Defined(LiveValue::Bool(BoolTerm::Ne(Box::new(a), Box::new(b)))),
        !(a is Lit) ==> unop_outcome(LiveUnOp::Not, LiveValue::Bool(a))
            == OpOutcome::Defined(LiveValue::Bool(BoolTerm::Not(Box::new(a)))),
{
}

/// On two integers `x` and `y`, each comparison gives the known boolean that the
/// comparison of the integers gives; in particular `x <= x` and `x >= x` are true.
pub proof fn comparisons_of_integers(x: i64, y: i64)
    ensures
        binop_outcome(LiveBinOp::Eq, LiveValue::Int64(x), LiveValue::Int64(y))
            == OpOutcome::Defined(LiveValue::Bool(BoolTerm::Lit(x == y))),
        binop_outcome(LiveBinOp::Ne, LiveValue::Int64(x), LiveValue::Int64(y))
            == OpOutcome::Defined(LiveValue::Bool(BoolTerm::Lit(x != y))),
        binop_outcome(LiveBinOp::Lt, LiveValue::Int64(x), LiveValue::Int64(y))
            == OpOutcome::Defined(LiveValue::Bool(BoolTerm::Lit(x < y))),
        binop_outcome(LiveBinOp::Le, LiveValue::Int64(x), LiveValue::Int64(y))
            == OpOutcome::Defined(LiveValue::Bool(BoolTerm::Lit(x <= y))),
        binop_outcome(LiveBinOp::Gt, LiveValue::Int64(x), LiveValue::Int64(y))
            == OpOutcome::Defined(LiveValue::Bool(BoolTerm::Lit(x > y))),
        binop_outcome(LiveBinOp::Ge, LiveValue::Int64(x), LiveValue::Int64(y))
            == OpOutcome::Defined(LiveValue::Bool(BoolTerm::Lit(x >= y))),
{
}

/// On two integers, `+`, `-`, `*` give the integer sum, difference and product where
/// it lies in `i64` and panic where it does not; `/` divides the integers converted
/// to `f64`, the left one by the right one. `-x` is the integer negation, except for
/// `i64::MIN`, where it panics.
pub proof fn arithmetic_on_integers(x: i64, y: i64)
    ensures
        i64::MIN <= x + y <= i64::MAX ==> binop_outcome(LiveBinOp::Add, LiveValue::Int64(x), LiveValue::Int64(y))
            == OpOutcome::Defined(LiveValue::Int64((x + y) as i64)),
        !(i64::MIN <= x + y <= i64::MAX) ==> binop_outcome(LiveBinOp::Add, LiveValue::Int64(x), LiveValue::Int64(y))
            is Panics,
        i64::MIN <= x - y <= i64::MAX ==> binop_outcome(LiveBinOp::Sub, LiveValue::Int64(x), LiveValue::Int64(y))
            == OpOutcome::Defined(LiveValue::Int64((x - y) as i64)),
        !(i64::MIN <= x - y <= i64::MAX) ==> binop_outcome(LiveBinOp::Sub, LiveValue::Int64(x), LiveValue::Int64(y))
            is Panics,
        i64::MIN <= x * y <= i64::MAX ==> binop_outcome(LiveBinOp::Mul, LiveValue::Int64(x), LiveValue::Int64(y))
            == OpOutcome::Defined(LiveValue::Int64((x * y) as i64)),
        !(i64::MIN <= x * y <= i64::MAX) ==> binop_outcome(LiveBinOp::Mul, LiveValue::Int64(x), LiveValue::Int64(y))
            is Panics,
        binop_outcome(LiveBinOp::Div, LiveValue::Int64(x), LiveValue::Int64(y)) == OpOutcome::Defined(
            LiveValue::Float64(
                F64Term::Arith(ArithOp::Div, Box::new(F64Term::FromI64(x)), Box::new(F64Term::FromI64(y))),
            ),
        ),
        x != i64::MIN ==> unop_outcome(LiveUnOp::Neg, LiveValue::Int64(x))
            == OpOutcome::Defined(LiveValue::Int64((-x) as i64)),
        x == i64::MIN ==> unop_outcome(LiveUnOp::Neg, LiveValue::Int64(x)) is Panics,
        unop_outcome(LiveUnOp::Not, LiveValue::Int64(x)) is Undefined,
        binop_outcome(LiveBinOp::Or, LiveValue::Int64(x), LiveValue::Int64(y)) is Undefined,
        binop_outcome(LiveBinOp::And, LiveValue::Int64(x), LiveValue::Int64(y)) is Undefined,
{
}

/// What an operator gives on two `f64` quantities `s` (left) and `t` (right): the
/// `f64` operation or comparison of `s` and `t`, in that order; `||` and `&&` are
/// not defined.
pub open spec fn expected_on_floats(op: LiveBinOp, s: F64Term, t: F64Term) -> OpOutcome {
    match op {
        LiveBinOp::Add => OpOutcome::Defined(LiveValue::Float64(F64Term::Arith(ArithOp::Add, Box::new(s), Box::new(t)))),
        LiveBinOp::Sub => OpOutcome::Defined(LiveValue::Float64(F64Term::Arith(ArithOp::Sub, Box::new(s), Box::new(t)))),
        LiveBinOp::Mul => OpOutcome::Defined(LiveValue::Float64(F64Term::Arith(ArithOp::Mul, Box::new(s), Box::new(t)))),
        LiveBinOp::Div => OpOutcome::Defined(LiveValue::Float64(F64Term::Arith(ArithOp::Div, Box::new(s), Box::new(t)))),
        LiveBinOp::Eq => OpOutcome::Defined(LiveValue::Bool(BoolTerm::Compare(Comparison::Eq, s, t))),
        LiveBinOp::Ne => OpOutcome::Defined(LiveValue::Bool(BoolTerm::Compare(Comparison::Ne, s, t))),
        LiveBinOp::Lt => OpOutcome::Defined(LiveValue::Bool(BoolTerm::Compare(Comparison::Lt, s, t))),
        LiveBinOp::Le => OpOutcome::Defined(LiveValue::Bool(BoolTerm::Compare(Comparison::Le, s, t))),
        LiveBinOp::Gt => OpOutcome::Defined(LiveValue::Bool(BoolTerm::Compare(Comparison::Gt, s, t))),
        LiveBinOp::Ge => OpOutcome::Defined(LiveValue::Bool(BoolTerm::Compare(Comparison::Ge, s, t))),
        LiveBinOp::Or | LiveBinOp::And => OpOutcome::Undefined,
    }
}

/// Two numbers that are not both integers are combined in `f64`, an integer
/// converted with `as f64`, the left operand on the left: `a op b` is `(a as f64) op (b as f64)`.
pub proof fn numbers_combine_in_f64(op: LiveBinOp, i: i64, s: F64Term, t: F64Term)
    ensures
        binop_outcome(op, LiveValue::Float64(s), LiveValue::Float64(t)) == expected_on_floats(op, s, t),
        binop_outcome(op, LiveValue::Int64(i), LiveValue::Float64(t)) == expected_on_floats(op, F64Term::FromI64(i), t),
        binop_outcome(op, LiveValue::Float64(s), LiveValue::Int64(i)) == expected_on_floats(op, s, F64Term::FromI64(i)),
{
}

/// `-` on a 64-bit float negates it; `!` is not defined on it.
pub proof fn negation_of_floats(t: F64Term)
    ensures
        unop_outcome(LiveUnOp::Neg, LiveValue::Float64(t))
            == OpOutcome::Defined(LiveValue::Float64(F64Term::Neg(Box::new(t)))),
        unop_outcome(LiveUnOp::Not, LiveValue::Float64(t)) is Undefined,
{
}

/// What an operator gives on two vectors `u` (left) and `v` (right) of the same size,
/// as a term: arithmetic component by component with `u` on the left, `==` as
/// equality of every component, `!=` as its negation; orderings, `||`, `&&` are not defined.
pub open spec fn expected_on_vectors(op: LiveBinOp, u: VecTerm, v: VecTerm) -> Option<Result<VecTerm, BoolTerm>> {
    match op {
        LiveBinOp::Add => Some(Ok(VecTerm::Arith(ArithOp::Add, Box::new(u), Box::new(v)))),
        LiveBinOp::Sub => Some(Ok(VecTerm::Arith(ArithOp::Sub, Box::new(u), Box::new(v)))),
        LiveBinOp::Mul => Some(Ok(VecTerm::Arith(ArithOp::Mul, Box::new(u), Box::new(v)))),
        LiveBinOp::Div => Some(Ok(VecTerm::Arith(ArithOp::Div, Box::new(u), Box::new(v)))),
        LiveBinOp::Eq => Some(Err(BoolTerm::VecEq(u, v))),
        LiveBinOp::Ne => Some(Err(BoolTerm::VecNe(u, v))),
        _ => None,
    }
}

/// Operators on two vectors of the same size give the terms of [`expected_on_vectors`],
/// a vector result of that size; on vectors of different sizes none is defined.
pub proof fn operators_on_vectors(op: LiveBinOp, u: VecTerm, v: VecTerm)
    ensures
        binop_outcome(op, LiveValue::Vec2(u), LiveValue::Vec2(v)) == match expected_on_vectors(op, u, v) {
            Some(Ok(w)) => OpOutcome::Defined(LiveValue::Vec2(w)),
            Some(Err(b)) => OpOutcome::Defined(LiveValue::Bool(b)),
            None => OpOutcome::Undefined,
        },
        binop_outcome(op, LiveValue::Vec3(u), LiveValue::Vec3(v)) == match expected_on_vectors(op, u, v) {
            Some(Ok(w)) => OpOutcome::Defined(LiveValue::Vec3(w)),
            Some(Err(b)) => OpOutcome::Defined(LiveValue::Bool(b)),
            None => OpOutcome::Undefined,
        },
        binop_outcome(op, LiveValue::Vec4(u), LiveValue::Vec4(v)) == match expected_on_vectors(op, u, v) {
            Some(Ok(w)) => OpOutcome::Defined(LiveValue::Vec4(w)),
            Some(Err(b)) => OpOutcome::Defined(LiveValue::Bool(b)),
            None => OpOutcome::Undefined,
        },
        binop_outcome(op, LiveValue::Vec2(u), LiveValue::Vec3(v)) is Undefined,
        binop_outcome(op, LiveValue::Vec2(u), LiveValue::Vec4(v)) is Undefined,
        binop_outcome(op, LiveValue::Vec3(u), LiveValue::Vec4(v)) is Undefined,
        binop_outcome(op, LiveValue::Vec4(u), LiveValue::Vec2(v)) is Undefined,
{
}

/// The arithmetic operator of `+`, `-`, `*`, `/`.
pub open spec fn arithmetic(op: LiveBinOp) -> Option<ArithOp> {
    match op {
        LiveBinOp::Add => Some(ArithOp::Add),
        LiveBinOp::Sub => Some(ArithOp::Sub),
        LiveBinOp::Mul => Some(ArithOp::Mul),
        LiveBinOp::Div => Some(ArithOp::Div),
        _ => None,
    }
}

/// A vector and a number, in either order, combine by applying the number, converted
/// with `as f32`, to each component of the vector, with the vector on the left; the
/// result is a vector of the same size. No comparison and no logic is defined on them.
pub proof fn vectors_with_numbers(op: LiveBinOp, v: VecTerm, i: i64, t: F64Term)
    ensures
        binop_outcome(op, LiveValue::Vec2(v), LiveValue::Int64(i)) == match arithmetic(op) {
            Some(a) => OpOutcome::Defined(LiveValue::Vec2(VecTerm::Scalar(a, Box::new(v), F32Term::FromI64(i)))),
            None => OpOutcome::Undefined,
        },
        binop_outcome(op, LiveValue::Int64(i), LiveValue::Vec2(v)) == binop_outcome(op, LiveValue::Vec2(v), LiveValue::Int64(i)),
        binop_outcome(op, LiveValue::Vec3(v), LiveValue::Float64(t)) == match arithmetic(op) {
            Some(a) => OpOutcome::Defined(LiveValue::Vec3(VecTerm::Scalar(a, Box::new(v), F32Term::FromF64(t)))),
            None => OpOutcome::Undefined,
        },
        binop_outcome(op, LiveValue::Float64(t), LiveValue::Vec3(v)) == binop_outcome(op, LiveValue::Vec3(v), LiveValue::Float64(t)),
        binop_outcome(op, LiveValue::Vec4(v), LiveValue::Int64(i)) == match arithmetic(op) {
            Some(a) => OpOutcome::Defined(LiveValue::Vec4(VecTerm::Scalar(a, Box::new(v), F32Term::FromI64(i)))),
            None => OpOutcome::Undefined,
        },
        binop_outcome(op, LiveValue::Vec4(v), LiveValue::Float64(t)) == match arithmetic(op) {
            Some(a) => OpOutcome::Defined(LiveValue::Vec4(VecTerm::Scalar(a, Box::new(v), F32Term::FromF64(t)))),
            None => OpOutcome::Undefined,
        },
        binop_outcome(op, LiveValue::Int64(i), LiveValue::Vec4(v)) == binop_outcome(op, LiveValue::Vec4(v), LiveValue::Int64(i)),
        binop_outcome(op, LiveValue::Float64(t), LiveValue::Vec4(v)) == binop_outcome(op, LiveValue::Vec4(v), LiveValue::Float64(t)),
        binop_outcome(op, LiveValue::Vec2(v), LiveValue::Float64(t)) == match arithmetic(op) {
            Some(a) => OpOutcome::Defined(LiveValue::Vec2(VecTerm::Scalar(a, Box::new(v), F32Term::FromF64(t)))),
            None => OpOutcome::Undefined,
        },
        binop_outcome(op, LiveValue::Vec3(v), LiveValue::Int64(i)) == match arithmetic(op) {
            Some(a) => OpOutcome::Defined(LiveValue::Vec3(VecTerm::Scalar(a, Box::new(v), F32Term::FromI64(i)))),
            None => OpOutcome::Undefined,
        },
{
}

/// Booleans mix with no number, no vector and no color; strings and colors take no operator.
pub proof fn booleans_do_not_mix(op: LiveBinOp, b: BoolTerm, i: i64, t: F64Term, v: VecTerm, c: u32)
    ensures
        binop_outcome(op, LiveValue::Bool(b), LiveValue::Int64(i)) is Undefined,
        binop_outcome(op, LiveValue::Int64(i), LiveValue::Bool(b)) is Undefined,
        binop_outcome(op, LiveValue::Bool(b), LiveValue::Float64(t)) is Undefined,
        binop_outcome(op, LiveValue::Bool(b), LiveValue::Vec4(v)) is Undefined,
        binop_outcome(op, LiveValue::Color(c), LiveValue::Color(c)) is Undefined,
        binop_outcome(op, LiveValue::Color(c), LiveValue::Int64(i)) is Undefined,
        unop_outcome(LiveUnOp::Neg, LiveValue::Bool(b)) is Undefined,
        unop_outcome(LiveUnOp::Neg, LiveValue::Vec4(v)) is Undefined,
{
}

/// The built-in functions and how many arguments each takes: `pow` two, `blend` two,
/// `mix` three, `hsvmod` four; no other name is one.
pub proof fn builtin_functions_and_their_arities(ident: LiveId)
    ensures
        builtin_arity(LiveId(LIVE_ID_POW)) == Some(2nat),
        builtin_arity(LiveId(LIVE_ID_BLEND)) == Some(2nat),
        builtin_arity(LiveId(LIVE_ID_MIX)) == Some(3nat),
        builtin_arity(LiveId(LIVE_ID_HSVMOD)) == Some(4nat),
        ident.0 != LIVE_ID_POW && ident.0 != LIVE_ID_BLEND && ident.0 != LIVE_ID_MIX && ident.0 != LIVE_ID_HSVMOD
            ==> builtin_arity(ident) is None,
{
}

/// `pow(x, y)` of two 64-bit floats raises the first to the second: `x.powf(y)`.
/// No other pair of argument kinds is taken.
pub proof fn pow_raises_first_to_second(x: F64Term, y: F64Term, i: i64)
    ensures
        builtin_result(LiveId(LIVE_ID_POW), seq![LiveValue::Float64(x), LiveValue::Float64(y)])
            == Some(LiveValue::Float64(F64Term::Pow(Box::new(x), Box::new(y)))),
        builtin_result(LiveId(LIVE_ID_POW), seq![LiveValue::Int64(i), LiveValue::Float64(y)]) is None,
        builtin_result(LiveId(LIVE_ID_POW), seq![LiveValue::Float64(x), LiveValue::Int64(i)]) is None,
{
}

/// `blend(a, b)` of two four-component vectors (a color counts as one) blends `a`
/// toward `b` by `b`'s fourth component, keeping the arguments in order.
pub proof fn blend_of_vectors_and_colors(u: VecTerm, v: VecTerm, c: u32, t: F64Term)
    ensures
        builtin_result(LiveId(LIVE_ID_BLEND), seq![LiveValue::Vec4(u), LiveValue::Vec4(v)])
            == Some(LiveValue::Vec4(VecTerm::Blend(Box::new(u), Box::new(v)))),
        builtin_result(LiveId(LIVE_ID_BLEND), seq![LiveValue::Color(c), LiveValue::Vec4(v)])
            == Some(LiveValue::Vec4(VecTerm::Blend(Box::new(VecTerm::FromColor(c)), Box::new(v)))),
        builtin_result(LiveId(LIVE_ID_BLEND), seq![LiveValue::Vec4(u), LiveValue::Color(c)])
            == Some(LiveValue::Vec4(VecTerm::Blend(Box::new(u), Box::new(VecTerm::FromColor(c))))),
        builtin_result(LiveId(LIVE_ID_BLEND), seq![LiveValue::Vec2(u), LiveValue::Vec4(v)]) is None,
        builtin_result(LiveId(LIVE_ID_BLEND), seq![LiveValue::Vec4(u), LiveValue::Float64(t)]) is None,
{
}

/// `mix(a, b, t)` moves `a` toward `b` by `t`: by a 64-bit float converted with
/// `as f32` in every component, or by a four-component vector (or color) component
/// by component; the arguments keep their order.
pub proof fn mix_of_vectors(u: VecTerm, v: VecTerm, w: VecTerm, t: F64Term, c: u32, i: i64)
    ensures
        builtin_result(LiveId(LIVE_ID_MIX), seq![LiveValue::Vec4(u), LiveValue::Vec4(v), LiveValue::Float64(t)])
            == Some(LiveValue::Vec4(VecTerm::Mix(Box::new(u), Box::new(v), F32Term::FromF64(t)))),
        builtin_result(LiveId(LIVE_ID_MIX), seq![LiveValue::Vec4(u), LiveValue::Vec4(v), LiveValue::Vec4(w)])
            == Some(LiveValue::Vec4(VecTerm::MixVec(Box::new(u), Box::new(v), Box::new(w)))),
        builtin_result(LiveId(LIVE_ID_MIX), seq![LiveValue::Color(c), LiveValue::Vec4(v), LiveValue::Color(c)])
            == Some(LiveValue::Vec4(
                VecTerm::MixVec(Box::new(VecTerm::FromColor(c)), Box::new(v), Box::new(VecTerm::FromColor(c))),
            )),
        builtin_result(LiveId(LIVE_ID_MIX), seq![LiveValue::Vec4(u), LiveValue::Vec4(v), LiveValue::Int64(i)]) is None,
        builtin_result(LiveId(LIVE_ID_MIX), seq![LiveValue::Float64(t), LiveValue::Vec4(v), LiveValue::Float64(t)]) is None,
{
}

/// `hsvmod(c, h, s, v)` of a four-component vector (or color) and three 64-bit
/// floats moves the hue by `h`, the saturation by `s` and the value by `v`, in that order.
pub proof fn hsvmod_of_a_color(u: VecTerm, c: u32, h: F64Term, s: F64Term, v: F64Term, i: i64)
    ensures
        builtin_result(
            LiveId(LIVE_ID_HSVMOD),
            seq![LiveValue::Vec4(u), LiveValue::Float64(h), LiveValue::Float64(s), LiveValue::Float64(v)],
        ) == Some(LiveValue::Vec4(VecTerm::HsvMod(Box::new(u), h, s, v))),
        builtin_result(
            LiveId(LIVE_ID_HSVMOD),
            seq![LiveValue::Color(c), LiveValue::Float64(h), LiveValue::Float64(s), LiveValue::Float64(v)],
        ) == Some(LiveValue::Vec4(VecTerm::HsvMod(Box::new(VecTerm::FromColor(c)), h, s, v))),
        builtin_result(
            LiveId(LIVE_ID_HSVMOD),
            seq![LiveValue::Color(c), LiveValue::Int64(i), LiveValue::Float64(s), LiveValue::Float64(v)],
        ) is None,
{
}

} // verus!
