//! Properties of the evaluator that hold of all inputs.

use vstd::prelude::*;

use crate::live_eval::{eval, eval_args, eval_result_for_any_fuel, eval_returns, last_keyframe, live_eval_result};
use crate::live_node::{skip_from, spec_skip_node, LiveNode};
use crate::live_registry::LiveRegistry;
use crate::live_value::{LiveBinOp, LiveScopeTarget, LiveUnOp, LiveValue};
use crate::ops::{binop_outcome, builtin_arity, f32_operand, unop_outcome, vec_operand, OpOutcome};
use crate::terms::{ArithOp, BoolTerm, F64Term};

verus! {

/// A literal node evaluates to its own value, and the index moves to the next node.
pub proof fn literal_evaluates_to_itself(reg: LiveRegistry, index: int, nodes: Seq<LiveNode>, scope: Seq<LiveNode>)
    requires
        0 <= index < nodes.len(),
        nodes[index].value.is_literal(),
    ensures
        eval_returns(reg, index, nodes, scope),
        live_eval_result(reg, index, nodes, scope) == (Ok::<LiveValue, crate::LiveError>(nodes[index].value), index + 1),
{
    assert(eval(reg, 1, index, nodes, scope) is Some);
    eval_result_for_any_fuel(reg, 1, index, nodes, scope);
}

/// An animation array evaluates to the value of its last keyframe, and the index
/// moves past the array.
pub proof fn array_evaluates_to_its_last_keyframe(
    reg: LiveRegistry,
    index: int,
    nodes: Seq<LiveNode>,
    scope: Seq<LiveNode>,
    keyframe: int,
)
    requires
        0 <= index < nodes.len(),
        nodes[index].value is Array,
        last_keyframe(nodes, index) == Some(keyframe),
    ensures
        eval_returns(reg, index, nodes, scope),
        live_eval_result(reg, index, nodes, scope) == (
            Ok::<LiveValue, crate::LiveError>(nodes[keyframe].value),
            spec_skip_node(nodes, index),
        ),
{
    assert(eval(reg, 1, index, nodes, scope) is Some);
    eval_result_for_any_fuel(reg, 1, index, nodes, scope);
}

/// An `Expr` node evaluates to what its first child evaluates to.
pub proof fn expr_evaluates_its_first_child(
    reg: LiveRegistry,
    index: int,
    nodes: Seq<LiveNode>,
    scope: Seq<LiveNode>,
)
    requires
        0 <= index < nodes.len(),
        nodes[index].value is Expr,
        eval_returns(reg, index + 1, nodes, scope),
    ensures
        eval_returns(reg, index, nodes, scope),
        live_eval_result(reg, index, nodes, scope) == live_eval_result(reg, index + 1, nodes, scope),
{
    let f = choose|fuel: nat| #[trigger] eval(reg, fuel, index + 1, nodes, scope) is Some;
    assert(eval(reg, f + 1, index, nodes, scope) == eval(reg, f, index + 1, nodes, scope));
    eval_result_for_any_fuel(reg, f, index + 1, nodes, scope);
    eval_result_for_any_fuel(reg, f + 1, index, nodes, scope);
}

/// A name that the scope binds to a node of the scope's document evaluates to what
/// that node evaluates to, and the index moves past the name.
pub proof fn local_name_evaluates_to_its_target(
    reg: LiveRegistry,
    index: int,
    nodes: Seq<LiveNode>,
    scope: Seq<LiveNode>,
    target: usize,
)
    requires
        0 <= index < nodes.len(),
        nodes[index].value is Id,
        scope.len() > 0,
        scope[0].value is Root,
        scope[0].value->id_resolve@.contains_key(nodes[index].value->Id_0.0),
        scope[0].value->id_resolve@[nodes[index].value->Id_0.0] == LiveScopeTarget::LocalPtr(target),
        eval_returns(reg, target as int, scope, scope),
    ensures
        eval_returns(reg, index, nodes, scope),
        live_eval_result(reg, index, nodes, scope) == (live_eval_result(reg, target as int, scope, scope).0, index + 1),
{
    let f = choose|fuel: nat| #[trigger] eval(reg, fuel, target as int, scope, scope) is Some;
    assert(eval(reg, f + 1, index, nodes, scope) == Some(
        (eval(reg, f, target as int, scope, scope).unwrap().0, index + 1),
    ));
    eval_result_for_any_fuel(reg, f, target as int, scope, scope);
    eval_result_for_any_fuel(reg, f + 1, index, nodes, scope);
}

/// A name that the scope binds to a node of a loaded file evaluates to what that node
/// evaluates to in the file's document, and the index moves past the name.
pub proof fn file_name_evaluates_to_its_target(
    reg: LiveRegistry,
    index: int,
    nodes: Seq<LiveNode>,
    scope: Seq<LiveNode>,
    target: crate::LivePtr,
)
    requires
        0 <= index < nodes.len(),
        nodes[index].value is Id,
        scope.len() > 0,
        scope[0].value is Root,
        scope[0].value->id_resolve@.contains_key(nodes[index].value->Id_0.0),
        scope[0].value->id_resolve@[nodes[index].value->Id_0.0] == LiveScopeTarget::LivePtr(target),
        reg.holds_file(target),
        eval_returns(reg, target.index as int, reg.doc_nodes(target), reg.doc_nodes(target)),
    ensures
        eval_returns(reg, index, nodes, scope),
        live_eval_result(reg, index, nodes, scope) == (
            live_eval_result(reg, target.index as int, reg.doc_nodes(target), reg.doc_nodes(target)).0,
            index + 1,
        ),
{
    let d = reg.doc_nodes(target);
    let f = choose|fuel: nat| #[trigger] eval(reg, fuel, target.index as int, d, d) is Some;
    assert(eval(reg, f + 1, index, nodes, scope) == Some((eval(reg, f, target.index as int, d, d).unwrap().0, index + 1)));
    eval_result_for_any_fuel(reg, f, target.index as int, d, d);
    eval_result_for_any_fuel(reg, f + 1, index, nodes, scope);
}

proof fn lemma_skip_from_forward(nodes: Seq<LiveNode>, i: int, depth: nat)
    requires
        0 <= i,
    ensures
        skip_from(nodes, i, depth) >= i,
    decreases nodes.len() - i,
{
    if i < nodes.len() {
        if nodes[i].value.spec_is_open() {
            lemma_skip_from_forward(nodes, i + 1, depth + 1);
        } else if nodes[i].value.spec_is_close() {
            if depth > 1 {
                lemma_skip_from_forward(nodes, i + 1, (depth - 1) as nat);
            }
        } else if depth > 0 {
            lemma_skip_from_forward(nodes, i + 1, depth);
        }
    }
}

proof fn lemma_eval_forward(reg: LiveRegistry, fuel: nat, index: int, nodes: Seq<LiveNode>, scope: Seq<LiveNode>)
    requires
        eval(reg, fuel, index, nodes, scope) is Some,
    ensures
        eval(reg, fuel, index, nodes, scope).unwrap().1 >= index,
        eval(reg, fuel, index, nodes, scope).unwrap().0 is Ok ==> eval(reg, fuel, index, nodes, scope).unwrap().1 > index,
    decreases fuel, 0nat,
{
    let f = (fuel - 1) as nat;
    let v = nodes[index].value;
    if !v.is_literal() {
        match v {
            LiveValue::Array => {
                lemma_skip_from_forward(nodes, index + 1, 1);
            },
            LiveValue::Expr => {
                lemma_eval_forward(reg, f, index + 1, nodes, scope);
            },
            LiveValue::ExprUnOp(op) => {
                lemma_eval_forward(reg, f, index + 1, nodes, scope);
            },
            LiveValue::ExprBinOp(op) => {
                lemma_eval_forward(reg, f, index + 1, nodes, scope);
                if let Some((Ok(a), i)) = eval(reg, f, index + 1, nodes, scope) {
                    lemma_eval_forward(reg, f, i, nodes, scope);
                }
            },
            LiveValue::ExprCall { ident, args } => {
                if builtin_arity(ident) == Some(args as nat) {
                    lemma_eval_args_forward(reg, f, args as nat, index + 1, nodes, scope);
                }
            },
            _ => {},
        }
    }
}

proof fn lemma_eval_args_forward(
    reg: LiveRegistry,
    fuel: nat,
    n: nat,
    index: int,
    nodes: Seq<LiveNode>,
    scope: Seq<LiveNode>,
)
    requires
        eval_args(reg, fuel, n, index, nodes, scope) is Some,
    ensures
        eval_args(reg, fuel, n, index, nodes, scope).unwrap().1 >= index,
    decreases fuel, n,
{
    if n > 0 {
        lemma_eval_forward(reg, fuel, index, nodes, scope);
        if let Some((Ok(v), i)) = eval(reg, fuel, index, nodes, scope) {
            lemma_eval_args_forward(reg, fuel, (n - 1) as nat, i, nodes, scope);
        }
    }
}

/// Evaluation never moves the index back, and one that succeeds moves it past the
/// node it started at.
pub proof fn evaluation_moves_forward(reg: LiveRegistry, index: int, nodes: Seq<LiveNode>, scope: Seq<LiveNode>)
    requires
        eval_returns(reg, index, nodes, scope),
    ensures
        live_eval_result(reg, index, nodes, scope).1 >= index,
        live_eval_result(reg, index, nodes, scope).0 is Ok ==> live_eval_result(reg, index, nodes, scope).1 > index,
{
    let f = choose|fuel: nat| #[trigger] eval(reg, fuel, index, nodes, scope) is Some;
    lemma_eval_forward(reg, f, index, nodes, scope);
}

/// Whether a value is known outright: an integer or a known boolean.
pub open spec fn is_known(v: LiveValue) -> bool {
    v is Int64 || v matches LiveValue::Bool(BoolTerm::Lit(_))
}

/// Operators applied to known integers and booleans give known results, except `/`,
/// which divides in floating point.
pub proof fn known_operands_give_known_results(op: LiveBinOp, uop: LiveUnOp, a: LiveValue, b: LiveValue)
    requires
        is_known(a),
        is_known(b),
    ensures
        op != LiveBinOp::Div ==> match binop_outcome(op, a, b) {
            OpOutcome::Defined(r) => is_known(r),
            _ => true,
        },
        match unop_outcome(uop, a) {
            OpOutcome::Defined(r) => is_known(r),
            _ => true,
        },
{
}

/// Integer `/` divides in floating point: two integers give the `f64` quotient of
/// the integers converted to `f64`.
pub proof fn integer_division_is_floating(x: i64, y: i64)
    ensures
        binop_outcome(LiveBinOp::Div, LiveValue::Int64(x), LiveValue::Int64(y)) == OpOutcome::Defined(
            LiveValue::Float64(
                F64Term::Arith(ArithOp::Div, Box::new(F64Term::FromI64(x)), Box::new(F64Term::FromI64(y))),
            ),
        ),
{
}

/// `!=` is defined on exactly the operands `==` is defined on; where `==` gives a
/// known boolean, `!=` gives its negation.
pub proof fn ne_negates_eq(a: LiveValue, b: LiveValue)
    ensures
        (binop_outcome(LiveBinOp::Eq, a, b) is Undefined) == (binop_outcome(LiveBinOp::Ne, a, b) is Undefined),
        binop_outcome(LiveBinOp::Eq, a, b) matches OpOutcome::Defined(LiveValue::Bool(BoolTerm::Lit(x)))
            ==> binop_outcome(LiveBinOp::Ne, a, b) == OpOutcome::Defined(LiveValue::Bool(BoolTerm::Lit(!x))),
{
}

/// `==` and `!=` are defined on `(a, b)` exactly where they are on `(b, a)`, and on
/// known operands give the same result both ways.
pub proof fn equality_is_symmetric(a: LiveValue, b: LiveValue)
    ensures
        (binop_outcome(LiveBinOp::Eq, a, b) is Undefined) == (binop_outcome(LiveBinOp::Eq, b, a) is Undefined),
        (binop_outcome(LiveBinOp::Ne, a, b) is Undefined) == (binop_outcome(LiveBinOp::Ne, b, a) is Undefined),
        is_known(a) && is_known(b) ==> binop_outcome(LiveBinOp::Eq, a, b) == binop_outcome(LiveBinOp::Eq, b, a),
        is_known(a) && is_known(b) ==> binop_outcome(LiveBinOp::Ne, a, b) == binop_outcome(LiveBinOp::Ne, b, a),
{
}

/// `a < b` is defined exactly where `b > a` is, and `a <= b` exactly where `b >= a`
/// is; on two integers each gives the same result as its converse.
pub proof fn orderings_have_converses(a: LiveValue, b: LiveValue)
    ensures
        (binop_outcome(LiveBinOp::Lt, a, b) is Undefined) == (binop_outcome(LiveBinOp::Gt, b, a) is Undefined),
        (binop_outcome(LiveBinOp::Le, a, b) is Undefined) == (binop_outcome(LiveBinOp::Ge, b, a) is Undefined),
        a is Int64 && b is Int64 ==> binop_outcome(LiveBinOp::Lt, a, b) == binop_outcome(LiveBinOp::Gt, b, a),
        a is Int64 && b is Int64 ==> binop_outcome(LiveBinOp::Le, a, b) == binop_outcome(LiveBinOp::Ge, b, a),
{
}

/// Arithmetic between a number and a vector does not depend on the order of the
/// operands: the number is applied to each component with the vector on the left,
/// so `s - v` gives what `v - s` gives, and `s / v` what `v / s` gives.
pub proof fn scalar_and_vector_commute(op: LiveBinOp, s: LiveValue, v: LiveValue)
    requires
        op == LiveBinOp::Add || op == LiveBinOp::Sub || op == LiveBinOp::Mul || op == LiveBinOp::Div,
        f32_operand(s) is Some,
        vec_operand(v) is Some,
    ensures
        binop_outcome(op, s, v) == binop_outcome(op, v, s),
        binop_outcome(op, s, v) is Defined,
{
}

/// Negating a known value twice gives it back: `!!b` is `b`, and `--x` is `x` for
/// every integer whose negation is an integer.
pub proof fn negation_is_an_involution(a: LiveValue)
    requires
        is_known(a),
    ensures
        a is Bool ==> match unop_outcome(LiveUnOp::Not, a) {
            OpOutcome::Defined(r) => unop_outcome(LiveUnOp::Not, r) == OpOutcome::Defined(a),
            _ => false,
        },
        a is Int64 && a->Int64_0 != i64::MIN ==> match unop_outcome(LiveUnOp::Neg, a) {
            OpOutcome::Defined(r) => unop_outcome(LiveUnOp::Neg, r) == OpOutcome::Defined(a),
            _ => false,
        },
{
}

} // verus!
