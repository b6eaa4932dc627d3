//! The evaluation of an expression that starts at a node.
//!
//! [`eval`] says what evaluating the node at `index` gives, in at most `fuel` nested
//! evaluations, together with the index that the evaluation leaves behind; `None`
//! where the evaluation would not return: it runs out of nodes or of fuel, or it
//! panics (an index past the end, a missing source token where an error is
//! reported, a pointer into a file that is not loaded, integer overflow).

use vstd::prelude::*;

use crate::live_error::{LiveError, LiveEvalErrorKind, WrongValueContext};
use crate::live_id::{LiveId, LIVE_ID_VALUE};
use crate::live_node::{spec_child_by_name, spec_last_child, spec_skip_node, LiveNode, LivePropType};
use crate::live_registry::LiveRegistry;
use crate::live_value::{LiveScopeTarget, LiveValue};
use crate::live_node::{child_by_name, last_child, skip_node};
use crate::ops::{
    apply_binop, apply_builtin, apply_unop, binop_outcome, builtin_args, builtin_arity, builtin_result,
    unop_outcome, vec4_operand, OpOutcome,
};

verus! {

/// The outcome of an evaluation and the index it leaves behind.
pub type EvalStep = Option<(Result<LiveValue, LiveError>, int)>;

/// Fails with an error of kind `kind` at the node at `at`, leaving the index at `at`.
pub open spec fn fail(nodes: Seq<LiveNode>, at: int, kind: LiveEvalErrorKind) -> EvalStep {
    match LiveError::at(nodes, at, kind) {
        Some(e) => Some((Err(e), at)),
        None => None,
    }
}

/// The node that holds the value of the last keyframe of the array at `index`: its
/// last child, or, where that child is an object, the child of it named `value`.
pub open spec fn last_keyframe(nodes: Seq<LiveNode>, index: int) -> Option<int> {
    match spec_last_child(nodes, index) {
        Some(k) => if nodes[k].value.spec_is_object() {
            spec_child_by_name(nodes, k, LiveId(LIVE_ID_VALUE), LivePropType::Field)
        } else {
            Some(k)
        },
        None => None,
    }
}

/// Evaluating the node at `index` of `nodes`, with names looked up in the scope whose
/// first node is `scope[0]`, in at most `fuel` nested evaluations.
pub open spec fn eval(
    reg: LiveRegistry,
    fuel: nat,
    index: int,
    nodes: Seq<LiveNode>,
    scope: Seq<LiveNode>,
) -> EvalStep
    decreases fuel, 0nat,
{
    if fuel == 0 || index < 0 || index >= nodes.len() {
        None
    } else {
        let f = (fuel - 1) as nat;
        let v = nodes[index].value;
        if v.is_literal() {
            Some((Ok(v), index + 1))
        } else {
            match v {
                LiveValue::Array => match last_keyframe(nodes, index) {
                    Some(k) => Some((Ok(nodes[k].value), spec_skip_node(nodes, index))),
                    None => fail(
                        nodes,
                        index,
                        LiveEvalErrorKind::WrongValueInExpression { ty: WrongValueContext::AnimationArray, value: v },
                    ),
                },
                LiveValue::Expr => eval(reg, f, index + 1, nodes, scope),
                LiveValue::Id(id) => if scope.len() == 0 {
                    None
                } else {
                    match scope[0].value {
                        LiveValue::Root { id_resolve } => if id_resolve@.contains_key(id.0) {
                            match id_resolve@[id.0] {
                                LiveScopeTarget::LivePtr(p) => if reg.holds_file(p) {
                                    match eval(reg, f, p.index as int, reg.doc_nodes(p), reg.doc_nodes(p)) {
                                        Some((r, _)) => Some((r, index + 1)),
                                        None => None,
                                    }
                                } else {
                                    None
                                },
                                LiveScopeTarget::LocalPtr(l) => match eval(reg, f, l as int, scope, scope) {
                                    Some((r, _)) => Some((r, index + 1)),
                                    None => None,
                                },
                            }
                        } else {
                            fail(nodes, index + 1, LiveEvalErrorKind::CantFindTarget { id })
                        },
                        _ => fail(nodes, index + 1, LiveEvalErrorKind::CantFindTarget { id }),
                    }
                },
                LiveValue::ExprUnOp(op) => match eval(reg, f, index + 1, nodes, scope) {
                    Some((Ok(a), i)) => match unop_outcome(op, a) {
                        OpOutcome::Defined(r) => Some((Ok(r), i)),
                        OpOutcome::Undefined => fail(nodes, i, LiveEvalErrorKind::UnOpUndefined { op, a }),
                        OpOutcome::Panics => None,
                    },
                    other => other,
                },
                LiveValue::ExprBinOp(op) => match eval(reg, f, index + 1, nodes, scope) {
                    Some((Ok(a), i)) => match eval(reg, f, i, nodes, scope) {
                        Some((Ok(b), j)) => match binop_outcome(op, a, b) {
                            OpOutcome::Defined(r) => Some((Ok(r), j)),
                            OpOutcome::Undefined => fail(nodes, j, LiveEvalErrorKind::BinOpUndefined { op, a, b }),
                            OpOutcome::Panics => None,
                        },
                        other => other,
                    },
                    other => other,
                },
                LiveValue::ExprCall { ident, args } => if builtin_arity(ident) == Some(args as nat) {
                    match eval_args(reg, f, args as nat, index + 1, nodes, scope) {
                        Some((Ok(vals), i)) => match builtin_result(ident, vals) {
                            Some(r) => Some((Ok(r), i)),
                            None => fail(nodes, i, LiveEvalErrorKind::CallNotImplemented { ident, args }),
                        },
                        Some((Err(e), i)) => Some((Err(e), i)),
                        None => None,
                    }
                } else {
                    fail(nodes, index + 1, LiveEvalErrorKind::CallNotImplemented { ident, args })
                },
                _ => fail(
                    nodes,
                    index,
                    LiveEvalErrorKind::WrongValueInExpression { ty: WrongValueContext::Expression, value: v },
                ),
            }
        }
    }
}

/// Evaluating `n` expressions one after the other, from the node at `index` on.
pub open spec fn eval_args(
    reg: LiveRegistry,
    fuel: nat,
    n: nat,
    index: int,
    nodes: Seq<LiveNode>,
    scope: Seq<LiveNode>,
) -> Option<(Result<Seq<LiveValue>, LiveError>, int)>
    decreases fuel, n,
{
    if n == 0 {
        Some((Ok(Seq::empty()), index))
    } else {
        match eval(reg, fuel, index, nodes, scope) {
            Some((Ok(v), i)) => match eval_args(reg, fuel, (n - 1) as nat, i, nodes, scope) {
                Some((Ok(vs), j)) => Some((Ok(seq![v] + vs), j)),
                Some((Err(e), j)) => Some((Err(e), j)),
                None => None,
            },
            Some((Err(e), i)) => Some((Err(e), i)),
            None => None,
        }
    }
}

/// Whether two outcomes are the same (values compared by [`LiveValue::same`]).
pub open spec fn same_outcome(r: Result<LiveValue, LiveError>, s: Result<LiveValue, LiveError>) -> bool {
    match (r, s) {
        (Ok(x), Ok(y)) => x.same(y),
        (Err(x), Err(y)) => x.same(y),
        _ => false,
    }
}

/// Whether two sequences of values are the same, element by element.
pub open spec fn same_values(xs: Seq<LiveValue>, ys: Seq<LiveValue>) -> bool {
    xs.len() == ys.len() && forall|i: int| 0 <= i < xs.len() ==> (#[trigger] xs[i]).same(ys[i])
}

/// Whether two operator outcomes agree.
pub open spec fn same_op_outcome(o: OpOutcome, p: OpOutcome) -> bool {
    match (o, p) {
        (OpOutcome::Defined(x), OpOutcome::Defined(y)) => x == y,
        (OpOutcome::Undefined, OpOutcome::Undefined) => true,
        (OpOutcome::Panics, OpOutcome::Panics) => true,
        _ => false,
    }
}

/// Operators give the same outcome on the same operands.
proof fn lemma_ops_respect_same(a: LiveValue, a2: LiveValue, b: LiveValue, b2: LiveValue)
    requires
        a.same(a2),
        b.same(b2),
    ensures
        forall|op| same_op_outcome(#[trigger] unop_outcome(op, a), unop_outcome(op, a2)),
        forall|op| same_op_outcome(#[trigger] binop_outcome(op, a, b), binop_outcome(op, a2, b2)),
{
    assert forall|op| same_op_outcome(#[trigger] unop_outcome(op, a), unop_outcome(op, a2)) by {
        if a != a2 {
            assert(unop_outcome(op, a) is Undefined);
            assert(unop_outcome(op, a2) is Undefined);
        }
    }
    assert forall|op| same_op_outcome(#[trigger] binop_outcome(op, a, b), binop_outcome(op, a2, b2)) by {
        if a != a2 || b != b2 {
            assert(binop_outcome(op, a, b) is Undefined);
            assert(binop_outcome(op, a2, b2) is Undefined);
        }
    }
}

/// Built-in functions give the same result on the same arguments.
proof fn lemma_builtin_respects_same(ident: LiveId, xs: Seq<LiveValue>, ys: Seq<LiveValue>)
    requires
        same_values(xs, ys),
        builtin_arity(ident) == Some(xs.len()),
    ensures
        builtin_result(ident, xs) == builtin_result(ident, ys),
{
    assert forall|i: int| 0 <= i < xs.len() implies vec4_operand(#[trigger] xs[i]) == vec4_operand(ys[i]) && (
    xs[i] is Float64 <==> ys[i] is Float64) && (xs[i] is Float64 ==> xs[i] == ys[i]) by {
        assert(xs[i].same(ys[i]));
    }
    assert(vec4_operand(xs[0]) == vec4_operand(ys[0]));
    assert(vec4_operand(xs[1]) == vec4_operand(ys[1]));
    if xs.len() > 2 {
        assert(vec4_operand(xs[2]) == vec4_operand(ys[2]));
    }
    if xs.len() > 3 {
        assert(vec4_operand(xs[3]) == vec4_operand(ys[3]));
    }
}

/// Evaluating `n` expressions gives `n` values.
proof fn lemma_eval_args_len(
    reg: LiveRegistry,
    fuel: nat,
    n: nat,
    index: int,
    nodes: Seq<LiveNode>,
    scope: Seq<LiveNode>,
)
    ensures
        eval_args(reg, fuel, n, index, nodes, scope) matches Some((Ok(vs), _)) ==> vs.len() == n,
    decreases n,
{
    if n > 0 {
        if let Some((Ok(v), i)) = eval(reg, fuel, index, nodes, scope) {
            lemma_eval_args_len(reg, fuel, (n - 1) as nat, i, nodes, scope);
        }
    }
}

/// The node that holds the value of the last keyframe of the array at `index`.
fn last_keyframe_value_from_array(index: usize, nodes: &[LiveNode]) -> (r: Option<usize>)
    requires
        index < nodes@.len(),
    ensures
        r matches Some(k) ==> k < nodes@.len(),
        match r {
            Some(k) => last_keyframe(nodes@, index as int) == Some(k as int),
            None => last_keyframe(nodes@, index as int) is None,
        },
{
    if let Some(index) = last_child(nodes, index) {
        if nodes[index].value.is_object() {
            return child_by_name(nodes, index, LiveId(LIVE_ID_VALUE), LivePropType::Field);
        } else {
            return Some(index);
        }
    }
    None
}

/// Evaluates the node at `*index`, in at most `fuel` nested evaluations.
fn eval_node(
    reg: &LiveRegistry,
    index: &mut usize,
    nodes: &[LiveNode],
    scope: &[LiveNode],
    Ghost(fuel): Ghost<nat>,
) -> (r: Result<LiveValue, LiveError>)
    requires
        eval(*reg, fuel, *old(index) as int, nodes@, scope@) is Some,
    ensures
        same_outcome(r, eval(*reg, fuel, *old(index) as int, nodes@, scope@).unwrap().0),
        *final(index) as int == eval(*reg, fuel, *old(index) as int, nodes@, scope@).unwrap().1,
    decreases fuel, 0nat,
{
    broadcast use vstd::std_specs::hash::group_hash_axioms;

    let ghost f = (fuel - 1) as nat;
    let len = nodes.len();
    let i0 = *index;
    let node = &nodes[i0];
    match &node.value {
        LiveValue::Str(_) | LiveValue::InlineString(_) | LiveValue::Dependency(_) | LiveValue::String(_)
        | LiveValue::Float32(_) | LiveValue::Float64(_) | LiveValue::Uint64(_) | LiveValue::Int64(_)
        | LiveValue::Vec2(_) | LiveValue::Vec3(_) | LiveValue::Vec4(_) | LiveValue::Color(_)
        | LiveValue::Bool(_) => {
            *index = i0 + 1;
            Ok(node.value.duplicate())
        },
        LiveValue::Array => {
            if let Some(keyframe) = last_keyframe_value_from_array(i0, nodes) {
                *index = skip_node(nodes, i0);
                Ok(nodes[keyframe].value.duplicate())
            } else {
                Err(LiveError::eval_error_wrong_value_in_expression(i0, nodes, WrongValueContext::AnimationArray))
            }
        },
        LiveValue::Expr => {
            *index = i0 + 1;
            eval_node(reg, index, nodes, scope, Ghost(f))
        },
        LiveValue::Id(id) => {
            *index = i0 + 1;
            if let LiveValue::Root { id_resolve } = &scope[0].value {
                if let Some(target) = id_resolve.get(&id.0) {
                    match target {
                        LiveScopeTarget::LivePtr(ptr) => {
                            let doc = reg.ptr_to_doc(*ptr);
                            let mut j = ptr.index as usize;
                            return eval_node(reg, &mut j, doc.nodes.as_slice(), doc.nodes.as_slice(), Ghost(f));
                        },
                        LiveScopeTarget::LocalPtr(p) => {
                            let mut j = *p;
                            return eval_node(reg, &mut j, scope, scope, Ghost(f));
                        },
                    }
                }
            }
            Err(LiveError::eval_error_cant_find_target(*index, nodes, *id))
        },
        LiveValue::ExprUnOp(op) => {
            let op = *op;
            *index = i0 + 1;
            let ghost sa = eval(*reg, f, (i0 + 1) as int, nodes@, scope@).unwrap().0;
            let a = eval_node(reg, index, nodes, scope, Ghost(f))?;
            proof {
                lemma_ops_respect_same(a, sa->Ok_0, a, sa->Ok_0);
            }
            match apply_unop(op, a) {
                Ok(v) => Ok(v),
                Err(a) => Err(LiveError::eval_error_unop_undefined_in_expression(*index, nodes, op, a)),
            }
        },
        LiveValue::ExprBinOp(op) => {
            let op = *op;
            *index = i0 + 1;
            let ghost sa = eval(*reg, f, (i0 + 1) as int, nodes@, scope@).unwrap();
            let a = eval_node(reg, index, nodes, scope, Ghost(f))?;
            let ghost sb = eval(*reg, f, *index as int, nodes@, scope@).unwrap();
            let b = eval_node(reg, index, nodes, scope, Ghost(f))?;
            proof {
                lemma_ops_respect_same(a, sa.0->Ok_0, b, sb.0->Ok_0);
            }
            match apply_binop(op, a, b) {
                Ok(v) => Ok(v),
                Err((a, b)) => Err(LiveError::eval_error_binop_undefined_in_expression(*index, nodes, op, a, b)),
            }
        },
        LiveValue::ExprCall { ident, args } => {
            let ident = *ident;
            let args = *args;
            *index = i0 + 1;
            if let Some(n) = builtin_args(ident) {
                if n == args {
                    let ghost sv = eval_args(*reg, f, args as nat, (i0 + 1) as int, nodes@, scope@).unwrap();
                    let vals = eval_args_exec(reg, index, nodes, scope, args, Ghost(f))?;
                    proof {
                        lemma_eval_args_len(*reg, f, args as nat, (i0 + 1) as int, nodes@, scope@);
                        lemma_builtin_respects_same(ident, vals@, sv.0->Ok_0);
                    }
                    return match apply_builtin(ident, vals) {
                        Some(v) => Ok(v),
                        None => Err(LiveError::eval_error_expression_call_not_implemented(*index, nodes, ident, args)),
                    };
                }
            }
            Err(LiveError::eval_error_expression_call_not_implemented(*index, nodes, ident, args))
        },
        _ => Err(LiveError::eval_error_wrong_value_in_expression(i0, nodes, WrongValueContext::Expression)),
    }
}

/// Evaluates `n` expressions one after the other, from the node at `*index` on.
fn eval_args_exec(
    reg: &LiveRegistry,
    index: &mut usize,
    nodes: &[LiveNode],
    scope: &[LiveNode],
    n: usize,
    Ghost(fuel): Ghost<nat>,
) -> (r: Result<Vec<LiveValue>, LiveError>)
    requires
        eval_args(*reg, fuel, n as nat, *old(index) as int, nodes@, scope@) is Some,
    ensures
        ({
            let (s, i) = eval_args(*reg, fuel, n as nat, *old(index) as int, nodes@, scope@).unwrap();
            &&& *final(index) as int == i
            &&& match (r, s) {
                (Ok(xs), Ok(ys)) => same_values(xs@, ys),
                (Err(x), Err(y)) => x.same(y),
                _ => false,
            }
        }),
    decreases fuel, n,
{
    if n == 0 {
        return Ok(Vec::new());
    }
    let ghost s0 = eval(*reg, fuel, *index as int, nodes@, scope@).unwrap();
    let v = eval_node(reg, index, nodes, scope, Ghost(fuel))?;
    let ghost s1 = eval_args(*reg, fuel, (n - 1) as nat, *index as int, nodes@, scope@).unwrap();
    let mut rest = eval_args_exec(reg, index, nodes, scope, n - 1, Ghost(fuel))?;
    let ghost old_rest = rest@;
    rest.insert(0, v);
    proof {
        let ys = seq![s0.0->Ok_0] + s1.0->Ok_0;
        assert forall|i: int| 0 <= i < rest@.len() implies (#[trigger] rest@[i]).same(ys[i]) by {
            if i > 0 {
                assert(rest@[i] == old_rest[i - 1]);
            }
        }
    }
    Ok(rest)
}

/// Whether evaluating the node at `index` returns: it does within some number of
/// nested evaluations.
pub open spec fn eval_returns(reg: LiveRegistry, index: int, nodes: Seq<LiveNode>, scope: Seq<LiveNode>) -> bool {
    exists|fuel: nat| #[trigger] eval(reg, fuel, index, nodes, scope) is Some
}

/// What evaluating the node at `index` gives, and the index it leaves behind, where it returns.
pub open spec fn live_eval_result(
    reg: LiveRegistry,
    index: int,
    nodes: Seq<LiveNode>,
    scope: Seq<LiveNode>,
) -> (Result<LiveValue, LiveError>, int) {
    eval(reg, choose|fuel: nat| #[trigger] eval(reg, fuel, index, nodes, scope) is Some, index, nodes, scope).unwrap()
}

/// Evaluates the expression that starts at the node at `*index` of `nodes` and moves
/// `*index` past it. Names are looked up in the scope whose first node is
/// `scope_nodes[0]`; a name that stands for a node of a document is evaluated there.
///
/// Literals evaluate to themselves; the last keyframe of an animation array is its
/// value; operators and built-in functions apply to the values of their operands
/// (see [`crate::ops`]). Where an operator or function is not defined on its
/// operands, or a node cannot be evaluated, the error names the node at `*index`.
pub fn live_eval_value(
    live_registry: &LiveRegistry,
    index: &mut usize,
    nodes: &[LiveNode],
    scope_nodes: &[LiveNode],
) -> (r: Result<LiveValue, LiveError>)
    requires
        eval_returns(*live_registry, *old(index) as int, nodes@, scope_nodes@),
    ensures
        same_outcome(r, live_eval_result(*live_registry, *old(index) as int, nodes@, scope_nodes@).0),
        *final(index) as int == live_eval_result(*live_registry, *old(index) as int, nodes@, scope_nodes@).1,
{
    let ghost fuel = choose|fuel: nat| #[trigger] eval(*live_registry, fuel, *index as int, nodes@, scope_nodes@) is Some;
    eval_node(live_registry, index, nodes, scope_nodes, Ghost(fuel))
}

/// An evaluation that returns within some number of nested evaluations gives the
/// same outcome, and leaves the same index behind, when more are allowed.
pub proof fn eval_fuel_monotone(
    reg: LiveRegistry,
    fuel: nat,
    more: nat,
    index: int,
    nodes: Seq<LiveNode>,
    scope: Seq<LiveNode>,
)
    requires
        eval(reg, fuel, index, nodes, scope) is Some,
        fuel <= more,
    ensures
        eval(reg, more, index, nodes, scope) == eval(reg, fuel, index, nodes, scope),
    decreases fuel, 0nat,
{
    let f = (fuel - 1) as nat;
    let m = (more - 1) as nat;
    let v = nodes[index].value;
    if !v.is_literal() {
        match v {
            LiveValue::Expr => {
                eval_fuel_monotone(reg, f, m, index + 1, nodes, scope);
            },
            LiveValue::Id(id) => {
                if let LiveValue::Root { id_resolve } = scope[0].value {
                    if id_resolve@.contains_key(id.0) {
                        match id_resolve@[id.0] {
                            LiveScopeTarget::LivePtr(p) => {
                                eval_fuel_monotone(reg, f, m, p.index as int, reg.doc_nodes(p), reg.doc_nodes(p));
                            },
                            LiveScopeTarget::LocalPtr(l) => {
                                eval_fuel_monotone(reg, f, m, l as int, scope, scope);
                            },
                        }
                    }
                }
            },
            LiveValue::ExprUnOp(op) => {
                eval_fuel_monotone(reg, f, m, index + 1, nodes, scope);
            },
            LiveValue::ExprBinOp(op) => {
                eval_fuel_monotone(reg, f, m, index + 1, nodes, scope);
                if let Some((Ok(a), i)) = eval(reg, f, index + 1, nodes, scope) {
                    eval_fuel_monotone(reg, f, m, i, nodes, scope);
                }
            },
            LiveValue::ExprCall { ident, args } => {
                if builtin_arity(ident) == Some(args as nat) {
                    eval_args_fuel_monotone(reg, f, m, args as nat, index + 1, nodes, scope);
                }
            },
            _ => {},
        }
    }
}

/// Evaluating several expressions in turn that returns within some number of nested
/// evaluations gives the same outcome when more are allowed.
pub proof fn eval_args_fuel_monotone(
    reg: LiveRegistry,
    fuel: nat,
    more: nat,
    n: nat,
    index: int,
    nodes: Seq<LiveNode>,
    scope: Seq<LiveNode>,
)
    requires
        eval_args(reg, fuel, n, index, nodes, scope) is Some,
        fuel <= more,
    ensures
        eval_args(reg, more, n, index, nodes, scope) == eval_args(reg, fuel, n, index, nodes, scope),
    decreases fuel, n,
{
    if n > 0 {
        eval_fuel_monotone(reg, fuel, more, index, nodes, scope);
        if let Some((Ok(v), i)) = eval(reg, fuel, index, nodes, scope) {
            eval_args_fuel_monotone(reg, fuel, more, (n - 1) as nat, i, nodes, scope);
        }
    }
}

/// Where an evaluation returns within some number of nested evaluations, that is
/// what [`live_eval_value`] gives: the outcome does not depend on the budget.
pub proof fn eval_result_for_any_fuel(
    reg: LiveRegistry,
    fuel: nat,
    index: int,
    nodes: Seq<LiveNode>,
    scope: Seq<LiveNode>,
)
    requires
        eval(reg, fuel, index, nodes, scope) is Some,
    ensures
        eval_returns(reg, index, nodes, scope),
        live_eval_result(reg, index, nodes, scope) == eval(reg, fuel, index, nodes, scope).unwrap(),
{
    let c = choose|fuel: nat| #[trigger] eval(reg, fuel, index, nodes, scope) is Some;
    assert(eval(reg, c, index, nodes, scope) is Some);
    if c <= fuel {
        eval_fuel_monotone(reg, c, fuel, index, nodes, scope);
    } else {
        eval_fuel_monotone(reg, fuel, c, index, nodes, scope);
    }
}

} // verus!
