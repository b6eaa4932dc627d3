//! How the evaluation of an operator or call node relates to the evaluations of its
//! operands, and what the walks over a node vector give on nodes whose children are
//! leaves.

use vstd::prelude::*;

use crate::live_error::{LiveError, LiveEvalErrorKind, WrongValueContext};
use crate::live_eval::{
    eval, eval_fuel_monotone, eval_result_for_any_fuel, eval_returns, last_keyframe, live_eval_result, same_outcome,
    same_values,
};
use crate::live_id::{LiveId, LIVE_ID_VALUE};
use crate::live_node::{
    child_by_name_from, last_child_from, skip_from, spec_child_by_name, spec_last_child, spec_skip_node, LiveNode,
    LivePropType, LiveTokenId,
};
use crate::live_registry::LiveRegistry;
use crate::live_value::{LiveBinOp, LiveUnOp, LiveValue};
use crate::ops::{binop_outcome, builtin_arity, builtin_result, unop_outcome, OpOutcome};

verus! {

/// Two evaluations that return can be carried out within one budget.
proof fn lemma_common_fuel(
    reg: LiveRegistry,
    i1: int,
    n1: Seq<LiveNode>,
    s1: Seq<LiveNode>,
    i2: int,
    n2: Seq<LiveNode>,
    s2: Seq<LiveNode>,
) -> (f: nat)
    requires
        eval_returns(reg, i1, n1, s1),
        eval_returns(reg, i2, n2, s2),
    ensures
        eval(reg, f, i1, n1, s1) == Some(live_eval_result(reg, i1, n1, s1)),
        eval(reg, f, i2, n2, s2) == Some(live_eval_result(reg, i2, n2, s2)),
{
    let f1 = choose|fuel: nat| #[trigger] eval(reg, fuel, i1, n1, s1) is Some;
    let f2 = choose|fuel: nat| #[trigger] eval(reg, fuel, i2, n2, s2) is Some;
    eval_result_for_any_fuel(reg, f1, i1, n1, s1);
    eval_result_for_any_fuel(reg, f2, i2, n2, s2);
    eval_fuel_monotone(reg, f1, f1 + f2, i1, n1, s1);
    eval_fuel_monotone(reg, f2, f1 + f2, i2, n2, s2);
    f1 + f2
}

/// A binary operator node evaluates its left operand, then its right operand from
/// where the left one ended, and applies the operator to the two values, left value
/// on the left; the index ends where the right operand ended.
pub proof fn binop_node_applies_operator_to_operands(
    reg: LiveRegistry,
    index: int,
    nodes: Seq<LiveNode>,
    scope: Seq<LiveNode>,
    op: LiveBinOp,
    a: LiveValue,
    i: int,
    b: LiveValue,
    j: int,
    r: LiveValue,
)
    requires
        0 <= index < nodes.len(),
        nodes[index].value == LiveValue::ExprBinOp(op),
        eval_returns(reg, index + 1, nodes, scope),
        live_eval_result(reg, index + 1, nodes, scope) == (Ok::<LiveValue, LiveError>(a), i),
        eval_returns(reg, i, nodes, scope),
        live_eval_result(reg, i, nodes, scope) == (Ok::<LiveValue, LiveError>(b), j),
        binop_outcome(op, a, b) == OpOutcome::Defined(r),
    ensures
        eval_returns(reg, index, nodes, scope),
        live_eval_result(reg, index, nodes, scope) == (Ok::<LiveValue, LiveError>(r), j),
{
    let f = lemma_common_fuel(reg, index + 1, nodes, scope, i, nodes, scope);
    assert(eval(reg, f + 1, index, nodes, scope) == Some((Ok::<LiveValue, LiveError>(r), j)));
    eval_result_for_any_fuel(reg, f + 1, index, nodes, scope);
}

/// Where the operator is not defined on the operand values, a binary operator node
/// fails with an error that names the operator and both values, at the node where the
/// right operand ended.
pub proof fn binop_node_reports_undefined_operator(
    reg: LiveRegistry,
    index: int,
    nodes: Seq<LiveNode>,
    scope: Seq<LiveNode>,
    op: LiveBinOp,
    a: LiveValue,
    i: int,
    b: LiveValue,
    j: int,
    span: LiveTokenId,
)
    requires
        0 <= index < nodes.len(),
        nodes[index].value == LiveValue::ExprBinOp(op),
        eval_returns(reg, index + 1, nodes, scope),
        live_eval_result(reg, index + 1, nodes, scope) == (Ok::<LiveValue, LiveError>(a), i),
        eval_returns(reg, i, nodes, scope),
        live_eval_result(reg, i, nodes, scope) == (Ok::<LiveValue, LiveError>(b), j),
        binop_outcome(op, a, b) is Undefined,
        0 <= j < nodes.len(),
        nodes[j].origin.token_id == Some(span),
    ensures
        eval_returns(reg, index, nodes, scope),
        live_eval_result(reg, index, nodes, scope) == (
            Err::<LiveValue, LiveError>(LiveError { kind: LiveEvalErrorKind::BinOpUndefined { op, a, b }, span }),
            j,
        ),
{
    let f = lemma_common_fuel(reg, index + 1, nodes, scope, i, nodes, scope);
    assert(eval(reg, f + 1, index, nodes, scope) == Some(
        (Err::<LiveValue, LiveError>(LiveError { kind: LiveEvalErrorKind::BinOpUndefined { op, a, b }, span }), j),
    ));
    eval_result_for_any_fuel(reg, f + 1, index, nodes, scope);
}

/// An error in the left operand of a binary operator is the node's error, and the
/// right operand is not evaluated; an error in the right operand is the node's error.
pub proof fn binop_node_passes_operand_errors(
    reg: LiveRegistry,
    index: int,
    nodes: Seq<LiveNode>,
    scope: Seq<LiveNode>,
    op: LiveBinOp,
    a: LiveValue,
    i: int,
    e: LiveError,
    j: int,
)
    requires
        0 <= index < nodes.len(),
        nodes[index].value == LiveValue::ExprBinOp(op),
        eval_returns(reg, index + 1, nodes, scope),
    ensures
        live_eval_result(reg, index + 1, nodes, scope) == (Err::<LiveValue, LiveError>(e), j) ==> (eval_returns(
            reg,
            index,
            nodes,
            scope,
        ) && live_eval_result(reg, index, nodes, scope) == (Err::<LiveValue, LiveError>(e), j)),
        live_eval_result(reg, index + 1, nodes, scope) == (Ok::<LiveValue, LiveError>(a), i) && eval_returns(
            reg,
            i,
            nodes,
            scope,
        ) && live_eval_result(reg, i, nodes, scope) == (Err::<LiveValue, LiveError>(e), j) ==> (eval_returns(
            reg,
            index,
            nodes,
            scope,
        ) && live_eval_result(reg, index, nodes, scope) == (Err::<LiveValue, LiveError>(e), j)),
{
    let f1 = choose|fuel: nat| #[trigger] eval(reg, fuel, index + 1, nodes, scope) is Some;
    eval_result_for_any_fuel(reg, f1, index + 1, nodes, scope);
    if live_eval_result(reg, index + 1, nodes, scope) == (Err::<LiveValue, LiveError>(e), j) {
        assert(eval(reg, f1 + 1, index, nodes, scope) == Some((Err::<LiveValue, LiveError>(e), j)));
        eval_result_for_any_fuel(reg, f1 + 1, index, nodes, scope);
    }
    if live_eval_result(reg, index + 1, nodes, scope) == (Ok::<LiveValue, LiveError>(a), i) && eval_returns(
        reg,
        i,
        nodes,
        scope,
    ) && live_eval_result(reg, i, nodes, scope) == (Err::<LiveValue, LiveError>(e), j) {
        let f = lemma_common_fuel(reg, index + 1, nodes, scope, i, nodes, scope);
        assert(eval(reg, f + 1, index, nodes, scope) == Some((Err::<LiveValue, LiveError>(e), j)));
        eval_result_for_any_fuel(reg, f + 1, index, nodes, scope);
    }
}

/// A unary operator node evaluates its operand and applies the operator to its
/// value; where the operator is not defined on it, the error names the operator and
/// the value, at the node where the operand ended.
pub proof fn unop_node_applies_operator_to_operand(
    reg: LiveRegistry,
    index: int,
    nodes: Seq<LiveNode>,
    scope: Seq<LiveNode>,
    op: LiveUnOp,
    a: LiveValue,
    i: int,
    span: LiveTokenId,
)
    requires
        0 <= index < nodes.len(),
        nodes[index].value == LiveValue::ExprUnOp(op),
        eval_returns(reg, index + 1, nodes, scope),
        live_eval_result(reg, index + 1, nodes, scope) == (Ok::<LiveValue, LiveError>(a), i),
    ensures
        unop_outcome(op, a) matches OpOutcome::Defined(r) ==> eval_returns(reg, index, nodes, scope)
            && live_eval_result(reg, index, nodes, scope) == (Ok::<LiveValue, LiveError>(r), i),
        unop_outcome(op, a) is Undefined && 0 <= i < nodes.len() && nodes[i].origin.token_id == Some(span)
            ==> eval_returns(reg, index, nodes, scope) && live_eval_result(reg, index, nodes, scope) == (
            Err::<LiveValue, LiveError>(LiveError { kind: LiveEvalErrorKind::UnOpUndefined { op, a }, span }),
            i,
        ),
{
    let f1 = choose|fuel: nat| #[trigger] eval(reg, fuel, index + 1, nodes, scope) is Some;
    eval_result_for_any_fuel(reg, f1, index + 1, nodes, scope);
    if !(unop_outcome(op, a) is Panics) {
        if unop_outcome(op, a) is Defined || (0 <= i < nodes.len() && nodes[i].origin.token_id == Some(span)) {
            assert(eval(reg, f1 + 1, index, nodes, scope) is Some);
            eval_result_for_any_fuel(reg, f1 + 1, index, nodes, scope);
        }
    }
}

/// A call of a two-argument built-in function evaluates its first argument, then the
/// second from where the first ended, and applies the function to the two values in
/// that order; where the function does not take them, the error names the function
/// and the number of arguments, at the node where the second argument ended.
pub proof fn two_argument_call_applies_function_to_arguments(
    reg: LiveRegistry,
    index: int,
    nodes: Seq<LiveNode>,
    scope: Seq<LiveNode>,
    ident: LiveId,
    a: LiveValue,
    i: int,
    b: LiveValue,
    j: int,
    span: LiveTokenId,
)
    requires
        0 <= index < nodes.len(),
        nodes[index].value == (LiveValue::ExprCall { ident, args: 2 }),
        builtin_arity(ident) == Some(2nat),
        eval_returns(reg, index + 1, nodes, scope),
        live_eval_result(reg, index + 1, nodes, scope) == (Ok::<LiveValue, LiveError>(a), i),
        eval_returns(reg, i, nodes, scope),
        live_eval_result(reg, i, nodes, scope) == (Ok::<LiveValue, LiveError>(b), j),
    ensures
        builtin_result(ident, seq![a, b]) matches Some(r) ==> eval_returns(reg, index, nodes, scope)
            && live_eval_result(reg, index, nodes, scope) == (Ok::<LiveValue, LiveError>(r), j),
        builtin_result(ident, seq![a, b]) is None && 0 <= j < nodes.len() && nodes[j].origin.token_id == Some(span)
            ==> eval_returns(reg, index, nodes, scope) && live_eval_result(reg, index, nodes, scope) == (
            Err::<LiveValue, LiveError>(
                LiveError { kind: LiveEvalErrorKind::CallNotImplemented { ident, args: 2 }, span },
            ),
            j,
        ),
{
    let f = lemma_common_fuel(reg, index + 1, nodes, scope, i, nodes, scope);
    let f2 = (f + 1) as nat;
    reveal_with_fuel(crate::live_eval::eval_args, 3);
    assert(crate::live_eval::eval_args(reg, f, 2, index + 1, nodes, scope) == Some(
        (Ok::<Seq<LiveValue>, LiveError>(seq![a] + seq![b]), j),
    ));
    assert(seq![a] + seq![b] =~= seq![a, b]);
    if builtin_result(ident, seq![a, b]) is Some || (0 <= j < nodes.len() && nodes[j].origin.token_id == Some(span)) {
        assert(eval(reg, f2, index, nodes, scope) is Some);
        eval_result_for_any_fuel(reg, f2, index, nodes, scope);
    }
}

/// A call whose name is not a built-in function taking that many arguments fails at
/// once, before its arguments are evaluated, at the node after the call.
pub proof fn unknown_call_fails_at_once(
    reg: LiveRegistry,
    index: int,
    nodes: Seq<LiveNode>,
    scope: Seq<LiveNode>,
    ident: LiveId,
    args: usize,
    span: LiveTokenId,
)
    requires
        0 <= index < nodes.len() - 1,
        nodes[index].value == (LiveValue::ExprCall { ident, args }),
        builtin_arity(ident) != Some(args as nat),
        nodes[index + 1].origin.token_id == Some(span),
    ensures
        eval_returns(reg, index, nodes, scope),
        live_eval_result(reg, index, nodes, scope) == (
            Err::<LiveValue, LiveError>(LiveError { kind: LiveEvalErrorKind::CallNotImplemented { ident, args }, span }),
            index + 1,
        ),
{
    assert(eval(reg, 1, index, nodes, scope) is Some);
    eval_result_for_any_fuel(reg, 1, index, nodes, scope);
}

/// A node that opens or closes a scope other than an array or an expression is not
/// an expression: evaluating it fails with its own value, at it, and the index stays.
pub proof fn structure_node_is_a_wrong_value(
    reg: LiveRegistry,
    index: int,
    nodes: Seq<LiveNode>,
    scope: Seq<LiveNode>,
    span: LiveTokenId,
)
    requires
        0 <= index < nodes.len(),
        nodes[index].value is Close || nodes[index].value is Object || nodes[index].value is Clone
            || nodes[index].value is Root,
        nodes[index].origin.token_id == Some(span),
    ensures
        eval_returns(reg, index, nodes, scope),
        live_eval_result(reg, index, nodes, scope) == (
            Err::<LiveValue, LiveError>(
                LiveError {
                    kind: LiveEvalErrorKind::WrongValueInExpression {
                        ty: WrongValueContext::Expression,
                        value: nodes[index].value,
                    },
                    span,
                },
            ),
            index,
        ),
{
    assert(eval(reg, 1, index, nodes, scope) is Some);
    eval_result_for_any_fuel(reg, 1, index, nodes, scope);
}

/// A name that the scope does not bind (or a scope without a root table) fails with
/// an error naming it, at the node after the name.
pub proof fn unbound_name_is_not_found(
    reg: LiveRegistry,
    index: int,
    nodes: Seq<LiveNode>,
    scope: Seq<LiveNode>,
    id: LiveId,
    span: LiveTokenId,
)
    requires
        0 <= index < nodes.len() - 1,
        nodes[index].value == LiveValue::Id(id),
        scope.len() > 0,
        !(scope[0].value is Root) || !scope[0].value->id_resolve@.contains_key(id.0),
        nodes[index + 1].origin.token_id == Some(span),
    ensures
        eval_returns(reg, index, nodes, scope),
        live_eval_result(reg, index, nodes, scope) == (
            Err::<LiveValue, LiveError>(LiveError { kind: LiveEvalErrorKind::CantFindTarget { id }, span }),
            index + 1,
        ),
{
    assert(eval(reg, 1, index, nodes, scope) is Some);
    eval_result_for_any_fuel(reg, 1, index, nodes, scope);
}

/// Whether the node neither opens nor closes a scope.
pub open spec fn is_leaf(node: LiveNode) -> bool {
    match node.value {
        LiveValue::Root { .. } | LiveValue::Array | LiveValue::Object | LiveValue::Clone(_) | LiveValue::Expr
        | LiveValue::Close => false,
        _ => true,
    }
}

/// Whether the node at `p` is followed by leaves up to a `Close` at `j`.
pub open spec fn leaves_then_close(nodes: Seq<LiveNode>, p: int, j: int) -> bool {
    &&& 0 <= p < j < nodes.len()
    &&& forall|k: int| p < k < j ==> is_leaf(#[trigger] nodes[k])
    &&& nodes[j].value is Close
}

proof fn lemma_skip_leaves(nodes: Seq<LiveNode>, k: int, j: int)
    requires
        0 <= k <= j < nodes.len(),
        forall|m: int| k <= m < j ==> is_leaf(#[trigger] nodes[m]),
        nodes[j].value is Close,
    ensures
        skip_from(nodes, k, 1) == j + 1,
    decreases j - k,
{
    if k < j {
        assert(is_leaf(nodes[k]));
        lemma_skip_leaves(nodes, k + 1, j);
    }
}

proof fn lemma_last_leaves(nodes: Seq<LiveNode>, k: int, j: int, found: Option<int>)
    requires
        0 <= k <= j < nodes.len(),
        forall|m: int| k <= m < j ==> is_leaf(#[trigger] nodes[m]),
        nodes[j].value is Close,
    ensures
        last_child_from(nodes, k, 0, found) == if k < j { Some(j - 1) } else { found },
    decreases j - k,
{
    if k < j {
        assert(is_leaf(nodes[k]));
        lemma_last_leaves(nodes, k + 1, j, Some(k));
    }
}

proof fn lemma_child_leaves(nodes: Seq<LiveNode>, k: int, j: int, id: LiveId, pt: LivePropType)
    requires
        0 <= k <= j < nodes.len(),
        forall|m: int| k <= m < j ==> is_leaf(#[trigger] nodes[m]),
        nodes[j].value is Close,
    ensures
        match child_by_name_from(nodes, k, 0, id, pt) {
            Some(m) => k <= m < j && nodes[m].id == id && nodes[m].origin.prop_type == pt && forall|q: int|
                k <= q < m ==> !(#[trigger] nodes[q].id == id && nodes[q].origin.prop_type == pt),
            None => forall|q: int| k <= q < j ==> !(#[trigger] nodes[q].id == id && nodes[q].origin.prop_type == pt),
        },
    decreases j - k,
{
    if k < j {
        assert(is_leaf(nodes[k]));
        lemma_child_leaves(nodes, k + 1, j, id, pt);
    }
}

/// Skipping a leaf moves to the next node; a `Close` is not skipped; skipping a node
/// whose children are leaves moves past its `Close`.
pub proof fn skip_node_steps_over_one_node(nodes: Seq<LiveNode>, p: int, j: int)
    requires
        0 <= p < nodes.len(),
    ensures
        is_leaf(nodes[p]) ==> spec_skip_node(nodes, p) == p + 1,
        nodes[p].value is Close ==> spec_skip_node(nodes, p) == p,
        !is_leaf(nodes[p]) && !(nodes[p].value is Close) && leaves_then_close(nodes, p, j) ==> spec_skip_node(
            nodes,
            p,
        ) == j + 1,
{
    if !is_leaf(nodes[p]) && !(nodes[p].value is Close) && leaves_then_close(nodes, p, j) {
        lemma_skip_leaves(nodes, p + 1, j);
    }
}

/// Of a node whose children are leaves, the last child is the node before its
/// `Close`; a node with no children has none.
pub proof fn last_child_of_leaf_children(nodes: Seq<LiveNode>, p: int, j: int)
    requires
        leaves_then_close(nodes, p, j),
    ensures
        spec_last_child(nodes, p) == if j > p + 1 { Some(j - 1) } else { None },
{
    lemma_last_leaves(nodes, p + 1, j, None);
}

/// Of a node whose children are leaves, the child found by name is the first child
/// with that id and naming kind; where none has them, none is found.
pub proof fn child_by_name_finds_first_match(nodes: Seq<LiveNode>, p: int, j: int, id: LiveId, pt: LivePropType)
    requires
        leaves_then_close(nodes, p, j),
    ensures
        match spec_child_by_name(nodes, p, id, pt) {
            Some(m) => p < m < j && nodes[m].id == id && nodes[m].origin.prop_type == pt && forall|q: int|
                p < q < m ==> !(#[trigger] nodes[q].id == id && nodes[q].origin.prop_type == pt),
            None => forall|q: int| p < q < j ==> !(#[trigger] nodes[q].id == id && nodes[q].origin.prop_type == pt),
        },
{
    lemma_child_leaves(nodes, p + 1, j, id, pt);
}

/// An array whose keyframes are leaves evaluates to its last keyframe, the node
/// before its `Close`, and the index moves past that `Close`.
pub proof fn array_of_leaves_gives_last_element(
    reg: LiveRegistry,
    p: int,
    j: int,
    nodes: Seq<LiveNode>,
    scope: Seq<LiveNode>,
)
    requires
        nodes[p].value is Array,
        leaves_then_close(nodes, p, j),
        j > p + 1,
    ensures
        eval_returns(reg, p, nodes, scope),
        live_eval_result(reg, p, nodes, scope) == (Ok::<LiveValue, LiveError>(nodes[j - 1].value), j + 1),
{
    lemma_last_leaves(nodes, p + 1, j, None);
    lemma_skip_leaves(nodes, p + 1, j);
    assert(is_leaf(nodes[j - 1]));
    assert(eval(reg, 1, p, nodes, scope) is Some);
    eval_result_for_any_fuel(reg, 1, p, nodes, scope);
}

/// An array with no children is not an animation track: evaluating it fails with the
/// array's own value, at the array, and the index stays.
pub proof fn empty_array_is_a_wrong_value(
    reg: LiveRegistry,
    p: int,
    nodes: Seq<LiveNode>,
    scope: Seq<LiveNode>,
    span: LiveTokenId,
)
    requires
        0 <= p < nodes.len() - 1,
        nodes[p].value is Array,
        nodes[p + 1].value is Close,
        nodes[p].origin.token_id == Some(span),
    ensures
        eval_returns(reg, p, nodes, scope),
        live_eval_result(reg, p, nodes, scope) == (
            Err::<LiveValue, LiveError>(
                LiveError {
                    kind: LiveEvalErrorKind::WrongValueInExpression {
                        ty: WrongValueContext::AnimationArray,
                        value: LiveValue::Array,
                    },
                    span,
                },
            ),
            p,
        ),
{
    lemma_last_leaves(nodes, p + 1, p + 1, None);
    assert(eval(reg, 1, p, nodes, scope) is Some);
    eval_result_for_any_fuel(reg, 1, p, nodes, scope);
}

/// The keyframe of an array is its last child where that child is not an object; where
/// it is an object (plain or cloned), it is that object's field named `value`.
pub proof fn keyframe_of_an_object_is_its_value_field(nodes: Seq<LiveNode>, p: int, k: int)
    requires
        spec_last_child(nodes, p) == Some(k),
    ensures
        (nodes[k].value is Object || nodes[k].value is Clone) ==> last_keyframe(nodes, p) == spec_child_by_name(
            nodes,
            k,
            LiveId(LIVE_ID_VALUE),
            LivePropType::Field,
        ),
        !(nodes[k].value is Object || nodes[k].value is Clone) ==> last_keyframe(nodes, p) == Some(k),
{
}

/// Skipping from inside a scope at depth `e + d` is skipping at depth `e` and then
/// going on at depth `d`: a nested scope is stepped over as a whole.
pub proof fn skipping_composes(nodes: Seq<LiveNode>, k: int, e: nat, d: nat)
    requires
        0 <= k,
        e >= 1,
        d >= 1,
    ensures
        skip_from(nodes, k, e + d) == skip_from(nodes, skip_from(nodes, k, e), d),
    decreases nodes.len() - k,
{
    if k < nodes.len() {
        let v = nodes[k].value;
        if v.spec_is_open() {
            skipping_composes(nodes, k + 1, e + 1, d);
        } else if v.spec_is_close() {
            if e >= 2 {
                skipping_composes(nodes, k + 1, (e - 1) as nat, d);
            }
        } else {
            skipping_composes(nodes, k + 1, e, d);
        }
    }
}

/// Same values are equal, but for two scope roots, which have the same table contents.
pub proof fn same_values_are_equal_but_for_tables(a: LiveValue, b: LiveValue)
    requires
        a.same(b),
    ensures
        a == b || (a is Root && b is Root && a->id_resolve@ == b->id_resolve@),
{
}

/// Same outcomes have the same kind and the same span; their values are equal but for
/// scope roots with the same table contents.
pub proof fn same_outcomes_agree(r: Result<LiveValue, LiveError>, s: Result<LiveValue, LiveError>)
    requires
        same_outcome(r, s),
    ensures
        r is Ok <==> s is Ok,
        r matches Ok(x) ==> (x == s->Ok_0 || (x is Root && s->Ok_0 is Root && x->id_resolve@ == s->Ok_0->id_resolve@)),
        r matches Err(x) ==> x.span == s->Err_0.span,
        r matches Err(x) ==> x.kind.same(s->Err_0.kind),
{
}

/// Whether two values are equal, or are scope roots with the same table contents.
pub open spec fn equal_or_same_roots(a: LiveValue, b: LiveValue) -> bool {
    a == b || (a is Root && b is Root && a->id_resolve@ == b->id_resolve@)
}

/// Same error kinds are of the same variant with equal operators, contexts, names and
/// argument counts, and with values equal but for scope roots with the same tables.
pub proof fn same_error_kinds_agree(k1: LiveEvalErrorKind, k2: LiveEvalErrorKind)
    requires
        k1.same(k2),
    ensures
        k1 matches LiveEvalErrorKind::WrongValueInExpression { ty, value } ==> (k2 matches LiveEvalErrorKind::WrongValueInExpression {
            ty: t2,
            value: v2,
        } && ty == t2 && equal_or_same_roots(value, v2)),
        k1 matches LiveEvalErrorKind::BinOpUndefined { op, a, b } ==> (k2 matches LiveEvalErrorKind::BinOpUndefined {
            op: o2,
            a: a2,
            b: b2,
        } && op == o2 && equal_or_same_roots(a, a2) && equal_or_same_roots(b, b2)),
        k1 matches LiveEvalErrorKind::UnOpUndefined { op, a } ==> (k2 matches LiveEvalErrorKind::UnOpUndefined {
            op: o2,
            a: a2,
        } && op == o2 && equal_or_same_roots(a, a2)),
        k1 is CallNotImplemented || k1 is CantFindTarget ==> k1 == k2,
{
}

/// Same sequences of values have the same length and the same values, but for scope
/// roots with the same table contents.
pub proof fn same_value_sequences_agree(xs: Seq<LiveValue>, ys: Seq<LiveValue>, i: int)
    requires
        same_values(xs, ys),
        0 <= i < xs.len(),
    ensures
        xs.len() == ys.len(),
        xs[i] == ys[i] || (xs[i] is Root && ys[i] is Root && xs[i]->id_resolve@ == ys[i]->id_resolve@),
{
    assert(xs[i].same(ys[i]));
}

/// An error at a node carries that node's source token; where the node has none (or
/// there is no such node), there is no error to report.
pub proof fn errors_carry_the_node_token(nodes: Seq<LiveNode>, i: int, kind: LiveEvalErrorKind)
    ensures
        0 <= i < nodes.len() && nodes[i].origin.token_id is Some ==> LiveError::at(nodes, i, kind) == Some(
            LiveError { kind, span: nodes[i].origin.token_id.unwrap() },
        ),
        !(0 <= i < nodes.len() && nodes[i].origin.token_id is Some) ==> LiveError::at(nodes, i, kind) is None,
{
}

/// A pointer names a loaded file exactly where its file id indexes the registry, and
/// it points into that file's expanded document.
pub proof fn pointers_index_the_registry(reg: LiveRegistry, p: crate::live_value::LivePtr)
    ensures
        reg.holds_file(p) == (p.file_id.0 < reg.live_files@.len()),
        reg.doc_nodes(p) == reg.live_files@[p.file_id.0 as int].expanded.nodes@,
{
}

/// Strings, numbers, vectors, colors and booleans each evaluate to themselves, and the
/// index moves to the next node.
pub proof fn every_literal_kind_evaluates_to_itself(reg: LiveRegistry, index: int, nodes: Seq<LiveNode>, scope: Seq<LiveNode>)
    requires
        0 <= index < nodes.len(),
        match nodes[index].value {
            LiveValue::Str(_) | LiveValue::String(_) | LiveValue::InlineString(_) | LiveValue::Dependency(_)
            | LiveValue::Bool(_) | LiveValue::Int64(_) | LiveValue::Uint64(_) | LiveValue::Float32(_)
            | LiveValue::Float64(_) | LiveValue::Color(_) | LiveValue::Vec2(_) | LiveValue::Vec3(_)
            | LiveValue::Vec4(_) => true,
            _ => false,
        },
    ensures
        eval_returns(reg, index, nodes, scope),
        live_eval_result(reg, index, nodes, scope) == (Ok::<LiveValue, LiveError>(nodes[index].value), index + 1),
{
    assert(eval(reg, 1, index, nodes, scope) is Some);
    eval_result_for_any_fuel(reg, 1, index, nodes, scope);
}

} // verus!
