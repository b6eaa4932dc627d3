//! The errors of expression evaluation.

use vstd::prelude::*;

use crate::live_id::LiveId;
use crate::live_node::{LiveNode, LiveTokenId};
use crate::live_value::{LiveBinOp, LiveUnOp, LiveValue};

verus! {

/// What the evaluator expected where it found a value that it cannot evaluate.
#[derive(Clone, Copy, Debug, PartialEq, Eq, Structural)]
pub enum WrongValueContext {
    /// The last keyframe of an animation array.
    AnimationArray,
    /// An operand or an operator of an expression.
    Expression,
}

/// Why an expression could not be evaluated.
#[allow(inconsistent_fields)]
#[derive(Debug)]
pub enum LiveEvalErrorKind {
    /// The node holds a value that is not an expression (the node's value is kept).
    WrongValueInExpression { ty: WrongValueContext, value: LiveValue },
    /// The operator is not defined between the two operand values.
    BinOpUndefined { op: LiveBinOp, a: LiveValue, b: LiveValue },
    /// The operator is not defined for the operand value.
    UnOpUndefined { op: LiveUnOp, a: LiveValue },
    /// No built-in function has this name and number of arguments, or the arguments
    /// are not of the kinds it takes.
    CallNotImplemented { ident: LiveId, args: usize },
    /// The name is not in scope.
    CantFindTarget { id: LiveId },
}

/// An evaluation error, with the source token of the node where it arose.
#[derive(Debug)]
pub struct LiveError {
    pub kind: LiveEvalErrorKind,
    pub span: LiveTokenId,
}

/// The source token of the node at `index`, if there is such a node and it has one.
pub open spec fn node_token(nodes: Seq<LiveNode>, index: int) -> Option<LiveTokenId> {
    if 0 <= index < nodes.len() {
        nodes[index].origin.token_id
    } else {
        None
    }
}

impl LiveEvalErrorKind {
    /// Whether two error kinds are the same (values compared by [`LiveValue::same`]).
    pub open spec fn same(self, other: LiveEvalErrorKind) -> bool {
        match (self, other) {
            (
                LiveEvalErrorKind::WrongValueInExpression { ty: t1, value: v1 },
                LiveEvalErrorKind::WrongValueInExpression { ty: t2, value: v2 },
            ) => t1 == t2 && v1.same(v2),
            (
                LiveEvalErrorKind::BinOpUndefined { op: o1, a: a1, b: b1 },
                LiveEvalErrorKind::BinOpUndefined { op: o2, a: a2, b: b2 },
            ) => o1 == o2 && a1.same(a2) && b1.same(b2),
            (
                LiveEvalErrorKind::UnOpUndefined { op: o1, a: a1 },
                LiveEvalErrorKind::UnOpUndefined { op: o2, a: a2 },
            ) => o1 == o2 && a1.same(a2),
            _ => self == other,
        }
    }
}

impl LiveError {
    /// Whether two errors are the same (values compared by [`LiveValue::same`]).
    pub open spec fn same(self, other: LiveError) -> bool {
        self.kind.same(other.kind) && self.span == other.span
    }

    /// The error of kind `kind` at the node at `index`, where that node has a source token.
    pub open spec fn at(nodes: Seq<LiveNode>, index: int, kind: LiveEvalErrorKind) -> Option<LiveError> {
        match node_token(nodes, index) {
            Some(span) => Some(LiveError { kind, span }),
            None => None,
        }
    }

    pub(crate) fn eval_error_wrong_value_in_expression(
        index: usize,
        nodes: &[LiveNode],
        ty: WrongValueContext,
    ) -> (r: LiveError)
        requires
            node_token(nodes@, index as int) is Some,
        ensures
            r.same(
                LiveError::at(
                    nodes@,
                    index as int,
                    LiveEvalErrorKind::WrongValueInExpression { ty, value: nodes@[index as int].value },
                ).unwrap(),
            ),
    {
        let value = nodes[index].value.duplicate();
        Self::eval_error(index, nodes, LiveEvalErrorKind::WrongValueInExpression { ty, value })
    }

    pub(crate) fn eval_error_binop_undefined_in_expression(
        index: usize,
        nodes: &[LiveNode],
        op: LiveBinOp,
        a: LiveValue,
        b: LiveValue,
    ) -> (r: LiveError)
        requires
            node_token(nodes@, index as int) is Some,
        ensures
            Some(r) == LiveError::at(nodes@, index as int, LiveEvalErrorKind::BinOpUndefined { op, a, b }),
    {
        Self::eval_error(index, nodes, LiveEvalErrorKind::BinOpUndefined { op, a, b })
    }

    pub(crate) fn eval_error_unop_undefined_in_expression(
        index: usize,
        nodes: &[LiveNode],
        op: LiveUnOp,
        a: LiveValue,
    ) -> (r: LiveError)
        requires
            node_token(nodes@, index as int) is Some,
        ensures
            Some(r) == LiveError::at(nodes@, index as int, LiveEvalErrorKind::UnOpUndefined { op, a }),
    {
        Self::eval_error(index, nodes, LiveEvalErrorKind::UnOpUndefined { op, a })
    }

    pub(crate) fn eval_error_expression_call_not_implemented(
        index: usize,
        nodes: &[LiveNode],
        ident: LiveId,
        args: usize,
    ) -> (r: LiveError)
        requires
            node_token(nodes@, index as int) is Some,
        ensures
            Some(r) == LiveError::at(nodes@, index as int, LiveEvalErrorKind::CallNotImplemented { ident, args }),
    {
        Self::eval_error(index, nodes, LiveEvalErrorKind::CallNotImplemented { ident, args })
    }

    pub(crate) fn eval_error_cant_find_target(index: usize, nodes: &[LiveNode], id: LiveId) -> (r: LiveError)
        requires
            node_token(nodes@, index as int) is Some,
        ensures
            Some(r) == LiveError::at(nodes@, index as int, LiveEvalErrorKind::CantFindTarget { id }),
    {
        Self::eval_error(index, nodes, LiveEvalErrorKind::CantFindTarget { id })
    }

    /// The error of kind `kind` at the node at `index`.
    pub(crate) fn eval_error(index: usize, nodes: &[LiveNode], kind: LiveEvalErrorKind) -> (r: LiveError)
        requires
            node_token(nodes@, index as int) is Some,
        ensures
            Some(r) == LiveError::at(nodes@, index as int, kind),
    {
        let span = match nodes[index].origin.token_id {
            Some(t) => t,
            None => {
                proof {
                    assert(false);
                }
                LiveTokenId { file_id: crate::live_value::LiveFileId(0), token_index: 0 }
            },
        };
        LiveError { kind, span }
    }
}

} // verus!
