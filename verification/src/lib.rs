//! Evaluation of live-design expressions.
//!
//! A live document is a flat vector of nodes. An expression is written in prefix
//! order: an operator node is followed by the nodes of its operands. Floating-point
//! quantities are carried as terms over their bit patterns (see [`terms`]); every
//! decision the evaluator takes depends only on the kinds of the values, never on a
//! floating-point result, so the whole evaluation is verified and the caller carries
//! out the IEEE arithmetic that a term describes.

pub mod live_id;
pub mod terms;
pub mod live_value;
pub mod live_node;
pub mod live_registry;
pub mod live_error;
pub mod ops;
pub mod live_eval;
pub mod laws;
pub mod laws_ops;
pub mod laws_eval;

pub use live_id::{LiveId, LIVE_ID_BLEND, LIVE_ID_HSVMOD, LIVE_ID_MIX, LIVE_ID_POW, LIVE_ID_VALUE};
pub use live_value::{
    LiveBinOp, LiveFileGeneration, LiveFileId, LivePtr, LiveScopeTarget, LiveUnOp, LiveValue,
};
pub use live_node::{
    child_by_name, last_child, skip_node, LiveNode, LiveNodeOrigin, LivePropType, LiveTokenId,
};
pub use live_registry::{LiveDocument, LiveFile, LiveRegistry};
pub use live_error::{LiveError, LiveEvalErrorKind, WrongValueContext};
pub use live_eval::live_eval_value;
