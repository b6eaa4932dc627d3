use std::collections::HashMap;

use live_compiler::{
    live_eval_value, LiveDocument, LiveError, LiveEvalErrorKind, LiveFile, LiveFileGeneration, LiveFileId, LiveId,
    LiveNode, LiveNodeOrigin, LivePropType, LivePtr, LiveRegistry, LiveScopeTarget, LiveTokenId, LiveValue,
};
use live_compiler::terms::{BoolTerm, F64Term};
use live_compiler::LiveBinOp;

fn doc(file: u16, values: Vec<LiveValue>) -> Vec<LiveNode> {
    let mut nodes = Vec::new();
    for (i, value) in values.into_iter().enumerate() {
        nodes.push(LiveNode {
            origin: LiveNodeOrigin {
                token_id: Some(LiveTokenId { file_id: LiveFileId(file), token_index: i as u32 }),
                prop_type: LivePropType::Nameless,
            },
            id: LiveId(0),
            value,
        });
    }
    nodes
}

fn root(entries: Vec<(u64, LiveScopeTarget)>) -> LiveValue {
    let mut id_resolve = HashMap::new();
    for (k, v) in entries {
        id_resolve.insert(k, v);
    }
    LiveValue::Root { id_resolve }
}

#[test]
fn local_name_evaluates_its_target() {
    let nodes = doc(
        0,
        vec![
            root(vec![(7, LiveScopeTarget::LocalPtr(4))]),
            LiveValue::Expr,
            LiveValue::Id(LiveId(7)),
            LiveValue::Close,
            LiveValue::Int64(11),
            LiveValue::Close,
        ],
    );
    let reg = LiveRegistry { live_files: Vec::new() };
    let mut index = 1;
    let r = live_eval_value(&reg, &mut index, &nodes, &nodes);
    assert!(matches!(r, Ok(LiveValue::Int64(11))));
    assert_eq!(index, 3);
}

#[test]
fn name_in_an_expression() {
    // x + 1 where x is 41
    let nodes = doc(
        0,
        vec![
            root(vec![(7, LiveScopeTarget::LocalPtr(6))]),
            LiveValue::Expr,
            LiveValue::ExprBinOp(LiveBinOp::Add),
            LiveValue::Id(LiveId(7)),
            LiveValue::Int64(1),
            LiveValue::Close,
            LiveValue::Int64(41),
            LiveValue::Close,
        ],
    );
    let reg = LiveRegistry { live_files: Vec::new() };
    let mut index = 1;
    let r = live_eval_value(&reg, &mut index, &nodes, &nodes);
    assert!(matches!(r, Ok(LiveValue::Int64(42))));
    assert_eq!(index, 5);
}

#[test]
fn name_bound_to_another_file() {
    let other = doc(1, vec![root(vec![]), LiveValue::Bool(BoolTerm::Lit(true)), LiveValue::Close]);
    let reg = LiveRegistry {
        live_files: vec![
            LiveFile { generation: LiveFileGeneration(0), expanded: LiveDocument { nodes: Vec::new() } },
            LiveFile { generation: LiveFileGeneration(0), expanded: LiveDocument { nodes: other } },
        ],
    };
    let ptr = LivePtr { file_id: LiveFileId(1), index: 1, generation: LiveFileGeneration(0) };
    let nodes = doc(0, vec![root(vec![(9, LiveScopeTarget::LivePtr(ptr))]), LiveValue::Id(LiveId(9)), LiveValue::Close]);
    let mut index = 1;
    let r = live_eval_value(&reg, &mut index, &nodes, &nodes);
    assert!(matches!(r, Ok(LiveValue::Bool(BoolTerm::Lit(true)))));
    assert_eq!(index, 2);
}

#[test]
fn names_in_another_file_are_looked_up_there() {
    // file 1: root { y -> local 3 }, node 1: y * 2.0 ... node 3: 4
    let other = doc(
        1,
        vec![
            root(vec![(5, LiveScopeTarget::LocalPtr(4))]),
            LiveValue::ExprBinOp(LiveBinOp::Mul),
            LiveValue::Id(LiveId(5)),
            LiveValue::Int64(2),
            LiveValue::Int64(4),
            LiveValue::Close,
        ],
    );
    let reg = LiveRegistry {
        live_files: vec![
            LiveFile { generation: LiveFileGeneration(0), expanded: LiveDocument { nodes: Vec::new() } },
            LiveFile { generation: LiveFileGeneration(0), expanded: LiveDocument { nodes: other } },
        ],
    };
    let ptr = LivePtr { file_id: LiveFileId(1), index: 1, generation: LiveFileGeneration(0) };
    let nodes = doc(0, vec![root(vec![(9, LiveScopeTarget::LivePtr(ptr))]), LiveValue::Id(LiveId(9)), LiveValue::Close]);
    let mut index = 1;
    let r = live_eval_value(&reg, &mut index, &nodes, &nodes);
    assert!(matches!(r, Ok(LiveValue::Int64(8))));
    assert_eq!(index, 2);
}

#[test]
fn unknown_name_cannot_be_found() {
    let nodes = doc(0, vec![root(vec![]), LiveValue::Id(LiveId(3)), LiveValue::Close]);
    let reg = LiveRegistry { live_files: Vec::new() };
    let mut index = 1;
    let r = live_eval_value(&reg, &mut index, &nodes, &nodes);
    match r {
        Err(LiveError { kind: LiveEvalErrorKind::CantFindTarget { id }, span }) => {
            assert_eq!(id, LiveId(3));
            assert_eq!(span.token_index, 2);
        },
        other => panic!("unexpected {:?}", other),
    }
    assert_eq!(index, 2);
}

#[test]
fn scope_without_root_finds_nothing() {
    let nodes = doc(0, vec![LiveValue::Object, LiveValue::Id(LiveId(3)), LiveValue::Close]);
    let reg = LiveRegistry { live_files: Vec::new() };
    let mut index = 1;
    let r = live_eval_value(&reg, &mut index, &nodes, &nodes);
    assert!(matches!(r, Err(LiveError { kind: LiveEvalErrorKind::CantFindTarget { .. }, .. })));
    assert_eq!(index, 2);
}

#[test]
fn names_resolve_in_the_scope_not_in_the_nodes() {
    let scope = doc(0, vec![root(vec![(1, LiveScopeTarget::LocalPtr(1))]), LiveValue::Float64(F64Term::Bits(0)), LiveValue::Close]);
    let nodes = doc(2, vec![LiveValue::Id(LiveId(1)), LiveValue::Close]);
    let reg = LiveRegistry { live_files: Vec::new() };
    let mut index = 0;
    let r = live_eval_value(&reg, &mut index, &nodes, &scope);
    assert!(matches!(r, Ok(LiveValue::Float64(F64Term::Bits(0)))));
    assert_eq!(index, 1);
}
