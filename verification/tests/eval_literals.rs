use live_compiler::terms::{BoolTerm, F64Term, VecTerm};
use live_compiler::{
    child_by_name, last_child, live_eval_value, skip_node, LiveError, LiveEvalErrorKind, LiveFileId, LiveId,
    LiveNode, LiveNodeOrigin, LivePropType, LiveRegistry, LiveTokenId, LiveValue, WrongValueContext,
    LIVE_ID_VALUE,
};

fn doc(values: Vec<LiveValue>) -> Vec<LiveNode> {
    let mut nodes = Vec::new();
    for (i, value) in values.into_iter().enumerate() {
        nodes.push(LiveNode {
            origin: LiveNodeOrigin {
                token_id: Some(LiveTokenId { file_id: LiveFileId(0), token_index: i as u32 }),
                prop_type: LivePropType::Nameless,
            },
            id: LiveId(0),
            value,
        });
    }
    nodes
}

fn registry() -> LiveRegistry {
    LiveRegistry { live_files: Vec::new() }
}

fn eval_at(nodes: &[LiveNode], start: usize) -> (Result<LiveValue, LiveError>, usize) {
    let mut index = start;
    let r = live_eval_value(&registry(), &mut index, nodes, nodes);
    (r, index)
}

#[test]
fn integer_literal_evaluates_to_itself() {
    let nodes = doc(vec![LiveValue::Int64(42), LiveValue::Close]);
    let (r, index) = eval_at(&nodes, 0);
    assert!(matches!(r, Ok(LiveValue::Int64(42))));
    assert_eq!(index, 1);
}

#[test]
fn string_literal_evaluates_to_itself() {
    let nodes = doc(vec![LiveValue::String("hello".to_string()), LiveValue::Close]);
    let (r, index) = eval_at(&nodes, 0);
    match r {
        Ok(LiveValue::String(s)) => assert_eq!(s, "hello"),
        other => panic!("unexpected {:?}", other),
    }
    assert_eq!(index, 1);
}

#[test]
fn float_literal_keeps_its_bits() {
    let bits = 1.5f64.to_bits();
    let nodes = doc(vec![LiveValue::Float64(F64Term::Bits(bits)), LiveValue::Close]);
    let (r, index) = eval_at(&nodes, 0);
    match r {
        Ok(LiveValue::Float64(F64Term::Bits(b))) => assert_eq!(b, bits),
        other => panic!("unexpected {:?}", other),
    }
    assert_eq!(index, 1);
}

#[test]
fn bool_and_color_and_vector_literals() {
    let nodes = doc(vec![
        LiveValue::Bool(BoolTerm::Lit(true)),
        LiveValue::Color(0xff00ffff),
        LiveValue::Vec2(VecTerm::Bits2(1.0f32.to_bits(), 2.0f32.to_bits())),
        LiveValue::Close,
    ]);
    let (r, index) = eval_at(&nodes, 0);
    assert!(matches!(r, Ok(LiveValue::Bool(BoolTerm::Lit(true)))));
    assert_eq!(index, 1);
    let (r, index) = eval_at(&nodes, 1);
    assert!(matches!(r, Ok(LiveValue::Color(0xff00ffff))));
    assert_eq!(index, 2);
    let (r, index) = eval_at(&nodes, 2);
    assert!(matches!(r, Ok(LiveValue::Vec2(VecTerm::Bits2(_, _)))));
    assert_eq!(index, 3);
}

#[test]
fn expr_node_evaluates_its_first_child() {
    let nodes = doc(vec![LiveValue::Expr, LiveValue::Int64(7), LiveValue::Close]);
    let (r, index) = eval_at(&nodes, 0);
    assert!(matches!(r, Ok(LiveValue::Int64(7))));
    assert_eq!(index, 2);
}

#[test]
fn close_node_is_a_wrong_value() {
    let nodes = doc(vec![LiveValue::Int64(1), LiveValue::Close]);
    let (r, index) = eval_at(&nodes, 1);
    match r {
        Err(LiveError {
            kind: LiveEvalErrorKind::WrongValueInExpression { ty: WrongValueContext::Expression, value: LiveValue::Close },
            span,
        }) => assert_eq!(span.token_index, 1),
        other => panic!("unexpected {:?}", other),
    }
    assert_eq!(index, 1);
}

#[test]
fn array_gives_its_last_keyframe() {
    let nodes = doc(vec![
        LiveValue::Array,
        LiveValue::Int64(1),
        LiveValue::Int64(2),
        LiveValue::Close,
        LiveValue::Close,
    ]);
    let (r, index) = eval_at(&nodes, 0);
    assert!(matches!(r, Ok(LiveValue::Int64(2))));
    assert_eq!(index, 4);
}

#[test]
fn array_of_keyframe_objects_gives_the_last_value_field() {
    let mut nodes = doc(vec![
        LiveValue::Array,
        LiveValue::Object,
        LiveValue::Int64(10),
        LiveValue::Close,
        LiveValue::Object,
        LiveValue::Int64(99),
        LiveValue::Int64(20),
        LiveValue::Close,
        LiveValue::Close,
        LiveValue::Close,
    ]);
    nodes[2].id = LiveId(LIVE_ID_VALUE);
    nodes[2].origin.prop_type = LivePropType::Field;
    nodes[6].id = LiveId(LIVE_ID_VALUE);
    nodes[6].origin.prop_type = LivePropType::Field;
    let (r, index) = eval_at(&nodes, 0);
    assert!(matches!(r, Ok(LiveValue::Int64(20))));
    assert_eq!(index, 9);
}

#[test]
fn empty_array_is_a_wrong_value() {
    let nodes = doc(vec![LiveValue::Array, LiveValue::Close, LiveValue::Close]);
    let (r, index) = eval_at(&nodes, 0);
    match r {
        Err(LiveError {
            kind: LiveEvalErrorKind::WrongValueInExpression { ty: WrongValueContext::AnimationArray, value: LiveValue::Array },
            span,
        }) => assert_eq!(span.token_index, 0),
        other => panic!("unexpected {:?}", other),
    }
    assert_eq!(index, 0);
}

#[test]
fn keyframe_object_without_value_field_is_a_wrong_value() {
    let nodes = doc(vec![
        LiveValue::Array,
        LiveValue::Object,
        LiveValue::Int64(10),
        LiveValue::Close,
        LiveValue::Close,
        LiveValue::Close,
    ]);
    let (r, index) = eval_at(&nodes, 0);
    assert!(matches!(
        r,
        Err(LiveError { kind: LiveEvalErrorKind::WrongValueInExpression { ty: WrongValueContext::AnimationArray, .. }, .. })
    ));
    assert_eq!(index, 0);
}

#[test]
fn skip_node_steps_over_nested_nodes() {
    let nodes = doc(vec![
        LiveValue::Object,
        LiveValue::Int64(1),
        LiveValue::Array,
        LiveValue::Int64(2),
        LiveValue::Close,
        LiveValue::Close,
        LiveValue::Int64(3),
    ]);
    assert_eq!(skip_node(&nodes, 0), 6);
    assert_eq!(skip_node(&nodes, 1), 2);
    assert_eq!(skip_node(&nodes, 2), 5);
    assert_eq!(skip_node(&nodes, 4), 4);
    assert_eq!(skip_node(&nodes, 6), 7);
}

#[test]
fn skip_node_of_an_unclosed_node_reaches_the_end() {
    let nodes = doc(vec![LiveValue::Array, LiveValue::Int64(2)]);
    assert_eq!(skip_node(&nodes, 0), 2);
}

#[test]
fn last_child_and_child_by_name() {
    let mut nodes = doc(vec![
        LiveValue::Object,
        LiveValue::Int64(1),
        LiveValue::Array,
        LiveValue::Int64(2),
        LiveValue::Close,
        LiveValue::Int64(3),
        LiveValue::Close,
    ]);
    nodes[3].id = LiveId(5);
    nodes[5].id = LiveId(5);
    nodes[5].origin.prop_type = LivePropType::Field;
    assert_eq!(last_child(&nodes, 0), Some(5));
    assert_eq!(last_child(&nodes, 2), Some(3));
    assert_eq!(child_by_name(&nodes, 0, LiveId(5), LivePropType::Field), Some(5));
    assert_eq!(child_by_name(&nodes, 0, LiveId(5), LivePropType::Nameless), None);
    assert_eq!(child_by_name(&nodes, 2, LiveId(5), LivePropType::Nameless), Some(3));
}

#[test]
fn last_child_of_an_empty_node_is_none() {
    let nodes = doc(vec![LiveValue::Array, LiveValue::Close]);
    assert_eq!(last_child(&nodes, 0), None);
}
