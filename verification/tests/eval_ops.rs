use live_compiler::terms::{ArithOp, BoolTerm, Comparison, F32Term, F64Term, VecTerm};
use live_compiler::{
    live_eval_value, LiveBinOp, LiveError, LiveEvalErrorKind, LiveFileId, LiveId, LiveNode, LiveNodeOrigin,
    LivePropType, LiveRegistry, LiveTokenId, LiveUnOp, LiveValue, LIVE_ID_BLEND, LIVE_ID_HSVMOD, LIVE_ID_MIX,
    LIVE_ID_POW,
};

fn doc(values: Vec<LiveValue>) -> Vec<LiveNode> {
    let mut nodes = Vec::new();
    for (i, value) in values.into_iter().enumerate() {
        nodes.push(LiveNode {
            origin: LiveNodeOrigin {
                token_id: Some(LiveTokenId { file_id: LiveFileId(0), token_index: i as u32 }),
                prop_type: LivePropType::Nameless,
            },
            id: LiveId(0),
            value,
        });
    }
    nodes
}

fn eval(values: Vec<LiveValue>) -> (Result<LiveValue, LiveError>, usize) {
    let nodes = doc(values);
    let reg = LiveRegistry { live_files: Vec::new() };
    let mut index = 0;
    let r = live_eval_value(&reg, &mut index, &nodes, &nodes);
    (r, index)
}

fn bin(op: LiveBinOp, a: LiveValue, b: LiveValue) -> (Result<LiveValue, LiveError>, usize) {
    eval(vec![LiveValue::Expr, LiveValue::ExprBinOp(op), a, b, LiveValue::Close])
}

fn f64v(x: f64) -> LiveValue {
    LiveValue::Float64(F64Term::Bits(x.to_bits()))
}

fn vec2(x: f32, y: f32) -> LiveValue {
    LiveValue::Vec2(VecTerm::Bits2(x.to_bits(), y.to_bits()))
}

fn vec4(x: f32, y: f32, z: f32, w: f32) -> LiveValue {
    LiveValue::Vec4(VecTerm::Bits4(x.to_bits(), y.to_bits(), z.to_bits(), w.to_bits()))
}

fn lit(b: bool) -> LiveValue {
    LiveValue::Bool(BoolTerm::Lit(b))
}

fn shown(r: &Result<LiveValue, LiveError>) -> String {
    format!("{:?}", r)
}

#[test]
fn integer_arithmetic() {
    let (r, index) = bin(LiveBinOp::Add, LiveValue::Int64(2), LiveValue::Int64(3));
    assert!(matches!(r, Ok(LiveValue::Int64(5))));
    assert_eq!(index, 4);
    assert!(matches!(bin(LiveBinOp::Sub, LiveValue::Int64(7), LiveValue::Int64(10)).0, Ok(LiveValue::Int64(-3))));
    assert!(matches!(bin(LiveBinOp::Mul, LiveValue::Int64(6), LiveValue::Int64(7)).0, Ok(LiveValue::Int64(42))));
}

#[test]
fn integer_division_is_floating() {
    let (r, _) = bin(LiveBinOp::Div, LiveValue::Int64(7), LiveValue::Int64(2));
    match r {
        Ok(LiveValue::Float64(F64Term::Arith(ArithOp::Div, a, b))) => {
            assert!(matches!(*a, F64Term::FromI64(7)));
            assert!(matches!(*b, F64Term::FromI64(2)));
        },
        other => panic!("unexpected {:?}", other),
    }
}

#[test]
fn nested_expression_moves_past_all_operands() {
    // (1 + 2) * 4
    let (r, index) = eval(vec![
        LiveValue::Expr,
        LiveValue::ExprBinOp(LiveBinOp::Mul),
        LiveValue::ExprBinOp(LiveBinOp::Add),
        LiveValue::Int64(1),
        LiveValue::Int64(2),
        LiveValue::Int64(4),
        LiveValue::Close,
    ]);
    assert!(matches!(r, Ok(LiveValue::Int64(12))));
    assert_eq!(index, 6);
}

#[test]
fn integer_comparisons_are_known() {
    assert!(matches!(bin(LiveBinOp::Lt, LiveValue::Int64(2), LiveValue::Int64(3)).0, Ok(LiveValue::Bool(BoolTerm::Lit(true)))));
    assert!(matches!(bin(LiveBinOp::Ge, LiveValue::Int64(2), LiveValue::Int64(3)).0, Ok(LiveValue::Bool(BoolTerm::Lit(false)))));
    assert!(matches!(bin(LiveBinOp::Eq, LiveValue::Int64(4), LiveValue::Int64(4)).0, Ok(LiveValue::Bool(BoolTerm::Lit(true)))));
    assert!(matches!(bin(LiveBinOp::Ne, LiveValue::Int64(4), LiveValue::Int64(4)).0, Ok(LiveValue::Bool(BoolTerm::Lit(false)))));
}

#[test]
fn converse_orderings_agree_on_integers() {
    let a = bin(LiveBinOp::Lt, LiveValue::Int64(5), LiveValue::Int64(9)).0;
    let b = bin(LiveBinOp::Gt, LiveValue::Int64(9), LiveValue::Int64(5)).0;
    assert!(matches!(a, Ok(LiveValue::Bool(BoolTerm::Lit(true)))));
    assert!(matches!(b, Ok(LiveValue::Bool(BoolTerm::Lit(true)))));
}

#[test]
fn boolean_logic_on_known_booleans() {
    assert!(matches!(bin(LiveBinOp::And, lit(true), lit(false)).0, Ok(LiveValue::Bool(BoolTerm::Lit(false)))));
    assert!(matches!(bin(LiveBinOp::Or, lit(true), lit(false)).0, Ok(LiveValue::Bool(BoolTerm::Lit(true)))));
    assert!(matches!(bin(LiveBinOp::Eq, lit(true), lit(false)).0, Ok(LiveValue::Bool(BoolTerm::Lit(false)))));
    assert!(matches!(bin(LiveBinOp::Ne, lit(true), lit(false)).0, Ok(LiveValue::Bool(BoolTerm::Lit(true)))));
    let (r, index) = eval(vec![LiveValue::ExprUnOp(LiveUnOp::Not), lit(true), LiveValue::Close]);
    assert!(matches!(r, Ok(LiveValue::Bool(BoolTerm::Lit(false)))));
    assert_eq!(index, 2);
}

#[test]
fn double_not_gives_back_the_boolean() {
    let (r, index) = eval(vec![
        LiveValue::ExprUnOp(LiveUnOp::Not),
        LiveValue::ExprUnOp(LiveUnOp::Not),
        lit(false),
        LiveValue::Close,
    ]);
    assert!(matches!(r, Ok(LiveValue::Bool(BoolTerm::Lit(false)))));
    assert_eq!(index, 3);
}

#[test]
fn negation() {
    assert!(matches!(
        eval(vec![LiveValue::ExprUnOp(LiveUnOp::Neg), LiveValue::Int64(5), LiveValue::Close]).0,
        Ok(LiveValue::Int64(-5))
    ));
    let (r, _) = eval(vec![LiveValue::ExprUnOp(LiveUnOp::Neg), f64v(2.5), LiveValue::Close]);
    assert!(matches!(r, Ok(LiveValue::Float64(F64Term::Neg(_)))));
}

#[test]
fn float_comparison_is_a_term() {
    let (r, _) = bin(LiveBinOp::Lt, f64v(1.0), LiveValue::Int64(2));
    match r {
        Ok(LiveValue::Bool(BoolTerm::Compare(Comparison::Lt, a, b))) => {
            assert!(matches!(a, F64Term::Bits(_)));
            assert!(matches!(b, F64Term::FromI64(2)));
        },
        other => panic!("unexpected {:?}", other),
    }
}

#[test]
fn logic_on_a_float_comparison_stays_a_term() {
    // (1.0 < 2) || true
    let (r, index) = eval(vec![
        LiveValue::ExprBinOp(LiveBinOp::Or),
        LiveValue::ExprBinOp(LiveBinOp::Lt),
        f64v(1.0),
        LiveValue::Int64(2),
        lit(true),
        LiveValue::Close,
    ]);
    match r {
        Ok(LiveValue::Bool(BoolTerm::Or(a, b))) => {
            assert!(matches!(*a, BoolTerm::Compare(Comparison::Lt, _, _)));
            assert!(matches!(*b, BoolTerm::Lit(true)));
        },
        other => panic!("unexpected {:?}", other),
    }
    assert_eq!(index, 5);
}

#[test]
fn mixed_number_arithmetic_is_in_f64() {
    let (r, _) = bin(LiveBinOp::Add, LiveValue::Int64(1), f64v(0.5));
    match r {
        Ok(LiveValue::Float64(F64Term::Arith(ArithOp::Add, a, b))) => {
            assert!(matches!(*a, F64Term::FromI64(1)));
            assert!(matches!(*b, F64Term::Bits(_)));
        },
        other => panic!("unexpected {:?}", other),
    }
}

#[test]
fn vector_arithmetic() {
    let (r, _) = bin(LiveBinOp::Mul, vec2(1.0, 2.0), vec2(3.0, 4.0));
    assert!(matches!(r, Ok(LiveValue::Vec2(VecTerm::Arith(ArithOp::Mul, _, _)))));
    let (r, _) = bin(LiveBinOp::Add, vec2(1.0, 2.0), LiveValue::Int64(1));
    match r {
        Ok(LiveValue::Vec2(VecTerm::Scalar(ArithOp::Add, v, s))) => {
            assert!(matches!(*v, VecTerm::Bits2(_, _)));
            assert!(matches!(s, F32Term::FromI64(1)));
        },
        other => panic!("unexpected {:?}", other),
    }
}

#[test]
fn scalar_minus_vector_is_vector_minus_scalar() {
    let a = bin(LiveBinOp::Sub, LiveValue::Int64(1), vec2(5.0, 6.0)).0;
    let b = bin(LiveBinOp::Sub, vec2(5.0, 6.0), LiveValue::Int64(1)).0;
    assert_eq!(shown(&a), shown(&b));
    assert!(matches!(a, Ok(LiveValue::Vec2(VecTerm::Scalar(ArithOp::Sub, _, F32Term::FromI64(1))))));
}

#[test]
fn vectors_of_different_sizes_do_not_add() {
    let (r, index) = bin(LiveBinOp::Add, vec2(1.0, 2.0), vec4(1.0, 2.0, 3.0, 4.0));
    match r {
        Err(LiveError { kind: LiveEvalErrorKind::BinOpUndefined { op: LiveBinOp::Add, a: LiveValue::Vec2(_), b: LiveValue::Vec4(_) }, span }) => {
            assert_eq!(span.token_index, 4)
        },
        other => panic!("unexpected {:?}", other),
    }
    assert_eq!(index, 4);
}

#[test]
fn vector_equality_is_a_term() {
    let (r, _) = bin(LiveBinOp::Ne, vec2(1.0, 2.0), vec2(1.0, 2.0));
    assert!(matches!(r, Ok(LiveValue::Bool(BoolTerm::VecNe(_, _)))));
}

#[test]
fn boolean_plus_integer_is_undefined() {
    let (r, index) = bin(LiveBinOp::Add, lit(true), LiveValue::Int64(1));
    match r {
        Err(LiveError {
            kind: LiveEvalErrorKind::BinOpUndefined { op: LiveBinOp::Add, a: LiveValue::Bool(_), b: LiveValue::Int64(1) },
            span,
        }) => assert_eq!(span.token_index, 4),
        other => panic!("unexpected {:?}", other),
    }
    assert_eq!(index, 4);
}

#[test]
fn ordering_of_booleans_is_undefined() {
    let (r, _) = bin(LiveBinOp::Lt, lit(true), lit(false));
    assert!(matches!(r, Err(LiveError { kind: LiveEvalErrorKind::BinOpUndefined { op: LiveBinOp::Lt, .. }, .. })));
}

#[test]
fn not_of_an_integer_is_undefined() {
    let (r, index) = eval(vec![LiveValue::ExprUnOp(LiveUnOp::Not), LiveValue::Int64(3), LiveValue::Close]);
    match r {
        Err(LiveError { kind: LiveEvalErrorKind::UnOpUndefined { op: LiveUnOp::Not, a: LiveValue::Int64(3) }, span }) => {
            assert_eq!(span.token_index, 2)
        },
        other => panic!("unexpected {:?}", other),
    }
    assert_eq!(index, 2);
}

#[test]
fn operand_error_propagates() {
    // 1 + <Close>: the second operand cannot be evaluated
    let (r, index) = eval(vec![LiveValue::ExprBinOp(LiveBinOp::Add), LiveValue::Int64(1), LiveValue::Close]);
    match r {
        Err(LiveError { kind: LiveEvalErrorKind::WrongValueInExpression { .. }, span }) => assert_eq!(span.token_index, 2),
        other => panic!("unexpected {:?}", other),
    }
    assert_eq!(index, 2);
}

#[test]
fn pow_of_two_floats() {
    let (r, index) = eval(vec![
        LiveValue::ExprCall { ident: LiveId(LIVE_ID_POW), args: 2 },
        f64v(2.0),
        f64v(3.0),
        LiveValue::Close,
    ]);
    assert!(matches!(r, Ok(LiveValue::Float64(F64Term::Pow(_, _)))));
    assert_eq!(index, 3);
}

#[test]
fn pow_of_integers_is_not_implemented() {
    let (r, index) = eval(vec![
        LiveValue::ExprCall { ident: LiveId(LIVE_ID_POW), args: 2 },
        LiveValue::Int64(2),
        LiveValue::Int64(3),
        LiveValue::Close,
    ]);
    match r {
        Err(LiveError { kind: LiveEvalErrorKind::CallNotImplemented { ident, args: 2 }, span }) => {
            assert_eq!(ident, LiveId(LIVE_ID_POW));
            assert_eq!(span.token_index, 3);
        },
        other => panic!("unexpected {:?}", other),
    }
    assert_eq!(index, 3);
}

#[test]
fn unknown_function_is_not_implemented_before_its_arguments() {
    let (r, index) = eval(vec![
        LiveValue::ExprCall { ident: LiveId(12345), args: 1 },
        LiveValue::Int64(2),
        LiveValue::Close,
    ]);
    match r {
        Err(LiveError { kind: LiveEvalErrorKind::CallNotImplemented { args: 1, .. }, span }) => assert_eq!(span.token_index, 1),
        other => panic!("unexpected {:?}", other),
    }
    assert_eq!(index, 1);
}

#[test]
fn wrong_number_of_arguments_is_not_implemented() {
    let (r, index) = eval(vec![
        LiveValue::ExprCall { ident: LiveId(LIVE_ID_POW), args: 1 },
        f64v(2.0),
        LiveValue::Close,
    ]);
    assert!(matches!(r, Err(LiveError { kind: LiveEvalErrorKind::CallNotImplemented { args: 1, .. }, .. })));
    assert_eq!(index, 1);
}

#[test]
fn blend_takes_colors() {
    let (r, index) = eval(vec![
        LiveValue::ExprCall { ident: LiveId(LIVE_ID_BLEND), args: 2 },
        LiveValue::Color(0xff0000ff),
        vec4(0.0, 0.0, 1.0, 0.5),
        LiveValue::Close,
    ]);
    match r {
        Ok(LiveValue::Vec4(VecTerm::Blend(a, b))) => {
            assert!(matches!(*a, VecTerm::FromColor(0xff0000ff)));
            assert!(matches!(*b, VecTerm::Bits4(_, _, _, _)));
        },
        other => panic!("unexpected {:?}", other),
    }
    assert_eq!(index, 3);
}

#[test]
fn mix_by_a_float_or_by_a_vector() {
    let (r, _) = eval(vec![
        LiveValue::ExprCall { ident: LiveId(LIVE_ID_MIX), args: 3 },
        vec4(0.0, 0.0, 0.0, 0.0),
        vec4(1.0, 1.0, 1.0, 1.0),
        f64v(0.25),
        LiveValue::Close,
    ]);
    assert!(matches!(r, Ok(LiveValue::Vec4(VecTerm::Mix(_, _, F32Term::FromF64(_))))));
    let (r, _) = eval(vec![
        LiveValue::ExprCall { ident: LiveId(LIVE_ID_MIX), args: 3 },
        vec4(0.0, 0.0, 0.0, 0.0),
        vec4(1.0, 1.0, 1.0, 1.0),
        LiveValue::Color(0x80808080),
        LiveValue::Close,
    ]);
    assert!(matches!(r, Ok(LiveValue::Vec4(VecTerm::MixVec(_, _, _)))));
    let (r, index) = eval(vec![
        LiveValue::ExprCall { ident: LiveId(LIVE_ID_MIX), args: 3 },
        vec4(0.0, 0.0, 0.0, 0.0),
        vec4(1.0, 1.0, 1.0, 1.0),
        LiveValue::Int64(1),
        LiveValue::Close,
    ]);
    assert!(matches!(r, Err(LiveError { kind: LiveEvalErrorKind::CallNotImplemented { args: 3, .. }, .. })));
    assert_eq!(index, 4);
}

#[test]
fn hsvmod_of_a_color() {
    let (r, index) = eval(vec![
        LiveValue::ExprCall { ident: LiveId(LIVE_ID_HSVMOD), args: 4 },
        LiveValue::Color(0x336699ff),
        f64v(30.0),
        f64v(0.1),
        f64v(-0.1),
        LiveValue::Close,
    ]);
    assert!(matches!(r, Ok(LiveValue::Vec4(VecTerm::HsvMod(_, _, _, _)))));
    assert_eq!(index, 5);
}

#[test]
fn double_negation_gives_back_the_integer() {
    let (r, index) = eval(vec![
        LiveValue::ExprUnOp(LiveUnOp::Neg),
        LiveValue::ExprUnOp(LiveUnOp::Neg),
        LiveValue::Int64(-17),
        LiveValue::Close,
    ]);
    assert!(matches!(r, Ok(LiveValue::Int64(-17))));
    assert_eq!(index, 3);
}

#[test]
fn equality_is_defined_both_ways() {
    let a = bin(LiveBinOp::Eq, LiveValue::Int64(2), f64v(2.0)).0;
    let b = bin(LiveBinOp::Eq, f64v(2.0), LiveValue::Int64(2)).0;
    assert!(matches!(a, Ok(LiveValue::Bool(BoolTerm::Compare(Comparison::Eq, F64Term::FromI64(2), F64Term::Bits(_))))));
    assert!(matches!(b, Ok(LiveValue::Bool(BoolTerm::Compare(Comparison::Eq, F64Term::Bits(_), F64Term::FromI64(2))))));
    let c = bin(LiveBinOp::Eq, LiveValue::Int64(3), LiveValue::Int64(5)).0;
    let d = bin(LiveBinOp::Eq, LiveValue::Int64(5), LiveValue::Int64(3)).0;
    assert_eq!(shown(&c), shown(&d));
}

#[test]
fn float32_is_not_an_operand() {
    let (r, _) = bin(LiveBinOp::Add, LiveValue::Float32(1.0f32.to_bits()), LiveValue::Int64(1));
    assert!(matches!(r, Err(LiveError { kind: LiveEvalErrorKind::BinOpUndefined { .. }, .. })));
}
