//! Floating-point quantities as terms.
//!
//! The evaluator never computes a floating-point number itself: it builds a term
//! that names the IEEE operations to carry out and the bit patterns of the
//! literals they start from. Booleans that come from comparing floats are terms
//! too; booleans and integers that come from booleans and integers alone are
//! computed outright.

use vstd::prelude::*;

verus! {

/// An arithmetic operator, applied in `f64` to scalars and component-wise in `f32` to vectors.
#[derive(Clone, Copy, Debug, PartialEq, Eq, Structural)]
pub enum ArithOp {
    Add,
    Sub,
    Mul,
    Div,
}

/// A comparison between two `f64` quantities.
#[derive(Clone, Copy, Debug, PartialEq, Eq, Structural)]
pub enum Comparison {
    Eq,
    Ne,
    Lt,
    Le,
    Gt,
    Ge,
}

/// A quantity of type `f64`.
#[derive(Debug)]
pub enum F64Term {
    /// The `f64` whose bit pattern this is.
    Bits(u64),
    /// The integer converted with `as f64`.
    FromI64(i64),
    /// Negation.
    Neg(Box<F64Term>),
    /// `a op b` in `f64`.
    Arith(ArithOp, Box<F64Term>, Box<F64Term>),
    /// `a.powf(b)`.
    Pow(Box<F64Term>, Box<F64Term>),
}

/// A scalar converted with `as f32`, as it is combined with the components of a vector.
#[derive(Debug)]
pub enum F32Term {
    /// An integer converted with `as f32`.
    FromI64(i64),
    /// An `f64` quantity converted with `as f32`.
    FromF64(F64Term),
}

/// A vector of two, three or four `f32` components; the value that holds it says how many.
#[derive(Debug)]
pub enum VecTerm {
    /// Two components by their bit patterns.
    Bits2(u32, u32),
    /// Three components by their bit patterns.
    Bits3(u32, u32, u32),
    /// Four components by their bit patterns.
    Bits4(u32, u32, u32, u32),
    /// The four channels of a packed `0xRRGGBBAA` color, each scaled to `0.0..=1.0`.
    FromColor(u32),
    /// `a op b`, component by component.
    Arith(ArithOp, Box<VecTerm>, Box<VecTerm>),
    /// `v op s`, the scalar applied to every component.
    Scalar(ArithOp, Box<VecTerm>, F32Term),
    /// `a + (b - a) * b.w` in the first three components; the fourth is `a.w`.
    Blend(Box<VecTerm>, Box<VecTerm>),
    /// `a + (b - a) * t` in every component.
    Mix(Box<VecTerm>, Box<VecTerm>, F32Term),
    /// `a + (b - a) * c`, component by component.
    MixVec(Box<VecTerm>, Box<VecTerm>, Box<VecTerm>),
    /// The color converted to hue, saturation, value and alpha, the hue moved by
    /// `h / 360` (wrapped into `0..360`), `s` added to the saturation and `v` to the
    /// value, and converted back.
    HsvMod(Box<VecTerm>, F64Term, F64Term, F64Term),
}

/// A boolean.
#[derive(Debug)]
pub enum BoolTerm {
    /// A known boolean.
    Lit(bool),
    /// Negation.
    Not(Box<BoolTerm>),
    /// Disjunction.
    Or(Box<BoolTerm>, Box<BoolTerm>),
    /// Conjunction.
    And(Box<BoolTerm>, Box<BoolTerm>),
    /// Whether two booleans are equal.
    Eq(Box<BoolTerm>, Box<BoolTerm>),
    /// Whether two booleans differ.
    Ne(Box<BoolTerm>, Box<BoolTerm>),
    /// A comparison of two `f64` quantities.
    Compare(Comparison, F64Term, F64Term),
    /// Whether two vectors are equal in every component.
    VecEq(VecTerm, VecTerm),
    /// Whether two vectors differ in some component.
    VecNe(VecTerm, VecTerm),
}

/// The negation of a boolean; a known boolean is negated outright.
pub open spec fn bool_not(a: BoolTerm) -> BoolTerm {
    match a {
        BoolTerm::Lit(x) => BoolTerm::Lit(!x),
        _ => BoolTerm::Not(Box::new(a)),
    }
}

/// The disjunction of two booleans; two known booleans give a known boolean.
pub open spec fn bool_or(a: BoolTerm, b: BoolTerm) -> BoolTerm {
    match (a, b) {
        (BoolTerm::Lit(x), BoolTerm::Lit(y)) => BoolTerm::Lit(x || y),
        _ => BoolTerm::Or(Box::new(a), Box::new(b)),
    }
}

/// The conjunction of two booleans; two known booleans give a known boolean.
pub open spec fn bool_and(a: BoolTerm, b: BoolTerm) -> BoolTerm {
    match (a, b) {
        (BoolTerm::Lit(x), BoolTerm::Lit(y)) => BoolTerm::Lit(x && y),
        _ => BoolTerm::And(Box::new(a), Box::new(b)),
    }
}

/// Whether two booleans are equal (`ne` false) or differ (`ne` true); two known
/// booleans give a known boolean.
pub open spec fn bool_eq(ne: bool, a: BoolTerm, b: BoolTerm) -> BoolTerm {
    match (a, b) {
        (BoolTerm::Lit(x), BoolTerm::Lit(y)) => BoolTerm::Lit(if ne { x != y } else { x == y }),
        _ => if ne {
            BoolTerm::Ne(Box::new(a), Box::new(b))
        } else {
            BoolTerm::Eq(Box::new(a), Box::new(b))
        },
    }
}

/// Negates a boolean.
pub fn not_term(a: BoolTerm) -> (r: BoolTerm)
    ensures
        r == bool_not(a),
        a matches BoolTerm::Lit(x) ==> r == BoolTerm::Lit(!x),
        !(a is Lit) ==> r == BoolTerm::Not(Box::new(a)),
{
    match a {
        BoolTerm::Lit(x) => BoolTerm::Lit(!x),
        _ => BoolTerm::Not(Box::new(a)),
    }
}

/// Joins two booleans with `||`.
pub fn or_term(a: BoolTerm, b: BoolTerm) -> (r: BoolTerm)
    ensures
        r == bool_or(a, b),
        a is Lit && b is Lit ==> r == BoolTerm::Lit(a->Lit_0 || b->Lit_0),
        !(a is Lit && b is Lit) ==> r == BoolTerm::Or(Box::new(a), Box::new(b)),
{
    if let BoolTerm::Lit(x) = a {
        if let BoolTerm::Lit(y) = b {
            return BoolTerm::Lit(x || y);
        }
    }
    BoolTerm::Or(Box::new(a), Box::new(b))
}

/// Joins two booleans with `&&`.
pub fn and_term(a: BoolTerm, b: BoolTerm) -> (r: BoolTerm)
    ensures
        r == bool_and(a, b),
        a is Lit && b is Lit ==> r == BoolTerm::Lit(a->Lit_0 && b->Lit_0),
        !(a is Lit && b is Lit) ==> r == BoolTerm::And(Box::new(a), Box::new(b)),
{
    if let BoolTerm::Lit(x) = a {
        if let BoolTerm::Lit(y) = b {
            return BoolTerm::Lit(x && y);
        }
    }
    BoolTerm::And(Box::new(a), Box::new(b))
}

/// Compares two booleans with `==` (`ne` false) or `!=` (`ne` true).
pub fn eq_term(ne: bool, a: BoolTerm, b: BoolTerm) -> (r: BoolTerm)
    ensures
        r == bool_eq(ne, a, b),
        a is Lit && b is Lit ==> r == BoolTerm::Lit(if ne { a->Lit_0 != b->Lit_0 } else { a->Lit_0 == b->Lit_0 }),
        !(a is Lit && b is Lit) ==> r == if ne {
            BoolTerm::Ne(Box::new(a), Box::new(b))
        } else {
            BoolTerm::Eq(Box::new(a), Box::new(b))
        },
{
    if let BoolTerm::Lit(x) = a {
        if let BoolTerm::Lit(y) = b {
            return BoolTerm::Lit(if ne { x != y } else { x == y });
        }
    }
    if ne {
        BoolTerm::Ne(Box::new(a), Box::new(b))
    } else {
        BoolTerm::Eq(Box::new(a), Box::new(b))
    }
}

impl F64Term {
    /// A copy of the term.
    pub fn duplicate(&self) -> (r: F64Term)
        ensures
            r == *self,
        decreases self,
    {
        match self {
            F64Term::Bits(x) => F64Term::Bits(*x),
            F64Term::FromI64(x) => F64Term::FromI64(*x),
            F64Term::Neg(a) => F64Term::Neg(Box::new(a.duplicate())),
            F64Term::Arith(op, a, b) => F64Term::Arith(*op, Box::new(a.duplicate()), Box::new(b.duplicate())),
            F64Term::Pow(a, b) => F64Term::Pow(Box::new(a.duplicate()), Box::new(b.duplicate())),
        }
    }
}

impl F32Term {
    /// A copy of the term.
    pub fn duplicate(&self) -> (r: F32Term)
        ensures
            r == *self,
    {
        match self {
            F32Term::FromI64(x) => F32Term::FromI64(*x),
            F32Term::FromF64(a) => F32Term::FromF64(a.duplicate()),
        }
    }
}

impl VecTerm {
    /// A copy of the term.
    pub fn duplicate(&self) -> (r: VecTerm)
        ensures
            r == *self,
        decreases self,
    {
        match self {
            VecTerm::Bits2(x, y) => VecTerm::Bits2(*x, *y),
            VecTerm::Bits3(x, y, z) => VecTerm::Bits3(*x, *y, *z),
            VecTerm::Bits4(x, y, z, w) => VecTerm::Bits4(*x, *y, *z, *w),
            VecTerm::FromColor(c) => VecTerm::FromColor(*c),
            VecTerm::Arith(op, a, b) => VecTerm::Arith(*op, Box::new(a.duplicate()), Box::new(b.duplicate())),
            VecTerm::Scalar(op, a, s) => VecTerm::Scalar(*op, Box::new(a.duplicate()), s.duplicate()),
            VecTerm::Blend(a, b) => VecTerm::Blend(Box::new(a.duplicate()), Box::new(b.duplicate())),
            VecTerm::Mix(a, b, t) => VecTerm::Mix(Box::new(a.duplicate()), Box::new(b.duplicate()), t.duplicate()),
            VecTerm::MixVec(a, b, c) => VecTerm::MixVec(
                Box::new(a.duplicate()),
                Box::new(b.duplicate()),
                Box::new(c.duplicate()),
            ),
            VecTerm::HsvMod(a, h, s, v) => VecTerm::HsvMod(
                Box::new(a.duplicate()),
                h.duplicate(),
                s.duplicate(),
                v.duplicate(),
            ),
        }
    }
}

impl BoolTerm {
    /// A copy of the term.
    pub fn duplicate(&self) -> (r: BoolTerm)
        ensures
            r == *self,
        decreases self,
    {
        match self {
            BoolTerm::Lit(x) => BoolTerm::Lit(*x),
            BoolTerm::Not(a) => BoolTerm::Not(Box::new(a.duplicate())),
            BoolTerm::Or(a, b) => BoolTerm::Or(Box::new(a.duplicate()), Box::new(b.duplicate())),
            BoolTerm::And(a, b) => BoolTerm::And(Box::new(a.duplicate()), Box::new(b.duplicate())),
            BoolTerm::Eq(a, b) => BoolTerm::Eq(Box::new(a.duplicate()), Box::new(b.duplicate())),
            BoolTerm::Ne(a, b) => BoolTerm::Ne(Box::new(a.duplicate()), Box::new(b.duplicate())),
            BoolTerm::Compare(op, a, b) => BoolTerm::Compare(*op, a.duplicate(), b.duplicate()),
            BoolTerm::VecEq(a, b) => BoolTerm::VecEq(a.duplicate(), b.duplicate()),
            BoolTerm::VecNe(a, b) => BoolTerm::VecNe(a.duplicate(), b.duplicate()),
        }
    }
}

} // verus!
