//! The values that live nodes hold.

use std::collections::HashMap;
use vstd::prelude::*;

use crate::live_id::LiveId;
use crate::terms::{BoolTerm, F64Term, VecTerm};

verus! {

/// A unary operator of an expression.
#[derive(Clone, Copy, Debug, PartialEq, Eq, Structural)]
pub enum LiveUnOp {
    Not,
    Neg,
}

/// A binary operator of an expression.
#[derive(Clone, Copy, Debug, PartialEq, Eq, Structural)]
pub enum LiveBinOp {
    Or,
    And,
    Eq,
    Ne,
    Lt,
    Le,
    Gt,
    Ge,
    Add,
    Sub,
    Mul,
    Div,
}

/// The index of a live file in the registry.
#[derive(Clone, Copy, Debug, PartialEq, Eq, Structural)]
pub struct LiveFileId(pub u16);

/// The generation of a live file, counted up each time the file is reloaded.
#[derive(Clone, Copy, Debug, PartialEq, Eq, Structural)]
pub struct LiveFileGeneration(pub u16);

/// A pointer to a node of the expanded document of a live file.
#[derive(Clone, Copy, Debug, PartialEq, Eq, Structural)]
pub struct LivePtr {
    pub file_id: LiveFileId,
    pub index: u32,
    pub generation: LiveFileGeneration,
}

/// What a name in scope stands for: a node of some file's document, or a node of
/// the document that holds the scope.
#[derive(Clone, Copy, Debug, PartialEq, Eq, Structural)]
pub enum LiveScopeTarget {
    LivePtr(LivePtr),
    LocalPtr(usize),
}

/// The value of a live node.
///
/// Floating-point quantities and booleans are terms (see [`crate::terms`]); a literal
/// node holds a literal term.
#[derive(Debug)]
pub enum LiveValue {
    /// A string from the program's text.
    Str(String),
    /// A string owned by the document.
    String(String),
    /// A short string kept in the node itself.
    InlineString(String),
    /// The path of a resource that the document depends on.
    Dependency(String),
    Bool(BoolTerm),
    Int64(i64),
    Uint64(u64),
    /// An `f32` by its bit pattern.
    Float32(u32),
    Float64(F64Term),
    /// A color packed as `0xRRGGBBAA`.
    Color(u32),
    Vec2(VecTerm),
    Vec3(VecTerm),
    Vec4(VecTerm),
    /// A name, to be looked up in the scope.
    Id(LiveId),
    /// The first node of a document, with the names that are in scope in it.
    Root { id_resolve: HashMap<u64, LiveScopeTarget> },
    /// Opens an array; its children follow, up to the matching `Close`.
    Array,
    /// Opens an object; its children follow, up to the matching `Close`.
    Object,
    /// Opens an object that starts as a copy of the named one.
    Clone(LiveId),
    /// Closes the innermost open node.
    Close,
    /// Opens an expression; its first child is the expression's top operator or operand.
    Expr,
    /// A unary operator; its operand follows.
    ExprUnOp(LiveUnOp),
    /// A binary operator; its two operands follow.
    ExprBinOp(LiveBinOp),
    /// A call of a built-in function with `args` arguments, which follow.
    ExprCall { ident: LiveId, args: usize },
}

impl LiveValue {
    /// Whether the node opens a scope that a `Close` ends.
    pub open spec fn spec_is_open(&self) -> bool {
        match self {
            LiveValue::Root { .. } | LiveValue::Array | LiveValue::Object | LiveValue::Clone(_)
            | LiveValue::Expr => true,
            _ => false,
        }
    }

    /// Whether the node ends a scope.
    pub open spec fn spec_is_close(&self) -> bool {
        self is Close
    }

    /// Whether the node opens an object.
    pub open spec fn spec_is_object(&self) -> bool {
        self is Object || self is Clone
    }

    /// Whether the value is a literal: a string, a number, a vector, a color or a boolean.
    pub open spec fn is_literal(&self) -> bool {
        match self {
            LiveValue::Str(_) | LiveValue::InlineString(_) | LiveValue::Dependency(_)
            | LiveValue::String(_) | LiveValue::Float32(_) | LiveValue::Float64(_)
            | LiveValue::Uint64(_) | LiveValue::Int64(_) | LiveValue::Vec2(_)
            | LiveValue::Vec3(_) | LiveValue::Vec4(_) | LiveValue::Color(_)
            | LiveValue::Bool(_) => true,
            _ => false,
        }
    }

    /// Whether two values are the same. Scope tables are compared by their contents.
    pub open spec fn same(self, other: LiveValue) -> bool {
        match (self, other) {
            (LiveValue::Root { id_resolve: a }, LiveValue::Root { id_resolve: b }) => a@ == b@,
            _ => self == other,
        }
    }

    #[verifier::when_used_as_spec(spec_is_open)]
    pub fn is_open(&self) -> (r: bool)
        ensures
            r == self.spec_is_open(),
    {
        match self {
            LiveValue::Root { .. } | LiveValue::Array | LiveValue::Object | LiveValue::Clone(_)
            | LiveValue::Expr => true,
            _ => false,
        }
    }

    #[verifier::when_used_as_spec(spec_is_close)]
    pub fn is_close(&self) -> (r: bool)
        ensures
            r == self.spec_is_close(),
    {
        match self {
            LiveValue::Close => true,
            _ => false,
        }
    }

    #[verifier::when_used_as_spec(spec_is_object)]
    pub fn is_object(&self) -> (r: bool)
        ensures
            r == self.spec_is_object(),
    {
        match self {
            LiveValue::Object | LiveValue::Clone(_) => true,
            _ => false,
        }
    }

    /// A copy of the value.
    pub fn duplicate(&self) -> (r: LiveValue)
        ensures
            r.same(*self),
    {
        match self {
            LiveValue::Str(s) => LiveValue::Str(s.clone()),
            LiveValue::String(s) => LiveValue::String(s.clone()),
            LiveValue::InlineString(s) => LiveValue::InlineString(s.clone()),
            LiveValue::Dependency(s) => LiveValue::Dependency(s.clone()),
            LiveValue::Bool(t) => LiveValue::Bool(t.duplicate()),
            LiveValue::Int64(x) => LiveValue::Int64(*x),
            LiveValue::Uint64(x) => LiveValue::Uint64(*x),
            LiveValue::Float32(x) => LiveValue::Float32(*x),
            LiveValue::Float64(t) => LiveValue::Float64(t.duplicate()),
            LiveValue::Color(c) => LiveValue::Color(*c),
            LiveValue::Vec2(t) => LiveValue::Vec2(t.duplicate()),
            LiveValue::Vec3(t) => LiveValue::Vec3(t.duplicate()),
            LiveValue::Vec4(t) => LiveValue::Vec4(t.duplicate()),
            LiveValue::Id(id) => LiveValue::Id(*id),
            LiveValue::Root { id_resolve } => LiveValue::Root { id_resolve: id_resolve.clone() },
            LiveValue::Array => LiveValue::Array,
            LiveValue::Object => LiveValue::Object,
            LiveValue::Clone(id) => LiveValue::Clone(*id),
            LiveValue::Close => LiveValue::Close,
            LiveValue::Expr => LiveValue::Expr,
            LiveValue::ExprUnOp(op) => LiveValue::ExprUnOp(*op),
            LiveValue::ExprBinOp(op) => LiveValue::ExprBinOp(*op),
            LiveValue::ExprCall { ident, args } => LiveValue::ExprCall { ident: *ident, args: *args },
        }
    }
}

} // verus!
