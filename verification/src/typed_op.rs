//! Operations with their stack effects, as the type checker gives them.

use vstd::prelude::*;
use crate::types::{Ty, TypeKind, models_of};

verus! {

/// The mathematical form of what a typed operation does.
pub enum TypedKind {
    PushBool(bool),
    PushInt(i64),
    PushList(Seq<TypedModel>),
    PushBlock(Seq<TypedModel>),
    Plus,
    Minus,
    Multiply,
    Divide,
    Modulo,
    LessThan,
    LessThanEquals,
    GreaterThan,
    GreaterThanEquals,
    Equals,
    Not,
    And,
    Or,
    Identity,
    Over,
    Pop,
    Rot,
    Swap,
    Dup,
    Print,
    Concat,
    Head,
    Tail,
    Push,
    Do,
    Filter,
    Fold,
    Foreach,
    Len,
    MapEach,
    DumpStack,
    DefineFunction { name: Seq<char>, block: Box<TypedModel> },
    Call(Seq<char>),
    Binding { bindings: Seq<Seq<char>>, body: Seq<TypedModel> },
    Value(Seq<char>),
    If { body: Seq<TypedModel>, else_body: Option<Seq<TypedModel>> },
}

/// The mathematical form of a typed operation: what it does and its stack effect,
/// each side bottom of the stack first.
#[verifier::ext_equal]
pub struct TypedModel {
    pub kind: TypedKind,
    pub ins: Seq<Ty>,
    pub outs: Seq<Ty>,
}

/// What a typed operation does.
#[derive(Debug)]
pub enum TypedOpKind {
    PushBool(bool),
    PushInt(i64),
    PushList(Vec<TypedOp>),
    PushBlock(Vec<TypedOp>),
    Plus,
    Minus,
    Multiply,
    Divide,
    Modulo,
    LessThan,
    LessThanEquals,
    GreaterThan,
    GreaterThanEquals,
    Equals,
    Not,
    And,
    Or,
    Identity,
    Over,
    Pop,
    Rot,
    Swap,
    Dup,
    Print,
    Concat,
    Head,
    Tail,
    Push,
    Do,
    Filter,
    Fold,
    Foreach,
    Len,
    MapEach,
    DumpStack,
    /// The definition of a named function; `block` is its body as a typed quotation.
    DefineFunction { name: String, block: Box<TypedOp> },
    /// A call of a named function.
    Call(String),
    /// The names bound, the name for the top of the stack first, and the body.
    Binding { bindings: Vec<String>, body: Vec<TypedOp> },
    /// The value of a bound name.
    Value(String),
    If { body: Vec<TypedOp>, else_body: Option<Vec<TypedOp>> },
}

/// An operation with its stack effect: the types it takes and the types it leaves,
/// each bottom of the stack first.
#[derive(Debug)]
pub struct TypedOp {
    pub kind: TypedOpKind,
    pub ins: Vec<TypeKind>,
    pub outs: Vec<TypeKind>,
}

/// The texts of the strings in `names`, in order.
pub open spec fn names_of(names: Seq<String>) -> Seq<Seq<char>> {
    Seq::new(names.len(), |i: int| names[i]@)
}

/// The mathematical form of `op`.
pub open spec fn typed_model(op: TypedOp) -> TypedModel
    decreases op, 1nat,
{
    TypedModel { kind: typed_kind(op.kind), ins: models_of(op.ins@), outs: models_of(op.outs@) }
}

/// The mathematical form of `kind`.
pub open spec fn typed_kind(kind: TypedOpKind) -> TypedKind
    decreases kind, 0nat,
{
    match kind {
        TypedOpKind::PushBool(b) => TypedKind::PushBool(b),
        TypedOpKind::PushInt(v) => TypedKind::PushInt(v),
        TypedOpKind::PushList(ops) => TypedKind::PushList(typed_models(ops@)),
        TypedOpKind::PushBlock(ops) => TypedKind::PushBlock(typed_models(ops@)),
        TypedOpKind::Plus => TypedKind::Plus,
        TypedOpKind::Minus => TypedKind::Minus,
        TypedOpKind::Multiply => TypedKind::Multiply,
        TypedOpKind::Divide => TypedKind::Divide,
        TypedOpKind::Modulo => TypedKind::Modulo,
        TypedOpKind::LessThan => TypedKind::LessThan,
        TypedOpKind::LessThanEquals => TypedKind::LessThanEquals,
        TypedOpKind::GreaterThan => TypedKind::GreaterThan,
        TypedOpKind::GreaterThanEquals => TypedKind::GreaterThanEquals,
        TypedOpKind::Equals => TypedKind::Equals,
        TypedOpKind::Not => TypedKind::Not,
        TypedOpKind::And => TypedKind::And,
        TypedOpKind::Or => TypedKind::Or,
        TypedOpKind::Identity => TypedKind::Identity,
        TypedOpKind::Over => TypedKind::Over,
        TypedOpKind::Pop => TypedKind::Pop,
        TypedOpKind::Rot => TypedKind::Rot,
        TypedOpKind::Swap => TypedKind::Swap,
        TypedOpKind::Dup => TypedKind::Dup,
        TypedOpKind::Print => TypedKind::Print,
        TypedOpKind::Concat => TypedKind::Concat,
        TypedOpKind::Head => TypedKind::Head,
        TypedOpKind::Tail => TypedKind::Tail,
        TypedOpKind::Push => TypedKind::Push,
        TypedOpKind::Do => TypedKind::Do,
        TypedOpKind::Filter => TypedKind::Filter,
        TypedOpKind::Fold => TypedKind::Fold,
        TypedOpKind::Foreach => TypedKind::Foreach,
        TypedOpKind::Len => TypedKind::Len,
        TypedOpKind::MapEach => TypedKind::MapEach,
        TypedOpKind::DumpStack => TypedKind::DumpStack,
        TypedOpKind::DefineFunction { name, block } => TypedKind::DefineFunction {
            name: name@,
            block: Box::new(typed_model(*block)),
        },
        TypedOpKind::Call(name) => TypedKind::Call(name@),
        TypedOpKind::Binding { bindings, body } => TypedKind::Binding {
            bindings: names_of(bindings@),
            body: typed_models(body@),
        },
        TypedOpKind::Value(name) => TypedKind::Value(name@),
        TypedOpKind::If { body, else_body } => TypedKind::If {
            body: typed_models(body@),
            else_body: match else_body {
                Some(ops) => Some(typed_models(ops@)),
                None => None,
            },
        },
    }
}

/// The mathematical forms of the operations in `ops`, in order.
pub open spec fn typed_models(ops: Seq<TypedOp>) -> Seq<TypedModel>
    decreases ops, 2nat,
{
    Seq::new(
        ops.len(),
        |i: int|
            if 0 <= i < ops.len() {
                typed_model(ops[i])
            } else {
                TypedModel { kind: TypedKind::Pop, ins: Seq::empty(), outs: Seq::empty() }
            },
    )
}

impl View for TypedOp {
    type V = TypedModel;

    open spec fn view(&self) -> TypedModel {
        typed_model(*self)
    }
}

/// Appends `op` to `ops`.
pub fn push_typed(ops: &mut Vec<TypedOp>, op: TypedOp)
    ensures
        typed_models(final(ops)@) == typed_models(old(ops)@).push(op@),
{
    ops.push(op);
    assert(typed_models(ops@) =~= typed_models(old(ops)@).push(op@));
}

} // verus!
