//! The operations of a program as the parser gives them.

use vstd::prelude::*;
use vstd::string::*;
use crate::span::Span;
use crate::text::{decimal_text, push_wide_decimal};

verus! {

/// What an operation of a program does, before its types are known.
#[derive(Debug)]
pub enum OpKind {
    PushBool(bool),
    PushInt(i64),
    /// A list literal: the operations that push its elements.
    PushList(Vec<Op>),
    /// A quotation: the operations of its body.
    PushBlock(Vec<Op>),
    Plus,
    Minus,
    Multiply,
    Divide,
    Modulo,
    LessThan,
    LessThanEquals,
    GreaterThan,
    GreaterThanEquals,
    Equals,
    Not,
    And,
    Or,
    Identity,
    Over,
    Pop,
    Rot,
    Swap,
    Dup,
    Print,
    Concat,
    Push,
    Head,
    Tail,
    Do,
    Filter,
    Fold,
    Foreach,
    Len,
    MapEach,
    DumpStack,
    /// `fn name ( body )`.
    DefineFunction { name: String, body: Vec<Op> },
    /// A reference to a bound name or to a function.
    Identifier(String),
    /// `if ( body )`, optionally followed by `else ( else_body )`.
    If { body: Vec<Op>, else_body: Option<Vec<Op>> },
    /// `[ names ] ( body )`: the names, each with its place in the source, in the
    /// order they were written.
    Binding { bindings: Vec<(String, Span)>, body: Vec<Op> },
}

/// An operation of a program and the place it was written at.
#[derive(Debug)]
pub struct Op {
    pub kind: OpKind,
    pub span: Span,
}

/// The mathematical form of what an operation does.
pub enum OpShape {
    PushBool(bool),
    PushInt(i64),
    PushList(Seq<OpModel>),
    PushBlock(Seq<OpModel>),
    Plus,
    Minus,
    Multiply,
    Divide,
    Modulo,
    LessThan,
    LessThanEquals,
    GreaterThan,
    GreaterThanEquals,
    Equals,
    Not,
    And,
    Or,
    Identity,
    Over,
    Pop,
    Rot,
    Swap,
    Dup,
    Print,
    Concat,
    Push,
    Head,
    Tail,
    Do,
    Filter,
    Fold,
    Foreach,
    Len,
    MapEach,
    DumpStack,
    DefineFunction { name: Seq<char>, body: Seq<OpModel> },
    Identifier(Seq<char>),
    If { body: Seq<OpModel>, else_body: Option<Seq<OpModel>> },
    Binding { bindings: Seq<(Seq<char>, Span)>, body: Seq<OpModel> },
}

/// The mathematical form of an operation.
#[verifier::ext_equal]
pub struct OpModel {
    pub kind: OpShape,
    pub span: Span,
}

/// The mathematical forms of names with their places.
pub open spec fn placed_names(names: Seq<(String, Span)>) -> Seq<(Seq<char>, Span)> {
    Seq::new(names.len(), |i: int| (names[i].0@, names[i].1))
}

/// The mathematical form of `op`.
pub open spec fn op_model(op: Op) -> OpModel
    decreases op, 1nat,
{
    OpModel { kind: op_shape(op.kind), span: op.span }
}

/// The mathematical form of `kind`.
pub open spec fn op_shape(kind: OpKind) -> OpShape
    decreases kind, 0nat,
{
    match kind {
        OpKind::PushBool(b) => OpShape::PushBool(b),
        OpKind::PushInt(v) => OpShape::PushInt(v),
        OpKind::PushList(ops) => OpShape::PushList(op_models(ops@)),
        OpKind::PushBlock(ops) => OpShape::PushBlock(op_models(ops@)),
        OpKind::Plus => OpShape::Plus,
        OpKind::Minus => OpShape::Minus,
        OpKind::Multiply => OpShape::Multiply,
        OpKind::Divide => OpShape::Divide,
        OpKind::Modulo => OpShape::Modulo,
        OpKind::LessThan => OpShape::LessThan,
        OpKind::LessThanEquals => OpShape::LessThanEquals,
        OpKind::GreaterThan => OpShape::GreaterThan,
        OpKind::GreaterThanEquals => OpShape::GreaterThanEquals,
        OpKind::Equals => OpShape::Equals,
        OpKind::Not => OpShape::Not,
        OpKind::And => OpShape::And,
        OpKind::Or => OpShape::Or,
        OpKind::Identity => OpShape::Identity,
        OpKind::Over => OpShape::Over,
        OpKind::Pop => OpShape::Pop,
        OpKind::Rot => OpShape::Rot,
        OpKind::Swap => OpShape::Swap,
        OpKind::Dup => OpShape::Dup,
        OpKind::Print => OpShape::Print,
        OpKind::Concat => OpShape::Concat,
        OpKind::Push => OpShape::Push,
        OpKind::Head => OpShape::Head,
        OpKind::Tail => OpShape::Tail,
        OpKind::Do => OpShape::Do,
        OpKind::Filter => OpShape::Filter,
        OpKind::Fold => OpShape::Fold,
        OpKind::Foreach => OpShape::Foreach,
        OpKind::Len => OpShape::Len,
        OpKind::MapEach => OpShape::MapEach,
        OpKind::DumpStack => OpShape::DumpStack,
        OpKind::DefineFunction { name, body } => OpShape::DefineFunction {
            name: name@,
            body: op_models(body@),
        },
        OpKind::Identifier(name) => OpShape::Identifier(name@),
        OpKind::If { body, else_body } => OpShape::If {
            body: op_models(body@),
            else_body: match else_body {
                Some(ops) => Some(op_models(ops@)),
                None => None,
            },
        },
        OpKind::Binding { bindings, body } => OpShape::Binding {
            bindings: placed_names(bindings@),
            body: op_models(body@),
        },
    }
}

/// The mathematical forms of the operations in `ops`, in order.
pub open spec fn op_models(ops: Seq<Op>) -> Seq<OpModel>
    decreases ops, 2nat,
{
    Seq::new(
        ops.len(),
        |i: int|
            if 0 <= i < ops.len() {
                op_model(ops[i])
            } else {
                OpModel { kind: OpShape::Pop, span: Span { offset: 0, length: 0 } }
            },
    )
}

impl View for Op {
    type V = OpModel;

    open spec fn view(&self) -> OpModel {
        op_model(*self)
    }
}

/// Appends `op` to `ops`.
pub fn push_op(ops: &mut Vec<Op>, op: Op)
    ensures
        op_models(final(ops)@) == op_models(old(ops)@).push(op@),
{
    ops.push(op);
    assert(op_models(ops@) =~= op_models(old(ops)@).push(op@));
}

/// The decimal text of an integer, with a minus sign before a negative one.
pub open spec fn int_text(v: i64) -> Seq<char> {
    if v < 0 {
        "-"@ + decimal_text((-v) as nat)
    } else {
        decimal_text(v as nat)
    }
}

/// Appends the decimal text of `v` to `out`.
pub fn push_int(out: &mut String, v: i64)
    ensures
        final(out)@ == old(out)@ + int_text(v),
{
    if v < 0 {
        out.append("-");
        push_wide_decimal(out, (-(v as i128)) as u128);
        assert(out@ =~= old(out)@ + int_text(v));
    } else {
        push_wide_decimal(out, v as u128);
    }
}

/// The names of `names`, separated by single spaces: the first `n` of them.
pub open spec fn names_text(names: Seq<(Seq<char>, Span)>, n: nat) -> Seq<char>
    decreases n,
{
    if n == 0 || n > names.len() {
        Seq::empty()
    } else if n == 1 {
        names[0].0
    } else {
        names_text(names, (n - 1) as nat) + " "@ + names[n - 1].0
    }
}

/// The text that an operation is written as.
pub open spec fn op_text(op: OpModel) -> Seq<char>
    decreases op, 0nat,
{
    match op.kind {
        OpShape::PushBool(v) => if v {
            "true"@
        } else {
            "false"@
        },
        OpShape::PushInt(v) => int_text(v),
        OpShape::PushList(ops) => "["@ + ops_text(ops, ops.len()) + "]"@,
        OpShape::PushBlock(ops) => "("@ + ops_text(ops, ops.len()) + ")"@,
        OpShape::DefineFunction { name, body } => "fn "@ + name + " ("@ + ops_text(
            body,
            body.len(),
        ) + ")"@,
        OpShape::Identifier(name) => name,
        OpShape::If { body, else_body } => match else_body {
            None => "if ("@ + ops_text(body, body.len()) + ")"@,
            Some(other) => "if ("@ + ops_text(body, body.len()) + ") else ("@ + ops_text(
                other,
                other.len(),
            ) + ")"@,
        },
        OpShape::Binding { bindings, body } => "["@ + names_text(bindings, bindings.len())
            + "] ("@ + ops_text(body, body.len()) + ")"@,
        OpShape::Plus => "+"@,
        OpShape::Minus => "-"@,
        OpShape::Multiply => "*"@,
        OpShape::Divide => "/"@,
        OpShape::Modulo => "%"@,
        OpShape::LessThan => "<"@,
        OpShape::LessThanEquals => "<="@,
        OpShape::GreaterThan => ">"@,
        OpShape::GreaterThanEquals => ">="@,
        OpShape::Equals => "="@,
        OpShape::Not => "!"@,
        OpShape::And => "and"@,
        OpShape::Or => "or"@,
        OpShape::Identity => "."@,
        OpShape::Over => "over"@,
        OpShape::Pop => "pop"@,
        OpShape::Rot => "rot"@,
        OpShape::Swap => "swap"@,
        OpShape::Dup => "dup"@,
        OpShape::Print => "print"@,
        OpShape::Concat => "concat"@,
        OpShape::Push => "push"@,
        OpShape::Head => "head"@,
        OpShape::Tail => "tail"@,
        OpShape::Do => "do"@,
        OpShape::Filter => "filter"@,
        OpShape::Fold => "fold"@,
        OpShape::Foreach => "foreach"@,
        OpShape::Len => "len"@,
        OpShape::MapEach => "map"@,
        OpShape::DumpStack => "???"@,
    }
}

/// The texts of the first `n` operations of `ops`, separated by single spaces.
pub open spec fn ops_text(ops: Seq<OpModel>, n: nat) -> Seq<char>
    decreases ops, n,
{
    if n == 0 || n > ops.len() {
        Seq::empty()
    } else if n == 1 {
        op_text(ops[0])
    } else {
        ops_text(ops, (n - 1) as nat) + " "@ + op_text(ops[n - 1])
    }
}

/// Copies of the operations in `ops`, in order.
pub fn duplicate_ops(ops: &Vec<Op>) -> (r: Vec<Op>)
    ensures
        op_models(r@) == op_models(ops@),
    decreases ops, 0nat,
{
    let mut out: Vec<Op> = Vec::new();
    let mut k: usize = 0;
    while k < ops.len()
        invariant
            k <= ops.len(),
            out@.len() == k,
            forall|j: int| 0 <= j < k ==> out@[j]@ == ops@[j]@,
        decreases ops.len() - k,
    {
        out.push(ops[k].duplicate());
        k += 1;
    }
    assert(op_models(out@) =~= op_models(ops@));
    out
}

/// Appends the texts of the operations in `ops`, separated by single spaces, to `out`.
pub fn write_ops(ops: &Vec<Op>, out: &mut String)
    ensures
        final(out)@ == old(out)@ + ops_text(op_models(ops@), ops@.len()),
    decreases ops, 0nat,
{
    let mut k: usize = 0;
    assert(out@ =~= old(out)@ + ops_text(op_models(ops@), 0));
    while k < ops.len()
        invariant
            k <= ops.len(),
            out@ == old(out)@ + ops_text(op_models(ops@), k as nat),
        decreases ops.len() - k,
    {
        if k > 0 {
            out.append(" ");
        }
        ops[k].write_text(out);
        k += 1;
        assert(out@ =~= old(out)@ + ops_text(op_models(ops@), k as nat));
    }
}

impl Op {
    /// A copy of this operation.
    pub fn duplicate(&self) -> (r: Op)
        ensures
            r@ == self@,
        decreases self, 1nat,
    {
        let kind = match &self.kind {
            OpKind::PushBool(v) => OpKind::PushBool(*v),
            OpKind::PushInt(v) => OpKind::PushInt(*v),
            OpKind::PushList(ops) => OpKind::PushList(duplicate_ops(ops)),
            OpKind::PushBlock(ops) => OpKind::PushBlock(duplicate_ops(ops)),
            OpKind::DefineFunction { name, body } => OpKind::DefineFunction {
                name: name.clone(),
                body: duplicate_ops(body),
            },
            OpKind::Identifier(name) => OpKind::Identifier(name.clone()),
            OpKind::If { body, else_body } => OpKind::If {
                body: duplicate_ops(body),
                else_body: match else_body {
                    Some(other) => Some(duplicate_ops(other)),
                    None => None,
                },
            },
            OpKind::Binding { bindings, body } => {
                let mut names: Vec<(String, Span)> = Vec::new();
                let mut k: usize = 0;
                while k < bindings.len()
                    invariant
                        k <= bindings.len(),
                        names@.len() == k,
                        forall|j: int|
                            0 <= j < k ==> names@[j].0@ == bindings@[j].0@ && names@[j].1
                                == bindings@[j].1,
                    decreases bindings.len() - k,
                {
                    names.push((bindings[k].0.clone(), bindings[k].1));
                    k += 1;
                }
                assert(placed_names(names@) =~= placed_names(bindings@));
                OpKind::Binding { bindings: names, body: duplicate_ops(body) }
            },
            OpKind::Plus => OpKind::Plus,
            OpKind::Minus => OpKind::Minus,
            OpKind::Multiply => OpKind::Multiply,
            OpKind::Divide => OpKind::Divide,
            OpKind::Modulo => OpKind::Modulo,
            OpKind::LessThan => OpKind::LessThan,
            OpKind::LessThanEquals => OpKind::LessThanEquals,
            OpKind::GreaterThan => OpKind::GreaterThan,
            OpKind::GreaterThanEquals => OpKind::GreaterThanEquals,
            OpKind::Equals => OpKind::Equals,
            OpKind::Not => OpKind::Not,
            OpKind::And => OpKind::And,
            OpKind::Or => OpKind::Or,
            OpKind::Identity => OpKind::Identity,
            OpKind::Over => OpKind::Over,
            OpKind::Pop => OpKind::Pop,
            OpKind::Rot => OpKind::Rot,
            OpKind::Swap => OpKind::Swap,
            OpKind::Dup => OpKind::Dup,
            OpKind::Print => OpKind::Print,
            OpKind::Concat => OpKind::Concat,
            OpKind::Push => OpKind::Push,
            OpKind::Head => OpKind::Head,
            OpKind::Tail => OpKind::Tail,
            OpKind::Do => OpKind::Do,
            OpKind::Filter => OpKind::Filter,
            OpKind::Fold => OpKind::Fold,
            OpKind::Foreach => OpKind::Foreach,
            OpKind::Len => OpKind::Len,
            OpKind::MapEach => OpKind::MapEach,
            OpKind::DumpStack => OpKind::DumpStack,
        };
        Op { kind, span: self.span }
    }

    /// The text that this operation is written as.
    pub fn to_text(&self) -> (r: String)
        ensures
            r@ == op_text(self@),
    {
        let mut out = String::new();
        self.write_text(&mut out);
        assert(out@ =~= op_text(self@));
        out
    }

    /// Appends the text that this operation is written as to `out`.
    pub fn write_text(&self, out: &mut String)
        ensures
            final(out)@ == old(out)@ + op_text(self@),
        decreases self, 1nat,
    {
        match &self.kind {
            OpKind::PushBool(v) => {
                if *v {
                    out.append("true");
                } else {
                    out.append("false");
                }
            },
            OpKind::PushInt(v) => {
                push_int(out, *v);
            },
            OpKind::PushList(ops) => {
                out.append("[");
                write_ops(ops, out);
                out.append("]");
            },
            OpKind::PushBlock(ops) => {
                out.append("(");
                write_ops(ops, out);
                out.append(")");
            },
            OpKind::DefineFunction { name, body } => {
                out.append("fn ");
                out.append(name.as_str());
                out.append(" (");
                write_ops(body, out);
                out.append(")");
            },
            OpKind::Identifier(name) => {
                out.append(name.as_str());
            },
            OpKind::If { body, else_body } => {
                out.append("if (");
                write_ops(body, out);
                match else_body {
                    Some(other) => {
                        out.append(") else (");
                        write_ops(other, out);
                        out.append(")");
                    },
                    None => {
                        out.append(")");
                    },
                }
            },
            OpKind::Binding { bindings, body } => {
                out.append("[");
                let ghost names = placed_names(bindings@);
                let ghost opened = out@;
                let mut k: usize = 0;
                assert(out@ =~= opened + names_text(names, 0));
                while k < bindings.len()
                    invariant
                        k <= bindings.len(),
                        names == placed_names(bindings@),
                        out@ == opened + names_text(names, k as nat),
                    decreases bindings.len() - k,
                {
                    if k > 0 {
                        out.append(" ");
                    }
                    out.append(bindings[k].0.as_str());
                    k += 1;
                    assert(out@ =~= opened + names_text(names, k as nat));
                }
                out.append("] (");
                write_ops(body, out);
                out.append(")");
            },
            OpKind::Plus => {
                out.append("+");
            },
            OpKind::Minus => {
                out.append("-");
            },
            OpKind::Multiply => {
                out.append("*");
            },
            OpKind::Divide => {
                out.append("/");
            },
            OpKind::Modulo => {
                out.append("%");
            },
            OpKind::LessThan => {
                out.append("<");
            },
            OpKind::LessThanEquals => {
                out.append("<=");
            },
            OpKind::GreaterThan => {
                out.append(">");
            },
            OpKind::GreaterThanEquals => {
                out.append(">=");
            },
            OpKind::Equals => {
                out.append("=");
            },
            OpKind::Not => {
                out.append("!");
            },
            OpKind::And => {
                out.append("and");
            },
            OpKind::Or => {
                out.append("or");
            },
            OpKind::Identity => {
                out.append(".");
            },
            OpKind::Over => {
                out.append("over");
            },
            OpKind::Pop => {
                out.append("pop");
            },
            OpKind::Rot => {
                out.append("rot");
            },
            OpKind::Swap => {
                out.append("swap");
            },
            OpKind::Dup => {
                out.append("dup");
            },
            OpKind::Print => {
                out.append("print");
            },
            OpKind::Concat => {
                out.append("concat");
            },
            OpKind::Push => {
                out.append("push");
            },
            OpKind::Head => {
                out.append("head");
            },
            OpKind::Tail => {
                out.append("tail");
            },
            OpKind::Do => {
                out.append("do");
            },
            OpKind::Filter => {
                out.append("filter");
            },
            OpKind::Fold => {
                out.append("fold");
            },
            OpKind::Foreach => {
                out.append("foreach");
            },
            OpKind::Len => {
                out.append("len");
            },
            OpKind::MapEach => {
                out.append("map");
            },
            OpKind::DumpStack => {
                out.append("???");
            },
        }
        assert(out@ =~= old(out)@ + op_text(self@));
    }
}

} // verus!
