//! The mathematical model of the type checker: what checking an operation, a block, a
//! list or a program gives, as functions on the state of the checker.

use vstd::prelude::*;
use crate::diagnostic::{DiagnosticModel, error_at};
use crate::erasure::{Inference, erase_each, erase_or_keep, unify, unify_fuel};
use crate::ops::{OpModel, OpShape};
use crate::span::Span;
use crate::text::decimal_text;
use crate::typed_op::{TypedKind, TypedModel};
use crate::types::{Ty, effect_text, ty_text};

verus! {

/// The mathematical form of a type checker.
#[verifier::ext_equal]
pub struct CheckState {
    /// Whether values left on the stack at the end of a program are an error.
    pub strict: bool,
    /// The type stack, bottom first, each type with the place that pushed it.
    pub stack: Seq<(Ty, Span)>,
    pub diagnostics: Seq<DiagnosticModel>,
    /// The erasure table.
    pub table: Seq<Option<Ty>>,
    /// The functions defined so far, oldest first: name, inputs, outputs.
    pub functions: Seq<(Seq<char>, Seq<Ty>, Seq<Ty>)>,
    /// The names bound at this point, outermost first.
    pub bindings: Seq<(Seq<char>, Ty)>,
    /// Whether the body of a block is being checked.
    pub in_block: bool,
    /// The inputs found so far for the block being checked, bottom of the stack first.
    pub block_ins: Seq<Ty>,
    /// The lines written by stack dumps.
    pub dump: Seq<Seq<char>>,
}

/// The state of a new checker.
pub open spec fn initial_state(strict: bool) -> CheckState {
    CheckState {
        strict,
        stack: Seq::empty(),
        diagnostics: Seq::empty(),
        table: Seq::empty(),
        functions: Seq::empty(),
        bindings: Seq::empty(),
        in_block: false,
        block_ins: Seq::empty(),
        dump: Seq::empty(),
    }
}

/// `s` with `n` more free variables.
pub open spec fn with_fresh(s: CheckState, n: nat) -> CheckState
    decreases n,
{
    if n == 0 {
        s
    } else {
        with_fresh(CheckState { table: s.table.push(None), ..s }, (n - 1) as nat)
    }
}

/// `s` with one more diagnostic.
pub open spec fn with_error(s: CheckState, message: Seq<char>, span: Span) -> CheckState {
    CheckState { diagnostics: s.diagnostics.push(error_at(message, span)), ..s }
}

/// `s` after the unification of `found` with `wanted`, reported at `span`.
pub open spec fn with_unified(s: CheckState, found: Ty, wanted: Ty, span: Span) -> CheckState {
    let after = unify(
        Inference { table: s.table, diagnostics: s.diagnostics },
        found,
        wanted,
        found,
        wanted,
        span,
        unify_fuel(s.table.len()),
    );
    CheckState { table: after.table, diagnostics: after.diagnostics, ..s }
}

/// The list type with elements of type `t`.
pub open spec fn list_of(t: Ty) -> Ty {
    Ty::List(Box::new(t))
}

/// The kind, inputs, outputs and number of fresh variables of an operation whose
/// stack effect is tabulated; `g` is the index of the first fresh variable. `None` for
/// an operation whose effect is inferred from its parts or from the state.
pub open spec fn tabulated_effect(kind: OpShape, g: nat) -> Option<(TypedKind, Seq<Ty>, Seq<Ty>, nat)> {
    let a = Ty::Generic(g);
    let b = Ty::Generic(g + 1);
    let c = Ty::Generic(g + 2);
    match kind {
        OpShape::PushBool(v) => Some((TypedKind::PushBool(v), seq![], seq![Ty::Bool], 0)),
        OpShape::PushInt(v) => Some((TypedKind::PushInt(v), seq![], seq![Ty::Int], 0)),
        OpShape::Plus => Some((TypedKind::Plus, seq![Ty::Int, Ty::Int], seq![Ty::Int], 0)),
        OpShape::Minus => Some((TypedKind::Minus, seq![Ty::Int, Ty::Int], seq![Ty::Int], 0)),
        OpShape::Multiply => Some((TypedKind::Multiply, seq![Ty::Int, Ty::Int], seq![Ty::Int], 0)),
        OpShape::Divide => Some((TypedKind::Divide, seq![Ty::Int, Ty::Int], seq![Ty::Int], 0)),
        OpShape::Modulo => Some((TypedKind::Modulo, seq![Ty::Int, Ty::Int], seq![Ty::Int], 0)),
        OpShape::LessThan => Some((TypedKind::LessThan, seq![Ty::Int, Ty::Int], seq![Ty::Bool], 0)),
        OpShape::LessThanEquals => Some(
            (TypedKind::LessThanEquals, seq![Ty::Int, Ty::Int], seq![Ty::Bool], 0),
        ),
        OpShape::GreaterThan => Some(
            (TypedKind::GreaterThan, seq![Ty::Int, Ty::Int], seq![Ty::Bool], 0),
        ),
        OpShape::GreaterThanEquals => Some(
            (TypedKind::GreaterThanEquals, seq![Ty::Int, Ty::Int], seq![Ty::Bool], 0),
        ),
        OpShape::Equals => Some((TypedKind::Equals, seq![a, a], seq![Ty::Bool], 1)),
        OpShape::Not => Some((TypedKind::Not, seq![Ty::Bool], seq![Ty::Bool], 0)),
        OpShape::And => Some((TypedKind::And, seq![Ty::Bool, Ty::Bool], seq![Ty::Bool], 0)),
        OpShape::Or => Some((TypedKind::Or, seq![Ty::Bool, Ty::Bool], seq![Ty::Bool], 0)),
        OpShape::Identity => Some((TypedKind::Identity, seq![a], seq![a], 1)),
        OpShape::Dup => Some((TypedKind::Dup, seq![a], seq![a, a], 1)),
        OpShape::Swap => Some((TypedKind::Swap, seq![a, b], seq![b, a], 2)),
        OpShape::Over => Some((TypedKind::Over, seq![a, b], seq![a, b, a], 2)),
        OpShape::Rot => Some((TypedKind::Rot, seq![a, b, c], seq![b, c, a], 3)),
        OpShape::Pop => Some((TypedKind::Pop, seq![a], seq![], 1)),
        OpShape::Print => Some((TypedKind::Print, seq![a], seq![], 1)),
        OpShape::Len => Some((TypedKind::Len, seq![list_of(a)], seq![Ty::Int], 1)),
        OpShape::Concat => Some(
            (TypedKind::Concat, seq![list_of(a), list_of(a)], seq![list_of(a)], 1),
        ),
        OpShape::Push => Some((TypedKind::Push, seq![list_of(a), a], seq![list_of(a)], 1)),
        OpShape::Head => Some((TypedKind::Head, seq![list_of(a)], seq![a], 1)),
        OpShape::Tail => Some((TypedKind::Tail, seq![list_of(a)], seq![list_of(a)], 1)),
        OpShape::MapEach => Some(
            (
                TypedKind::MapEach,
                seq![list_of(a), Ty::Block { ins: seq![a], outs: seq![b] }],
                seq![list_of(b)],
                2,
            ),
        ),
        OpShape::Filter => Some(
            (
                TypedKind::Filter,
                seq![list_of(a), Ty::Block { ins: seq![a], outs: seq![Ty::Bool] }],
                seq![list_of(a)],
                1,
            ),
        ),
        OpShape::Fold => Some(
            (
                TypedKind::Fold,
                seq![list_of(a), b, Ty::Block { ins: seq![a, b], outs: seq![b] }],
                seq![b],
                2,
            ),
        ),
        OpShape::Foreach => Some(
            (
                TypedKind::Foreach,
                seq![list_of(a), Ty::Block { ins: seq![a], outs: seq![] }],
                seq![],
                1,
            ),
        ),
        OpShape::Do => Some(
            (TypedKind::Do, seq![Ty::Block { ins: seq![], outs: seq![] }], seq![], 0),
        ),
        _ => None,
    }
}

/// The message for an operation that found the stack empty where it wanted a `wanted`.
pub open spec fn empty_stack_text(wanted: Ty) -> Seq<char> {
    "Expected "@ + ty_text(wanted) + " but stack was empty"@
}

/// The message for a binding that found the stack empty.
pub open spec fn no_value_text() -> Seq<char> {
    "expected value but stack was empty"@
}

/// The message for a list element whose effect is not one output and nothing else.
pub open spec fn list_element_text(ins: Seq<Ty>, outs: Seq<Ty>) -> Seq<char> {
    "List elements must have the signature [ -- <a>], got "@ + effect_text(ins, outs)
}

/// The message for a name that is neither bound nor a function.
pub open spec fn unknown_name_text(name: Seq<char>) -> Seq<char> {
    "no such identifier `"@ + name + "` in scope"@
}

/// The message for a branch whose inputs and outputs differ.
pub open spec fn asymmetry_text(ins: Seq<Ty>, outs: Seq<Ty>) -> Seq<char> {
    "expected symmetrical function, but got "@ + effect_text(ins, outs)
}

/// The message for a value left on the stack at the end of a program.
pub open spec fn residual_text(t: Ty) -> Seq<char> {
    "Type stack must be empty at the end of the program, but got "@ + ty_text(t)
}

/// The text that a span is dumped as.
pub open spec fn span_text(span: Span) -> Seq<char> {
    "Span { offset: "@ + decimal_text(span.offset as nat) + ", length: "@ + decimal_text(
        span.length as nat,
    ) + " }"@
}

/// The line that a stack dump writes for one entry of the type stack.
pub open spec fn dump_line(table: Seq<Option<Ty>>, t: Ty, span: Span) -> Seq<char> {
    ty_text(erase_or_keep(table, t)) + " defined at "@ + span_text(span)
}

/// The lines that a stack dump writes for the first `n` entries of the stack of `s`.
pub open spec fn dump_lines(s: CheckState, n: nat) -> Seq<Seq<char>>
    decreases n,
{
    if n == 0 || n > s.stack.len() {
        Seq::empty()
    } else {
        dump_lines(s, (n - 1) as nat).push(dump_line(s.table, s.stack[n - 1].0, s.stack[n - 1].1))
    }
}

/// The type that the innermost binding of `name` among the first `n` of `bindings` gives it.
pub open spec fn bound_type(bindings: Seq<(Seq<char>, Ty)>, name: Seq<char>, n: nat) -> Option<Ty>
    decreases n,
{
    if n == 0 || n > bindings.len() {
        None
    } else if bindings[n - 1].0 == name {
        Some(bindings[n - 1].1)
    } else {
        bound_type(bindings, name, (n - 1) as nat)
    }
}

/// The effect of the latest definition of `name` among the first `n` of `functions`.
pub open spec fn function_effect(
    functions: Seq<(Seq<char>, Seq<Ty>, Seq<Ty>)>,
    name: Seq<char>,
    n: nat,
) -> Option<(Seq<Ty>, Seq<Ty>)>
    decreases n,
{
    if n == 0 || n > functions.len() {
        None
    } else if functions[n - 1].0 == name {
        Some((functions[n - 1].1, functions[n - 1].2))
    } else {
        function_effect(functions, name, (n - 1) as nat)
    }
}

/// Taking one input of type `wanted` for an operation at `span`.
///
/// The top of the stack is popped and unified with `wanted`. On an empty stack, inside
/// a block `wanted` becomes an input of the block, below those found before; outside
/// one, the empty stack is reported.
pub open spec fn take_input(s: CheckState, wanted: Ty, span: Span) -> CheckState {
    if s.stack.len() > 0 {
        with_unified(CheckState { stack: s.stack.drop_last(), ..s }, s.stack.last().0, wanted, span)
    } else if s.in_block {
        CheckState { block_ins: seq![wanted] + s.block_ins, ..s }
    } else {
        with_error(s, empty_stack_text(wanted), span)
    }
}

/// Taking the first `n` types of `ins` as inputs, the last of them first.
pub open spec fn take_inputs(s: CheckState, ins: Seq<Ty>, n: nat, span: Span) -> CheckState
    decreases n,
{
    if n == 0 || n > ins.len() {
        s
    } else {
        take_inputs(take_input(s, ins[n - 1], span), ins, (n - 1) as nat, span)
    }
}

/// `types`, each paired with `span`.
pub open spec fn at_span(types: Seq<Ty>, span: Span) -> Seq<(Ty, Span)> {
    Seq::new(types.len(), |i: int| (types[i], span))
}

/// The types of the entries of a type stack.
pub open spec fn types_of(stack: Seq<(Ty, Span)>) -> Seq<Ty> {
    Seq::new(stack.len(), |i: int| stack[i].0)
}

/// Applying the effect `[ins -- outs]` of an operation at `span` to the type stack:
/// the inputs are taken, the topmost first, then the outputs are pushed.
pub open spec fn apply_effect(s: CheckState, ins: Seq<Ty>, outs: Seq<Ty>, span: Span) -> CheckState {
    let taken = take_inputs(s, ins, ins.len(), span);
    CheckState { stack: taken.stack + at_span(outs, span), ..taken }
}

/// Popping a type for a binding at `span`.
///
/// On an empty stack, inside a block a fresh variable is made an input of the block
/// and returned; outside one, the empty stack is reported and nothing is returned.
pub open spec fn pop_for_binding(s: CheckState, span: Span) -> (CheckState, Option<(Ty, Span)>) {
    if s.stack.len() > 0 {
        (CheckState { stack: s.stack.drop_last(), ..s }, Some(s.stack.last()))
    } else if s.in_block {
        let g = Ty::Generic(s.table.len());
        (
            CheckState { table: s.table.push(None), block_ins: seq![g] + s.block_ins, ..s },
            Some((g, span)),
        )
    } else {
        (with_error(s, no_value_text(), span), None)
    }
}

/// Binding the first `n` of `names`, the last of them first, each to a type popped from
/// the stack; binding stops at the first name for which nothing can be popped. The
/// result holds the names bound, in the order they were bound.
pub open spec fn bind_names(
    s: CheckState,
    names: Seq<(Seq<char>, Span)>,
    n: nat,
    bound: Seq<Seq<char>>,
)
    -> (CheckState, Seq<Seq<char>>)
    decreases n,
{
    if n == 0 || n > names.len() {
        (s, bound)
    } else {
        let (s1, popped) = pop_for_binding(s, names[n - 1].1);
        match popped {
            Some((t, _)) => bind_names(
                CheckState { bindings: s1.bindings.push((names[n - 1].0, t)), ..s1 },
                names,
                (n - 1) as nat,
                bound.push(names[n - 1].0),
            ),
            None => (s1, bound),
        }
    }
}

/// Checking that a branch with the effect `[ins -- outs]` leaves the stack as it found
/// it: one diagnostic where the lengths differ, and one for each position, as far as
/// both have it, at which the types differ.
pub open spec fn check_symmetry(s: CheckState, ins: Seq<Ty>, outs: Seq<Ty>, span: Span)
    -> CheckState {
    let s0 = if ins.len() != outs.len() {
        with_error(s, asymmetry_text(ins, outs), span)
    } else {
        s
    };
    compare_sides(s0, ins, outs, 0, span)
}

/// One diagnostic for each position from `from` on that `ins` and `outs` both have
/// and at which their types differ.
pub open spec fn compare_sides(s: CheckState, ins: Seq<Ty>, outs: Seq<Ty>, from: nat, span: Span)
    -> CheckState
    decreases ins.len() - from,
{
    if from < ins.len() && from < outs.len() {
        let s1 = if ins[from as int] != outs[from as int] {
            with_error(s, asymmetry_text(ins, outs), span)
        } else {
            s
        };
        compare_sides(s1, ins, outs, from + 1, span)
    } else {
        s
    }
}

/// A typed operation as it is emitted: its effect erased under `table` as far as it
/// can be.
pub open spec fn emitted(table: Seq<Option<Ty>>, op: TypedModel) -> TypedModel {
    TypedModel { kind: op.kind, ins: erase_each(table, op.ins), outs: erase_each(table, op.outs) }
}

/// What checking a block gives: its typed operations, and its inputs and outputs.
#[verifier::ext_equal]
pub struct BlockModel {
    pub ops: Seq<TypedModel>,
    pub ins: Seq<Ty>,
    pub outs: Seq<Ty>,
}

/// Checking one operation: the state after it and the operation with its effect. The
/// effect is not yet applied to the type stack.
pub open spec fn check_op(s: CheckState, op: OpModel) -> (CheckState, TypedModel)
    decreases op, 0nat,
{
    match op.kind {
        OpShape::PushList(elements) => check_list(s, elements, 0, None, Seq::empty()),
        OpShape::PushBlock(body) => {
            let (s1, block) = check_block(s, body);
            (
                s1,
                TypedModel {
                    kind: TypedKind::PushBlock(block.ops),
                    ins: seq![],
                    outs: seq![Ty::Block { ins: block.ins, outs: block.outs }],
                },
            )
        },
        OpShape::DumpStack => (
            CheckState { dump: s.dump + dump_lines(s, s.stack.len()), ..s },
            TypedModel { kind: TypedKind::DumpStack, ins: seq![], outs: seq![] },
        ),
        OpShape::DefineFunction { name, body } => {
            let (s1, block) = check_block(s, body);
            (
                CheckState { functions: s1.functions.push((name, block.ins, block.outs)), ..s1 },
                TypedModel {
                    kind: TypedKind::DefineFunction {
                        name: name,
                        block: Box::new(
                            TypedModel {
                                kind: TypedKind::PushBlock(block.ops),
                                ins: block.ins,
                                outs: block.outs,
                            },
                        ),
                    },
                    ins: seq![],
                    outs: seq![],
                },
            )
        },
        OpShape::Identifier(name) => match bound_type(s.bindings, name, s.bindings.len()) {
            Some(t) => (s, TypedModel { kind: TypedKind::Value(name), ins: seq![], outs: seq![t] }),
            None => match function_effect(s.functions, name, s.functions.len()) {
                Some((ins, outs)) => (s, TypedModel { kind: TypedKind::Call(name), ins, outs }),
                None => (
                    with_error(s, unknown_name_text(name), op.span),
                    TypedModel { kind: TypedKind::Call(name), ins: seq![], outs: seq![] },
                ),
            },
        },
        OpShape::If { body, else_body } => {
            let (s1, then_block) = check_block(s, body);
            match else_body {
                None => {
                    let s2 = check_symmetry(s1, then_block.ins, then_block.outs, op.span);
                    (
                        s2,
                        TypedModel {
                            kind: TypedKind::If { body: then_block.ops, else_body: None },
                            ins: then_block.ins.push(Ty::Bool),
                            outs: then_block.outs,
                        },
                    )
                },
                Some(other) => {
                    let (s2, else_block) = check_block(s1, other);
                    let s3 = check_symmetry(s2, then_block.ins, then_block.outs, op.span);
                    let s4 = check_symmetry(s3, else_block.ins, else_block.outs, op.span);
                    let s5 = with_unified(
                        s4,
                        Ty::Block { ins: then_block.ins, outs: then_block.outs },
                        Ty::Block { ins: else_block.ins, outs: else_block.outs },
                        op.span,
                    );
                    (
                        s5,
                        TypedModel {
                            kind: TypedKind::If {
                                body: then_block.ops,
                                else_body: Some(else_block.ops),
                            },
                            ins: then_block.ins.push(Ty::Bool),
                            outs: then_block.outs,
                        },
                    )
                },
            }
        },
        OpShape::Binding { bindings, body } => {
            let (s1, bound) = bind_names(s, bindings, bindings.len(), Seq::empty());
            let (s2, typed) = check_ops(s1, body, 0, Seq::empty());
            let kept = if s.bindings.len() <= s2.bindings.len() {
                s2.bindings.subrange(0, s.bindings.len() as int)
            } else {
                s2.bindings
            };
            (
                CheckState { bindings: kept, ..s2 },
                TypedModel {
                    kind: TypedKind::Binding { bindings: bound, body: typed },
                    ins: seq![],
                    outs: seq![],
                },
            )
        },
        _ => match tabulated_effect(op.kind, s.table.len()) {
            Some((kind, ins, outs, fresh)) => (with_fresh(s, fresh), TypedModel { kind, ins, outs }),
            None => (s, TypedModel { kind: TypedKind::Identity, ins: seq![], outs: seq![] }),
        },
    }
}

/// Checking the operations of `ops` from position `from` on, in order: each is
/// checked, its effect is applied to the type stack, and it is emitted after `done`.
pub open spec fn check_ops(s: CheckState, ops: Seq<OpModel>, from: nat, done: Seq<TypedModel>) -> (
    CheckState,
    Seq<TypedModel>,
)
    decreases ops, ops.len() - from,
{
    if from < ops.len() {
        let (s1, typed) = check_op(s, ops[from as int]);
        let s2 = apply_effect(s1, typed.ins, typed.outs, ops[from as int].span);
        check_ops(s2, ops, from + 1, done.push(emitted(s2.table, typed)))
    } else {
        (s, done)
    }
}

/// Checking the body of a block.
///
/// The body is checked on an empty type stack of its own. An operation that finds
/// that stack empty takes an input of the block instead. The types left on the stack at
/// the end are the outputs. Inputs and outputs are erased as far as they can be;
/// variables that stay free make the block polymorphic. The type stack of the
/// surroundings is untouched.
pub open spec fn check_block(s: CheckState, ops: Seq<OpModel>) -> (CheckState, BlockModel)
    decreases ops, ops.len() + 1,
{
    let inner = CheckState { stack: Seq::empty(), in_block: true, block_ins: Seq::empty(), ..s };
    let (s1, typed) = check_ops(inner, ops, 0, Seq::empty());
    (
        CheckState { stack: s.stack, in_block: s.in_block, block_ins: s.block_ins, ..s1 },
        BlockModel {
            ops: typed,
            ins: erase_each(s1.table, s1.block_ins),
            outs: erase_each(s1.table, types_of(s1.stack)),
        },
    )
}

/// Checking the elements of a list literal from position `from` on.
///
/// Every element must push one value and take none, and the types of the elements are
/// unified with that of the first. An element with another effect is reported, and the
/// list is then given the element type known so far and no elements. `element` is the
/// type of the first element, if one was seen; `done` holds the elements checked so far.
pub open spec fn check_list(
    s: CheckState,
    elements: Seq<OpModel>,
    from: nat,
    element: Option<Ty>,
    done: Seq<TypedModel>,
) -> (CheckState, TypedModel)
    decreases elements, elements.len() - from,
{
    if from < elements.len() {
        let op = elements[from as int];
        let (s1, typed) = check_op(s, op);
        if typed.ins.len() != 0 || typed.outs.len() != 1 {
            list_result(
                with_error(s1, list_element_text(typed.ins, typed.outs), op.span),
                element,
                Seq::empty(),
            )
        } else {
            match element {
                Some(first) => check_list(
                    with_unified(s1, first, typed.outs[0], op.span),
                    elements,
                    from + 1,
                    element,
                    done.push(typed),
                ),
                None => check_list(s1, elements, from + 1, Some(typed.outs[0]), done.push(typed)),
            }
        }
    } else {
        list_result(s, element, done)
    }
}

/// The list literal with the elements `done`: a list of `element` where an element
/// type is known, else of a fresh variable.
pub open spec fn list_result(s: CheckState, element: Option<Ty>, done: Seq<TypedModel>) -> (
    CheckState,
    TypedModel,
) {
    match element {
        Some(t) => (
            s,
            TypedModel { kind: TypedKind::PushList(done), ins: seq![], outs: seq![list_of(t)] },
        ),
        None => (
            with_fresh(s, 1),
            TypedModel {
                kind: TypedKind::PushList(done),
                ins: seq![],
                outs: seq![list_of(Ty::Generic(s.table.len()))],
            },
        ),
    }
}

/// Reporting the first `n` entries of the type stack of `s` as left over, bottom first.
pub open spec fn report_residue(s: CheckState, n: nat) -> CheckState
    decreases n,
{
    if n == 0 || n > s.stack.len() {
        s
    } else {
        with_error(
            report_residue(s, (n - 1) as nat),
            residual_text(s.stack[n - 1].0),
            s.stack[n - 1].1,
        )
    }
}

/// Checking a program: its operations in order and then, in a strict checker, one
/// diagnostic for every value left on the type stack.
pub open spec fn check_program(s: CheckState, ops: Seq<OpModel>) -> (CheckState, Seq<TypedModel>) {
    let (s1, typed) = check_ops(s, ops, 0, Seq::empty());
    if s1.strict {
        (report_residue(s1, s1.stack.len()), typed)
    } else {
        (s1, typed)
    }
}

} // verus!
