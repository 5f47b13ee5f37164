//! The mathematical model of the lowerer: the code that each typed operation is
//! lowered to.

use vstd::prelude::*;
use crate::bytecode::ByteCodeInstruction;
use crate::text::decimal_text;
use crate::typed_op::{TypedKind, TypedModel};
use crate::types::Ty;

verus! {

/// Why a program could not be lowered.
#[derive(Clone, Copy, Debug, PartialEq, Eq, Structural)]
pub enum LowerError {
    /// The operation cannot be lowered to bytecode.
    Unsupported,
    /// A call names a function that the constant pool does not hold.
    UnknownFunction,
    /// A value names something that is not bound.
    UnknownBinding,
    /// An operation that is lowered by the type of its input has no input.
    MissingInput,
    /// No label or local slot is left.
    Exhausted,
}

/// The mathematical form of a lowerer.
#[verifier::ext_equal]
pub struct LowerModel {
    /// The next label to hand out.
    pub next_label: usize,
    /// The constant pool: the names of the compiled blocks and functions.
    pub pool: Seq<Seq<char>>,
    /// The local slot of each bound name, outermost first.
    pub bindings: Seq<(Seq<char>, usize)>,
    /// The code of the blocks and functions compiled so far, by name.
    pub emitted: Seq<(Seq<char>, Seq<ByteCodeInstruction>)>,
    /// The number of local slots in use.
    pub locals: usize,
    /// The largest number of local slots that were in use at once.
    pub max_locals: usize,
}

/// The state of a new lowerer.
pub open spec fn initial_lowerer() -> LowerModel {
    LowerModel {
        next_label: 0,
        pool: Seq::empty(),
        bindings: Seq::empty(),
        emitted: Seq::empty(),
        locals: 0,
        max_locals: 0,
    }
}

/// The word that stands for an integer: its two's complement.
pub open spec fn word_of_int(v: i64) -> usize {
    v as usize
}

/// The word that stands for a boolean.
pub open spec fn word_of_bool(b: bool) -> usize {
    if b {
        1
    } else {
        0
    }
}

/// The name of the block compiled into slot `index` of the constant pool.
pub open spec fn block_name(index: nat) -> Seq<char> {
    "block_"@ + decimal_text(index)
}

/// The position of the first of the first `n` names of `pool` that equals `name`,
/// searching from `from`.
pub open spec fn position_of(pool: Seq<Seq<char>>, name: Seq<char>, from: nat) -> Option<nat>
    decreases pool.len() - from,
{
    if from >= pool.len() {
        None
    } else if pool[from as int] == name {
        Some(from)
    } else {
        position_of(pool, name, from + 1)
    }
}

/// The slot that the innermost binding of `name` among the first `n` of `bindings` gives it.
pub open spec fn slot_of(bindings: Seq<(Seq<char>, usize)>, name: Seq<char>, n: nat) -> Option<
    usize,
>
    decreases n,
{
    if n == 0 || n > bindings.len() {
        None
    } else if bindings[n - 1].0 == name {
        Some(bindings[n - 1].1)
    } else {
        slot_of(bindings, name, (n - 1) as nat)
    }
}

/// The position among `emitted`, from `from` on, of the code named `name`.
pub open spec fn emitted_position(
    emitted: Seq<(Seq<char>, Seq<ByteCodeInstruction>)>,
    name: Seq<char>,
    from: nat,
) -> Option<nat>
    decreases emitted.len() - from,
{
    if from >= emitted.len() {
        None
    } else if emitted[from as int].0 == name {
        Some(from)
    } else {
        emitted_position(emitted, name, from + 1)
    }
}

/// `emitted` with `code` as the code named `name`: in place of the code of that name,
/// where there is one, else at the end.
pub open spec fn with_code(
    emitted: Seq<(Seq<char>, Seq<ByteCodeInstruction>)>,
    name: Seq<char>,
    code: Seq<ByteCodeInstruction>,
) -> Seq<(Seq<char>, Seq<ByteCodeInstruction>)> {
    match emitted_position(emitted, name, 0) {
        Some(k) => emitted.update(k as int, (name, code)),
        None => emitted.push((name, code)),
    }
}

/// Handing out a label: the state after it, and the label.
pub open spec fn fresh_label(s: LowerModel) -> Result<(LowerModel, usize), LowerError> {
    if s.next_label < usize::MAX {
        Ok((LowerModel { next_label: (s.next_label + 1) as usize, ..s }, s.next_label))
    } else {
        Err(LowerError::Exhausted)
    }
}

/// Handing out a local slot: the state after it, and the slot.
pub open spec fn fresh_local(s: LowerModel) -> Result<(LowerModel, usize), LowerError> {
    if s.locals < usize::MAX {
        let locals = (s.locals + 1) as usize;
        Ok(
            (
                LowerModel {
                    locals,
                    max_locals: if s.max_locals < locals {
                        locals
                    } else {
                        s.max_locals
                    },
                    ..s
                },
                s.locals,
            ),
        )
    } else {
        Err(LowerError::Exhausted)
    }
}

/// The code that copies the list on top of the stack and leaves the list and its
/// copy, the copy on top.
pub open spec fn duplicate_list_code(list: usize, counter: usize, cond: usize, end: usize) -> Seq<
    ByteCodeInstruction,
> {
    seq![
        ByteCodeInstruction::Store { index: list },
        ByteCodeInstruction::Load { index: list },
        ByteCodeInstruction::ListLen,
        ByteCodeInstruction::Store { index: counter },
        ByteCodeInstruction::Label(cond),
        ByteCodeInstruction::Load { index: counter },
        ByteCodeInstruction::Push(0),
        ByteCodeInstruction::Gt,
        ByteCodeInstruction::JumpIfFalse { label: end },
        ByteCodeInstruction::Load { index: counter },
        ByteCodeInstruction::Dec,
        ByteCodeInstruction::Store { index: counter },
        ByteCodeInstruction::Load { index: list },
        ByteCodeInstruction::Load { index: counter },
        ByteCodeInstruction::ListGet,
        ByteCodeInstruction::Jump { label: cond },
        ByteCodeInstruction::Label(end),
        ByteCodeInstruction::Load { index: list },
        ByteCodeInstruction::ListLen,
        ByteCodeInstruction::NewList,
        ByteCodeInstruction::Load { index: list },
        ByteCodeInstruction::Swap,
    ]
}

/// The code of `map`: calls the block on top of the stack on each element of the list
/// below it, last element first, and makes a list of the results.
pub open spec fn map_code(func: usize, list: usize, index: usize, cond: usize, end: usize) -> Seq<
    ByteCodeInstruction,
> {
    seq![
        ByteCodeInstruction::Store { index: func },
        ByteCodeInstruction::Store { index: list },
        ByteCodeInstruction::Load { index: list },
        ByteCodeInstruction::ListLen,
        ByteCodeInstruction::Store { index: index },
        ByteCodeInstruction::Label(cond),
        ByteCodeInstruction::Load { index: index },
        ByteCodeInstruction::Push(0),
        ByteCodeInstruction::Gt,
        ByteCodeInstruction::JumpIfFalse { label: end },
        ByteCodeInstruction::Load { index: index },
        ByteCodeInstruction::Dec,
        ByteCodeInstruction::Store { index: index },
        ByteCodeInstruction::Load { index: list },
        ByteCodeInstruction::Load { index: index },
        ByteCodeInstruction::ListGet,
        ByteCodeInstruction::Load { index: func },
        ByteCodeInstruction::CallDynamic,
        ByteCodeInstruction::Jump { label: cond },
        ByteCodeInstruction::Label(end),
        ByteCodeInstruction::Load { index: list },
        ByteCodeInstruction::ListLen,
        ByteCodeInstruction::NewList,
    ]
}

/// The code of `filter`: calls the block on each element, last element first, keeps
/// the elements for which it leaves a word other than zero, and makes a list of them.
pub open spec fn filter_code(
    func: usize,
    list: usize,
    index: usize,
    count: usize,
    cond: usize,
    end: usize,
) -> Seq<ByteCodeInstruction> {
    seq![
        ByteCodeInstruction::Store { index: func },
        ByteCodeInstruction::Store { index: list },
        ByteCodeInstruction::Load { index: list },
        ByteCodeInstruction::ListLen,
        ByteCodeInstruction::Store { index: index },
        ByteCodeInstruction::Push(0),
        ByteCodeInstruction::Store { index: count },
        ByteCodeInstruction::Label(cond),
        ByteCodeInstruction::Load { index: index },
        ByteCodeInstruction::Push(0),
        ByteCodeInstruction::Gt,
        ByteCodeInstruction::JumpIfFalse { label: end },
        ByteCodeInstruction::Load { index: index },
        ByteCodeInstruction::Dec,
        ByteCodeInstruction::Store { index: index },
        ByteCodeInstruction::Load { index: list },
        ByteCodeInstruction::Load { index: index },
        ByteCodeInstruction::ListGet,
        ByteCodeInstruction::Load { index: func },
        ByteCodeInstruction::CallDynamic,
        ByteCodeInstruction::JumpIfFalse { label: cond },
        ByteCodeInstruction::Load { index: list },
        ByteCodeInstruction::Load { index: index },
        ByteCodeInstruction::ListGet,
        ByteCodeInstruction::Load { index: count },
        ByteCodeInstruction::Inc,
        ByteCodeInstruction::Store { index: count },
        ByteCodeInstruction::Jump { label: cond },
        ByteCodeInstruction::Label(end),
        ByteCodeInstruction::Load { index: count },
        ByteCodeInstruction::NewList,
    ]
}

/// The code of `fold`: calls the block on each element and the accumulator, last
/// element first, and leaves the last accumulator.
pub open spec fn fold_code(
    func: usize,
    list: usize,
    index: usize,
    acc: usize,
    cond: usize,
    end: usize,
) -> Seq<ByteCodeInstruction> {
    seq![
        ByteCodeInstruction::Store { index: func },
        ByteCodeInstruction::Store { index: acc },
        ByteCodeInstruction::Store { index: list },
        ByteCodeInstruction::Load { index: list },
        ByteCodeInstruction::ListLen,
        ByteCodeInstruction::Store { index: index },
        ByteCodeInstruction::Label(cond),
        ByteCodeInstruction::Load { index: index },
        ByteCodeInstruction::Push(0),
        ByteCodeInstruction::Gt,
        ByteCodeInstruction::JumpIfFalse { label: end },
        ByteCodeInstruction::Load { index: index },
        ByteCodeInstruction::Dec,
        ByteCodeInstruction::Store { index: index },
        ByteCodeInstruction::Load { index: list },
        ByteCodeInstruction::Load { index: index },
        ByteCodeInstruction::ListGet,
        ByteCodeInstruction::Load { index: acc },
        ByteCodeInstruction::Load { index: func },
        ByteCodeInstruction::CallDynamic,
        ByteCodeInstruction::Store { index: acc },
        ByteCodeInstruction::Jump { label: cond },
        ByteCodeInstruction::Label(end),
        ByteCodeInstruction::Load { index: acc },
    ]
}

/// The code of `foreach`: calls the block on each element, first element first.
pub open spec fn foreach_code(func: usize, list: usize, index: usize, cond: usize, end: usize)
    -> Seq<ByteCodeInstruction> {
    seq![
        ByteCodeInstruction::Store { index: func },
        ByteCodeInstruction::Store { index: list },
        ByteCodeInstruction::Push(0),
        ByteCodeInstruction::Store { index: index },
        ByteCodeInstruction::Label(cond),
        ByteCodeInstruction::Load { index: index },
        ByteCodeInstruction::Load { index: list },
        ByteCodeInstruction::ListLen,
        ByteCodeInstruction::Lt,
        ByteCodeInstruction::JumpIfFalse { label: end },
        ByteCodeInstruction::Load { index: list },
        ByteCodeInstruction::Load { index: index },
        ByteCodeInstruction::ListGet,
        ByteCodeInstruction::Load { index: func },
        ByteCodeInstruction::CallDynamic,
        ByteCodeInstruction::Load { index: index },
        ByteCodeInstruction::Inc,
        ByteCodeInstruction::Store { index: index },
        ByteCodeInstruction::Jump { label: cond },
        ByteCodeInstruction::Label(end),
    ]
}

/// The one instruction of an operation that is lowered to one instruction whatever
/// its types are.
pub open spec fn single_instruction(kind: TypedKind) -> Option<ByteCodeInstruction> {
    match kind {
        TypedKind::PushInt(v) => Some(ByteCodeInstruction::Push(word_of_int(v))),
        TypedKind::PushBool(b) => Some(ByteCodeInstruction::Push(word_of_bool(b))),
        TypedKind::Over => Some(ByteCodeInstruction::Over),
        TypedKind::Rot => Some(ByteCodeInstruction::Rot),
        TypedKind::Swap => Some(ByteCodeInstruction::Swap),
        TypedKind::Pop => Some(ByteCodeInstruction::Pop),
        TypedKind::Plus => Some(ByteCodeInstruction::Add),
        TypedKind::Minus => Some(ByteCodeInstruction::Sub),
        TypedKind::Multiply => Some(ByteCodeInstruction::Mul),
        TypedKind::Divide => Some(ByteCodeInstruction::Div),
        TypedKind::Modulo => Some(ByteCodeInstruction::Mod),
        TypedKind::GreaterThan => Some(ByteCodeInstruction::Gt),
        TypedKind::GreaterThanEquals => Some(ByteCodeInstruction::GtEq),
        TypedKind::LessThan => Some(ByteCodeInstruction::Lt),
        TypedKind::LessThanEquals => Some(ByteCodeInstruction::LtEq),
        TypedKind::Equals => Some(ByteCodeInstruction::Eq),
        TypedKind::Len => Some(ByteCodeInstruction::ListLen),
        TypedKind::Do => Some(ByteCodeInstruction::CallDynamic),
        _ => None,
    }
}

/// The instruction that prints a value of type `t`.
pub open spec fn print_instruction(t: Ty) -> ByteCodeInstruction {
    match t {
        Ty::List(_) => ByteCodeInstruction::PrintList,
        Ty::Bool => ByteCodeInstruction::PrintBool,
        _ => ByteCodeInstruction::Print,
    }
}

/// What lowering gives where it succeeds: the state after it and the code.
pub type Lowered = Result<(LowerModel, Seq<ByteCodeInstruction>), LowerError>;

/// Three local slots and two labels, handed out in that order.
pub open spec fn three_locals_two_labels(s: LowerModel) -> Result<
    (LowerModel, usize, usize, usize, usize, usize),
    LowerError,
> {
    match fresh_local(s) {
        Err(e) => Err(e),
        Ok((s1, a)) => match fresh_local(s1) {
            Err(e) => Err(e),
            Ok((s2, b)) => match fresh_local(s2) {
                Err(e) => Err(e),
                Ok((s3, c)) => match fresh_label(s3) {
                    Err(e) => Err(e),
                    Ok((s4, cond)) => match fresh_label(s4) {
                        Err(e) => Err(e),
                        Ok((s5, end)) => Ok((s5, a, b, c, cond, end)),
                    },
                },
            },
        },
    }
}

/// Four local slots and two labels, handed out in that order.
pub open spec fn four_locals_two_labels(s: LowerModel) -> Result<
    (LowerModel, usize, usize, usize, usize, usize, usize),
    LowerError,
> {
    match fresh_local(s) {
        Err(e) => Err(e),
        Ok((s1, a)) => match three_locals_two_labels(s1) {
            Err(e) => Err(e),
            Ok((s2, b, c, d, cond, end)) => Ok((s2, a, b, c, d, cond, end)),
        },
    }
}

/// Two labels and two local slots, handed out in that order.
pub open spec fn two_labels_two_locals(s: LowerModel) -> Result<
    (LowerModel, usize, usize, usize, usize),
    LowerError,
> {
    match fresh_label(s) {
        Err(e) => Err(e),
        Ok((s1, cond)) => match fresh_label(s1) {
            Err(e) => Err(e),
            Ok((s2, end)) => match fresh_local(s2) {
                Err(e) => Err(e),
                Ok((s3, list)) => match fresh_local(s3) {
                    Err(e) => Err(e),
                    Ok((s4, counter)) => Ok((s4, cond, end, list, counter)),
                },
            },
        },
    }
}

/// Binding the names of `names` from position `from` on, in order, each to a fresh
/// local slot: the state after it and one store for each name, after `code`.
pub open spec fn bind_slots(
    s: LowerModel,
    names: Seq<Seq<char>>,
    from: nat,
    code: Seq<ByteCodeInstruction>,
) -> Lowered
    decreases names.len() - from,
{
    if from >= names.len() {
        Ok((s, code))
    } else {
        match fresh_local(s) {
            Err(e) => Err(e),
            Ok((s1, slot)) => bind_slots(
                LowerModel { bindings: s1.bindings.push((names[from as int], slot)), ..s1 },
                names,
                from + 1,
                code.push(ByteCodeInstruction::Store { index: slot }),
            ),
        }
    }
}

/// The lowering of one typed operation: the state after it and its code.
pub open spec fn lower_one(s: LowerModel, op: TypedModel) -> Lowered
    decreases op, 0nat,
{
    match op.kind {
        TypedKind::PushList(elements) => match lower_backwards(s, elements, elements.len(), seq![]) {
            Err(e) => Err(e),
            Ok((s1, code)) => Ok(
                (
                    s1,
                    code.push(ByteCodeInstruction::Push(elements.len() as usize)).push(
                        ByteCodeInstruction::NewList,
                    ),
                ),
            ),
        },
        TypedKind::PushBlock(body) => {
            let index = s.pool.len();
            let name = block_name(index);
            match lower_all(LowerModel { pool: s.pool.push(name), ..s }, body, 0, seq![]) {
                Err(e) => Err(e),
                Ok((s1, code)) => Ok(
                    (
                        LowerModel {
                            emitted: with_code(
                                s1.emitted,
                                name,
                                code.push(ByteCodeInstruction::Return),
                            ),
                            ..s1
                        },
                        seq![ByteCodeInstruction::PushBlock { index: index as usize }],
                    ),
                ),
            }
        },
        TypedKind::Dup => if op.ins.len() == 0 {
            Err(LowerError::MissingInput)
        } else if op.ins[0] is List {
            match two_labels_two_locals(s) {
                Err(e) => Err(e),
                Ok((s1, cond, end, list, counter)) => Ok(
                    (s1, duplicate_list_code(list, counter, cond, end)),
                ),
            }
        } else {
            Ok((s, seq![ByteCodeInstruction::Dup]))
        },
        TypedKind::Print => if op.ins.len() == 0 {
            Err(LowerError::MissingInput)
        } else {
            Ok((s, seq![print_instruction(op.ins[0])]))
        },
        TypedKind::Not => Ok((s, seq![ByteCodeInstruction::Push(0), ByteCodeInstruction::Eq])),
        TypedKind::Identity => Ok((s, seq![])),
        TypedKind::MapEach => match three_locals_two_labels(s) {
            Err(e) => Err(e),
            Ok((s1, func, list, index, cond, end)) => Ok(
                (s1, map_code(func, list, index, cond, end)),
            ),
        },
        TypedKind::Filter => match four_locals_two_labels(s) {
            Err(e) => Err(e),
            Ok((s1, func, list, index, count, cond, end)) => Ok(
                (s1, filter_code(func, list, index, count, cond, end)),
            ),
        },
        TypedKind::Fold => match four_locals_two_labels(s) {
            Err(e) => Err(e),
            Ok((s1, func, list, index, acc, cond, end)) => Ok(
                (s1, fold_code(func, list, index, acc, cond, end)),
            ),
        },
        TypedKind::Foreach => match three_locals_two_labels(s) {
            Err(e) => Err(e),
            Ok((s1, func, list, index, cond, end)) => Ok(
                (s1, foreach_code(func, list, index, cond, end)),
            ),
        },
        TypedKind::DefineFunction { name, block } => match block.kind {
            TypedKind::PushBlock(body) => match lower_all(s, body, 0, seq![]) {
                Err(e) => Err(e),
                Ok((s1, code)) => Ok(
                    (
                        LowerModel {
                            pool: s1.pool.push(name),
                            emitted: with_code(
                                s1.emitted,
                                name,
                                code.push(ByteCodeInstruction::Return),
                            ),
                            ..s1
                        },
                        seq![],
                    ),
                ),
            },
            _ => Err(LowerError::Unsupported),
        },
        TypedKind::Call(name) => match position_of(s.pool, name, 0) {
            Some(index) => Ok((s, seq![ByteCodeInstruction::CallStatic { index: index as usize }])),
            None => Err(LowerError::UnknownFunction),
        },
        TypedKind::Value(name) => match slot_of(s.bindings, name, s.bindings.len()) {
            Some(slot) => Ok((s, seq![ByteCodeInstruction::Load { index: slot }])),
            None => Err(LowerError::UnknownBinding),
        },
        TypedKind::Binding { bindings, body } => match bind_slots(s, bindings, 0, seq![]) {
            Err(e) => Err(e),
            Ok((s1, stores)) => match lower_all(s1, body, 0, seq![]) {
                Err(e) => Err(e),
                Ok((s2, body_code)) => Ok(
                    (
                        LowerModel {
                            bindings: if s.bindings.len() <= s2.bindings.len() {
                                s2.bindings.subrange(0, s.bindings.len() as int)
                            } else {
                                s2.bindings
                            },
                            locals: if bindings.len() <= s2.locals {
                                (s2.locals - bindings.len()) as usize
                            } else {
                                0
                            },
                            ..s2
                        },
                        stores + body_code,
                    ),
                ),
            },
        },
        TypedKind::If { body, else_body } => match fresh_label(s) {
            Err(e) => Err(e),
            Ok((s1, end)) => match lower_all(s1, body, 0, seq![]) {
                Err(e) => Err(e),
                Ok((s2, then_code)) => match else_body {
                    None => Ok(
                        (
                            s2,
                            (seq![ByteCodeInstruction::JumpIfFalse { label: end }] + then_code).push(
                                ByteCodeInstruction::Label(end),
                            ),
                        ),
                    ),
                    Some(other) => match fresh_label(s2) {
                        Err(e) => Err(e),
                        Ok((s3, else_label)) => match lower_all(s3, other, 0, seq![]) {
                            Err(e) => Err(e),
                            Ok((s4, else_code)) => Ok(
                                (
                                    s4,
                                    ((seq![ByteCodeInstruction::JumpIfFalse { label: else_label }]
                                        + then_code).push(
                                        ByteCodeInstruction::Jump { label: end },
                                    ).push(ByteCodeInstruction::Label(else_label))
                                        + else_code).push(ByteCodeInstruction::Label(end)),
                                ),
                            ),
                        },
                    },
                },
            },
        },
        _ => match single_instruction(op.kind) {
            Some(instruction) => Ok((s, seq![instruction])),
            None => Err(LowerError::Unsupported),
        },
    }
}

/// The lowering of the operations of `ops` from position `from` on, in order, their
/// code after `code`.
pub open spec fn lower_all(
    s: LowerModel,
    ops: Seq<TypedModel>,
    from: nat,
    code: Seq<ByteCodeInstruction>,
) -> Lowered
    decreases ops, ops.len() - from,
{
    if from >= ops.len() {
        Ok((s, code))
    } else {
        match lower_one(s, ops[from as int]) {
            Err(e) => Err(e),
            Ok((s1, more)) => lower_all(s1, ops, from + 1, code + more),
        }
    }
}

/// The lowering of the first `n` operations of `ops`, the last of them first, their
/// code after `code`.
pub open spec fn lower_backwards(
    s: LowerModel,
    ops: Seq<TypedModel>,
    n: nat,
    code: Seq<ByteCodeInstruction>,
) -> Lowered
    decreases ops, n,
{
    if n == 0 || n > ops.len() {
        Ok((s, code))
    } else {
        match lower_one(s, ops[n - 1]) {
            Err(e) => Err(e),
            Ok((s1, more)) => lower_backwards(s1, ops, (n - 1) as nat, code + more),
        }
    }
}

/// The mathematical form of a stack frame: its code and the number of local slots it needs.
pub struct FrameModel {
    pub instructions: Seq<ByteCodeInstruction>,
    pub max_locals: usize,
}

/// The frames of the first `n` of `emitted`, in order, each with `max_locals` slots.
pub open spec fn frames_of(
    emitted: Seq<(Seq<char>, Seq<ByteCodeInstruction>)>,
    max_locals: usize,
    n: nat,
) -> Seq<(Seq<char>, FrameModel)>
    decreases n,
{
    if n == 0 || n > emitted.len() {
        Seq::empty()
    } else {
        frames_of(emitted, max_locals, (n - 1) as nat).push(
            (emitted[n - 1].0, FrameModel { instructions: emitted[n - 1].1, max_locals }),
        )
    }
}

/// The lowering of a program: the state after it and the frames, those of the blocks
/// and functions compiled so far first and that of `main`, the program itself, last.
/// Afterwards no local slot is in use and nothing is bound.
pub open spec fn lower_program(s: LowerModel, ops: Seq<TypedModel>) -> Result<
    (LowerModel, Seq<(Seq<char>, FrameModel)>),
    LowerError,
> {
    match lower_all(s, ops, 0, seq![]) {
        Err(e) => Err(e),
        Ok((s1, code)) => Ok(
            (
                LowerModel { locals: 0, bindings: Seq::empty(), ..s1 },
                frames_of(s1.emitted, s1.max_locals, s1.emitted.len()).push(
                    ("main"@, FrameModel { instructions: code, max_locals: s1.max_locals }),
                ),
            ),
        ),
    }
}

} // verus!
