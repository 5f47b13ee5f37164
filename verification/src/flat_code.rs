//! Operations that are lowered to code without jumps: the code they are lowered to,
//! and how it moves the operand stack.

use vstd::prelude::*;
use crate::bytecode::{ByteCodeInstruction, encoding};
use crate::lowering_model::{
    LowerError, LowerModel, lower_all, lower_backwards, lower_one, print_instruction,
    single_instruction, word_of_bool, word_of_int,
};
use crate::machine_model::{Machine, VmError, execute};
use crate::straight_line::{all_plain, lemma_straight_concat, straight};
use crate::typed_op::{TypedKind, TypedModel};

verus! {

/// Whether a typed operation is a literal: a truth value, an integer, or a list of
/// literals, with the effect of a push.
pub open spec fn literal(op: TypedModel) -> bool
    decreases op,
{
    &&& op.ins.len() == 0
    &&& op.outs.len() == 1
    &&& match op.kind {
        TypedKind::PushBool(_) => true,
        TypedKind::PushInt(_) => true,
        TypedKind::PushList(elements) => elements.len() <= usize::MAX && forall|k: int|
            0 <= k < elements.len() ==> literal(#[trigger] elements[k]),
        _ => false,
    }
}

/// The numbers of inputs and outputs of an operation that works on the stack alone
/// and is lowered without a jump; `None` for any other operation.
pub open spec fn stack_arity(kind: TypedKind) -> Option<(nat, nat)> {
    match kind {
        TypedKind::Plus
        | TypedKind::Minus
        | TypedKind::Multiply
        | TypedKind::Divide
        | TypedKind::Modulo
        | TypedKind::LessThan
        | TypedKind::LessThanEquals
        | TypedKind::GreaterThan
        | TypedKind::GreaterThanEquals
        | TypedKind::Equals => Some((2, 1)),
        TypedKind::Not => Some((1, 1)),
        TypedKind::Identity => Some((1, 1)),
        TypedKind::Len => Some((1, 1)),
        TypedKind::Dup => Some((1, 2)),
        TypedKind::Over => Some((2, 3)),
        TypedKind::Rot => Some((3, 3)),
        TypedKind::Swap => Some((2, 2)),
        TypedKind::Pop => Some((1, 0)),
        TypedKind::Print => Some((1, 0)),
        _ => None,
    }
}

/// Whether a typed operation is flat: a literal, or an operation that works on the
/// stack alone, with as many inputs and outputs as its kind has. To duplicate a list
/// takes a loop, so `dup` is flat on other values only.
pub open spec fn flat(op: TypedModel) -> bool {
    literal(op) || (stack_arity(op.kind) matches Some(arity) && op.ins.len() == arity.0
        && op.outs.len() == arity.1 && !(op.kind is Dup && op.ins[0] is List))
}

/// Whether the operations of `ops` from position `from` on are all flat.
pub open spec fn all_flat(ops: Seq<TypedModel>, from: nat) -> bool {
    forall|k: int| from <= k < ops.len() ==> flat(#[trigger] ops[k])
}

/// The code of a literal.
pub open spec fn literal_code(op: TypedModel) -> Seq<ByteCodeInstruction>
    decreases op, 0nat,
{
    match op.kind {
        TypedKind::PushBool(b) => seq![ByteCodeInstruction::Push(word_of_bool(b))],
        TypedKind::PushInt(v) => seq![ByteCodeInstruction::Push(word_of_int(v))],
        TypedKind::PushList(elements) => elements_code(elements, elements.len()).push(
            ByteCodeInstruction::Push(elements.len() as usize),
        ).push(ByteCodeInstruction::NewList),
        _ => Seq::empty(),
    }
}

/// The code of the first `n` of the literals `elements`, the last of them first.
pub open spec fn elements_code(elements: Seq<TypedModel>, n: nat) -> Seq<ByteCodeInstruction>
    decreases elements, n,
{
    if n == 0 || n > elements.len() {
        Seq::empty()
    } else {
        literal_code(elements[n - 1]) + elements_code(elements, (n - 1) as nat)
    }
}

/// The code of a flat operation.
pub open spec fn flat_code(op: TypedModel) -> Seq<ByteCodeInstruction> {
    match op.kind {
        TypedKind::PushBool(_) | TypedKind::PushInt(_) | TypedKind::PushList(_) => literal_code(op),
        TypedKind::Not => seq![ByteCodeInstruction::Push(0), ByteCodeInstruction::Eq],
        TypedKind::Identity => Seq::empty(),
        TypedKind::Dup => seq![ByteCodeInstruction::Dup],
        TypedKind::Print => seq![print_instruction(op.ins[0])],
        _ => match single_instruction(op.kind) {
            Some(i) => seq![i],
            None => Seq::empty(),
        },
    }
}

/// The code of the flat operations of `ops` from position `from` on, in order.
pub open spec fn flat_codes(ops: Seq<TypedModel>, from: nat) -> Seq<ByteCodeInstruction>
    decreases ops.len() - from,
{
    if from >= ops.len() {
        Seq::empty()
    } else {
        flat_code(ops[from as int]) + flat_codes(ops, from + 1)
    }
}

/// A literal is lowered to its code, whatever the state of the lowerer is, and the
/// lowerer stays as it is.
pub proof fn lemma_lower_literal(s: LowerModel, op: TypedModel)
    requires
        literal(op),
    ensures
        lower_one(s, op) == Ok::<(LowerModel, Seq<ByteCodeInstruction>), LowerError>((s, literal_code(op))),
        all_plain(literal_code(op)),
    decreases op, 1nat,
{
    match op.kind {
        TypedKind::PushList(elements) => {
            lemma_lower_elements(s, elements, elements.len(), seq![]);
            assert(seq![] + elements_code(elements, elements.len()) =~= elements_code(
                elements,
                elements.len(),
            ));
        },
        _ => {},
    }
}

/// Literals are lowered, the last of them first, to their code after the code so
/// far.
pub proof fn lemma_lower_elements(
    s: LowerModel,
    elements: Seq<TypedModel>,
    n: nat,
    code: Seq<ByteCodeInstruction>,
)
    requires
        n <= elements.len(),
        forall|k: int| 0 <= k < elements.len() ==> literal(#[trigger] elements[k]),
    ensures
        lower_backwards(s, elements, n, code) == Ok::<(LowerModel, Seq<ByteCodeInstruction>), LowerError>(
            (s, code + elements_code(elements, n)),
        ),
        all_plain(elements_code(elements, n)),
    decreases elements, n,
{
    if n == 0 {
        assert(code + elements_code(elements, 0) =~= code);
    } else {
        lemma_lower_literal(s, elements[n - 1]);
        let more = literal_code(elements[n - 1]);
        lemma_lower_elements(s, elements, (n - 1) as nat, code + more);
        assert(code + more + elements_code(elements, (n - 1) as nat) =~= code + elements_code(
            elements,
            n,
        ));
    }
}

/// A flat operation is lowered to its code, whatever the state of the lowerer is, and
/// the lowerer stays as it is. The code neither jumps nor calls.
pub proof fn lemma_lower_flat(s: LowerModel, op: TypedModel)
    requires
        flat(op),
    ensures
        lower_one(s, op) == Ok::<(LowerModel, Seq<ByteCodeInstruction>), LowerError>((s, flat_code(op))),
        all_plain(flat_code(op)),
{
    if literal(op) {
        lemma_lower_literal(s, op);
    }
}

/// Flat operations are lowered to their code, one after the other.
pub proof fn lemma_lower_all_flat(
    s: LowerModel,
    ops: Seq<TypedModel>,
    from: nat,
    code: Seq<ByteCodeInstruction>,
)
    requires
        from <= ops.len(),
        all_flat(ops, from),
    ensures
        lower_all(s, ops, from, code) == Ok::<(LowerModel, Seq<ByteCodeInstruction>), LowerError>(
            (s, code + flat_codes(ops, from)),
        ),
        all_plain(flat_codes(ops, from)),
    decreases ops.len() - from,
{
    if from < ops.len() {
        lemma_lower_flat(s, ops[from as int]);
        let more = flat_code(ops[from as int]);
        lemma_lower_all_flat(s, ops, from + 1, code + more);
        assert(code + more + flat_codes(ops, from + 1) =~= code + flat_codes(ops, from));
    } else {
        assert(code + flat_codes(ops, from) =~= code);
    }
}

/// Whether an error comes from the values that a program works on, not from the
/// shape of its stack or of its code: a division by zero, a pointer to no list, or a
/// heap that is full.
pub open spec fn value_error(e: VmError) -> bool {
    e is DivisionByZero || e is BadAddress || e is HeapExhausted
}

/// Whether executing code on a stack of depth `before` went as it should: it failed
/// for the values alone, or it left a stack of depth `after`.
pub open spec fn went_well(r: Result<Machine, VmError>, after: int) -> bool {
    match r {
        Ok(m) => m.stack.len() == after,
        Err(e) => value_error(e),
    }
}

/// The code of a literal pushes one value.
pub proof fn lemma_literal_runs(
    m: Machine,
    op: TypedModel,
    constants: Seq<Seq<char>>,
    functions: Seq<(Seq<char>, usize)>,
)
    requires
        literal(op),
    ensures
        went_well(
            straight(m, literal_code(op), 0, constants, functions),
            m.stack.len() as int + 1,
        ),
    decreases op, 1nat,
{
    reveal_with_fuel(straight, 3);
    match op.kind {
        TypedKind::PushList(elements) => {
            let n = elements.len();
            let first = elements_code(elements, n);
            let last = seq![
                ByteCodeInstruction::Push(n as usize),
                ByteCodeInstruction::NewList,
            ];
            assert(literal_code(op) =~= first + last);
            lemma_elements_run(m, elements, n, constants, functions);
            lemma_straight_concat(m, first, last, 0, constants, functions);
        },
        _ => {},
    }
}

/// The code of `n` literals pushes `n` values.
pub proof fn lemma_elements_run(
    m: Machine,
    elements: Seq<TypedModel>,
    n: nat,
    constants: Seq<Seq<char>>,
    functions: Seq<(Seq<char>, usize)>,
)
    requires
        n <= elements.len(),
        forall|k: int| 0 <= k < elements.len() ==> literal(#[trigger] elements[k]),
    ensures
        went_well(
            straight(m, elements_code(elements, n), 0, constants, functions),
            m.stack.len() as int + n,
        ),
    decreases elements, n,
{
    if n > 0 {
        let first = literal_code(elements[n - 1]);
        let rest = elements_code(elements, (n - 1) as nat);
        lemma_literal_runs(m, elements[n - 1], constants, functions);
        lemma_straight_concat(m, first, rest, 0, constants, functions);
        match straight(m, first, 0, constants, functions) {
            Ok(next) => {
                lemma_elements_run(next, elements, (n - 1) as nat, constants, functions);
            },
            Err(_) => {},
        }
    }
}

/// The number of values that an instruction takes from the stack, for the
/// instructions that flat operations are lowered to.
pub open spec fn takes(i: ByteCodeInstruction) -> Option<nat> {
    match i {
        ByteCodeInstruction::Push(_) => Some(0),
        ByteCodeInstruction::Add
        | ByteCodeInstruction::Sub
        | ByteCodeInstruction::Mul
        | ByteCodeInstruction::Div
        | ByteCodeInstruction::Mod
        | ByteCodeInstruction::Gt
        | ByteCodeInstruction::GtEq
        | ByteCodeInstruction::Lt
        | ByteCodeInstruction::LtEq
        | ByteCodeInstruction::Eq
        | ByteCodeInstruction::Over
        | ByteCodeInstruction::Swap => Some(2),
        ByteCodeInstruction::Rot => Some(3),
        ByteCodeInstruction::Pop
        | ByteCodeInstruction::Dup
        | ByteCodeInstruction::Print
        | ByteCodeInstruction::PrintBool
        | ByteCodeInstruction::PrintList
        | ByteCodeInstruction::ListLen => Some(1),
        _ => None,
    }
}

/// The number of values that such an instruction leaves on the stack.
pub open spec fn leaves(i: ByteCodeInstruction) -> nat {
    match i {
        ByteCodeInstruction::Pop
        | ByteCodeInstruction::Print
        | ByteCodeInstruction::PrintBool
        | ByteCodeInstruction::PrintList => 0,
        ByteCodeInstruction::Swap | ByteCodeInstruction::Dup => 2,
        ByteCodeInstruction::Over | ByteCodeInstruction::Rot => 3,
        _ => 1,
    }
}

/// An instruction with an arity, on a stack that holds what it takes, fails for the
/// values alone or leaves what its arity says.
pub proof fn lemma_instruction_moves(
    m: Machine,
    i: ByteCodeInstruction,
    constants: Seq<Seq<char>>,
    functions: Seq<(Seq<char>, usize)>,
)
    requires
        takes(i) is Some,
        m.stack.len() >= takes(i)->0,
    ensures
        went_well(execute(m, i, constants, functions), m.stack.len() - takes(i)->0 + leaves(i)),
{
}

/// Code of one instruction is executed as that instruction, after the program
/// counter has moved behind it.
pub proof fn lemma_straight_one(
    m: Machine,
    i: ByteCodeInstruction,
    constants: Seq<Seq<char>>,
    functions: Seq<(Seq<char>, usize)>,
)
    ensures
        straight(m, seq![i], 0, constants, functions) == execute(
            Machine { pc: (m.pc + encoding(i).len()) as usize, ..m },
            i,
            constants,
            functions,
        ),
{
    reveal_with_fuel(straight, 2);
}

/// The code of a flat operation moves the stack as the effect of the operation
/// says: on a stack that holds the inputs it fails for the values alone, or it leaves
/// a stack that is as much deeper as the operation has more outputs than inputs.
pub proof fn lemma_flat_runs(
    m: Machine,
    op: TypedModel,
    constants: Seq<Seq<char>>,
    functions: Seq<(Seq<char>, usize)>,
)
    requires
        flat(op),
        m.stack.len() >= op.ins.len(),
    ensures
        went_well(
            straight(m, flat_code(op), 0, constants, functions),
            m.stack.len() - op.ins.len() + op.outs.len(),
        ),
{
    if literal(op) {
        lemma_literal_runs(m, op, constants, functions);
    } else {
        match op.kind {
            TypedKind::Identity => {},
            TypedKind::Not => {
                let first = ByteCodeInstruction::Push(0);
                let second = ByteCodeInstruction::Eq;
                assert(flat_code(op) =~= seq![first] + seq![second]);
                lemma_straight_concat(m, seq![first], seq![second], 0, constants, functions);
                lemma_straight_one(m, first, constants, functions);
                let next = straight(m, seq![first], 0, constants, functions)->Ok_0;
                lemma_straight_one(next, second, constants, functions);
                lemma_instruction_moves(
                    Machine { pc: (next.pc + encoding(second).len()) as usize, ..next },
                    second,
                    constants,
                    functions,
                );
            },
            _ => {
                let i = flat_code(op)[0];
                assert(flat_code(op) =~= seq![i]);
                lemma_straight_one(m, i, constants, functions);
                lemma_instruction_moves(
                    Machine { pc: (m.pc + encoding(i).len()) as usize, ..m },
                    i,
                    constants,
                    functions,
                );
            },
        }
    }
}

/// Whether a stack of depth `depth` holds the inputs of each of the operations of
/// `ops` from position `from` on, when they are executed in order.
pub open spec fn balanced(ops: Seq<TypedModel>, from: nat, depth: int) -> bool
    decreases ops.len() - from,
{
    if from >= ops.len() {
        true
    } else {
        depth >= ops[from as int].ins.len() && balanced(
            ops,
            from + 1,
            depth - ops[from as int].ins.len() + ops[from as int].outs.len(),
        )
    }
}

/// The depth of the stack after the operations of `ops` from position `from` on, on a
/// stack of depth `depth`.
pub open spec fn depth_after(ops: Seq<TypedModel>, from: nat, depth: int) -> int
    decreases ops.len() - from,
{
    if from >= ops.len() {
        depth
    } else {
        depth_after(
            ops,
            from + 1,
            depth - ops[from as int].ins.len() + ops[from as int].outs.len(),
        )
    }
}

/// The code of flat operations moves the stack as their effects add up.
pub proof fn lemma_flat_codes_run(
    m: Machine,
    ops: Seq<TypedModel>,
    from: nat,
    constants: Seq<Seq<char>>,
    functions: Seq<(Seq<char>, usize)>,
)
    requires
        from <= ops.len(),
        all_flat(ops, from),
        balanced(ops, from, m.stack.len() as int),
    ensures
        went_well(
            straight(m, flat_codes(ops, from), 0, constants, functions),
            depth_after(ops, from, m.stack.len() as int),
        ),
    decreases ops.len() - from,
{
    if from < ops.len() {
        let first = flat_code(ops[from as int]);
        let rest = flat_codes(ops, from + 1);
        lemma_flat_runs(m, ops[from as int], constants, functions);
        lemma_straight_concat(m, first, rest, 0, constants, functions);
        match straight(m, first, 0, constants, functions) {
            Ok(next) => {
                lemma_flat_codes_run(next, ops, from + 1, constants, functions);
            },
            Err(_) => {},
        }
    }
}

} // verus!
