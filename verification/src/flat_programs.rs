//! Programs of flat operations: what the checker accepts, the machine runs without a
//! fault of the stack.

use vstd::prelude::*;
use crate::checker_laws::lemma_apply_effect_stack;
use crate::checker_model::{
    CheckState, apply_effect, check_list, check_op, check_ops, check_program, emitted,
    initial_state, take_input, take_inputs, with_error, with_fresh, with_unified,
};
use crate::erasure::{Inference, unify_fuel};
use crate::erasure_laws::lemma_unify_keeps_reports;
use crate::flat_code::{
    all_flat, balanced, depth_after, flat_codes, lemma_flat_codes_run, lemma_lower_all_flat,
    value_error, went_well,
};
use crate::bytecode::ByteCodeInstruction;
use crate::checker_laws::lemma_report_residue;
use crate::lowering_model::{
    FrameModel, LowerError, LowerModel, frames_of, initial_lowerer, lower_program,
};
use crate::machine_model::{
    Machine, grown, initial_machine, interpret_program, load_code, load_frames, run,
};
use crate::ops::{OpModel, OpShape};
use crate::span::Span;
use crate::straight_line::{encoded, lemma_load_code, lemma_run_straight, straight};
use crate::typed_op::TypedModel;
use crate::types::Ty;

verus! {

/// Whether an operation is flat: a literal, a list of flat operations, or an
/// operation that works on the stack alone.
pub open spec fn flat_op(op: OpModel) -> bool
    decreases op,
{
    match op.kind {
        OpShape::PushBool(_)
        | OpShape::PushInt(_)
        | OpShape::Plus
        | OpShape::Minus
        | OpShape::Multiply
        | OpShape::Divide
        | OpShape::Modulo
        | OpShape::LessThan
        | OpShape::LessThanEquals
        | OpShape::GreaterThan
        | OpShape::GreaterThanEquals
        | OpShape::Equals
        | OpShape::Not
        | OpShape::Identity
        | OpShape::Dup
        | OpShape::Over
        | OpShape::Rot
        | OpShape::Swap
        | OpShape::Pop
        | OpShape::Print
        | OpShape::Len => true,
        OpShape::PushList(elements) => forall|k: int|
            0 <= k < elements.len() ==> flat_op(#[trigger] elements[k]),
        _ => false,
    }
}

/// Whether the operations of `ops` are all flat.
pub open spec fn all_flat_ops(ops: Seq<OpModel>) -> bool {
    forall|k: int| 0 <= k < ops.len() ==> flat_op(#[trigger] ops[k])
}

/// Whether `after` has the type stack and the surroundings of `before`, and every
/// diagnostic that `before` has.
pub open spec fn stack_kept(before: CheckState, after: CheckState) -> bool {
    &&& after.stack == before.stack
    &&& after.in_block == before.in_block
    &&& after.strict == before.strict
    &&& after.diagnostics.len() >= before.diagnostics.len()
}

/// Fresh variables change the table alone.
pub proof fn lemma_with_fresh_keeps(s: CheckState, n: nat)
    ensures
        stack_kept(s, with_fresh(s, n)),
        with_fresh(s, n).diagnostics == s.diagnostics,
    decreases n,
{
    if n > 0 {
        lemma_with_fresh_keeps(CheckState { table: s.table.push(None), ..s }, (n - 1) as nat);
    }
}

/// Unification leaves the type stack alone and takes no diagnostic away.
pub proof fn lemma_with_unified_keeps(s: CheckState, found: Ty, wanted: Ty, span: Span)
    ensures
        stack_kept(s, with_unified(s, found, wanted, span)),
{
    lemma_unify_keeps_reports(
        Inference { table: s.table, diagnostics: s.diagnostics },
        found,
        wanted,
        found,
        wanted,
        span,
        unify_fuel(s.table.len()),
    );
}

/// Checking a flat operation leaves the type stack alone and takes no diagnostic
/// away.
pub proof fn lemma_check_flat_keeps(s: CheckState, op: OpModel)
    requires
        flat_op(op),
    ensures
        stack_kept(s, check_op(s, op).0),
    decreases op, 0nat,
{
    match op.kind {
        OpShape::PushList(elements) => {
            lemma_check_list_keeps(s, elements, 0, None, Seq::empty());
        },
        _ => {
            match crate::checker_model::tabulated_effect(op.kind, s.table.len()) {
                Some((kind, ins, outs, fresh)) => {
                    lemma_with_fresh_keeps(s, fresh);
                },
                None => {},
            }
        },
    }
}

/// Checking the elements of a list of flat operations leaves the type stack alone
/// and takes no diagnostic away.
pub proof fn lemma_check_list_keeps(
    s: CheckState,
    elements: Seq<OpModel>,
    from: nat,
    element: Option<Ty>,
    done: Seq<TypedModel>,
)
    requires
        forall|k: int| 0 <= k < elements.len() ==> flat_op(#[trigger] elements[k]),
    ensures
        stack_kept(s, check_list(s, elements, from, element, done).0),
    decreases elements, elements.len() - from,
{
    if from < elements.len() {
        let op = elements[from as int];
        lemma_check_flat_keeps(s, op);
        let (s1, typed) = check_op(s, op);
        if typed.ins.len() != 0 || typed.outs.len() != 1 {
            lemma_with_fresh_keeps(
                with_error(
                    s1,
                    crate::checker_model::list_element_text(typed.ins, typed.outs),
                    op.span,
                ),
                1,
            );
        } else {
            match element {
                Some(first) => {
                    lemma_with_unified_keeps(s1, first, typed.outs[0], op.span);
                    lemma_check_list_keeps(
                        with_unified(s1, first, typed.outs[0], op.span),
                        elements,
                        from + 1,
                        element,
                        done.push(typed),
                    );
                },
                None => {
                    lemma_check_list_keeps(
                        s1,
                        elements,
                        from + 1,
                        Some(typed.outs[0]),
                        done.push(typed),
                    );
                },
            }
        }
    } else {
        lemma_with_fresh_keeps(s, 1);
    }
}

/// Outside a block, taking inputs takes no diagnostic away, and it adds one unless
/// the type stack holds as many entries as are taken.
pub proof fn lemma_take_inputs_reports(s: CheckState, ins: Seq<Ty>, n: nat, span: Span)
    requires
        n <= ins.len(),
        !s.in_block,
    ensures
        ({
            let after = take_inputs(s, ins, n, span);
            &&& after.diagnostics.len() >= s.diagnostics.len()
            &&& after.in_block == s.in_block
            &&& after.strict == s.strict
            &&& after.diagnostics.len() == s.diagnostics.len() ==> s.stack.len() >= n
        }),
    decreases n,
{
    if n > 0 {
        let s1 = take_input(s, ins[n - 1], span);
        if s.stack.len() > 0 {
            lemma_with_unified_keeps(
                CheckState { stack: s.stack.drop_last(), ..s },
                s.stack.last().0,
                ins[n - 1],
                span,
            );
        }
        lemma_take_inputs_reports(s1, ins, (n - 1) as nat, span);
    }
}

/// Outside a block, applying an effect takes no diagnostic away, and where it adds
/// none the type stack held the inputs and is afterwards as much deeper as the effect
/// has more outputs than inputs.
pub proof fn lemma_apply_effect_reports(s: CheckState, ins: Seq<Ty>, outs: Seq<Ty>, span: Span)
    requires
        !s.in_block,
    ensures
        ({
            let after = apply_effect(s, ins, outs, span);
            &&& after.diagnostics.len() >= s.diagnostics.len()
            &&& after.in_block == s.in_block
            &&& after.strict == s.strict
            &&& after.diagnostics.len() == s.diagnostics.len() ==> s.stack.len() >= ins.len()
                && after.stack.len() == s.stack.len() - ins.len() + outs.len()
        }),
{
    lemma_take_inputs_reports(s, ins, ins.len(), span);
    lemma_apply_effect_stack(s, ins, outs, span);
}

/// Checking flat operations outside a block takes no diagnostic away, and where it
/// adds none, the type stack held the inputs of every operation in its turn: the
/// typed operations are balanced on a stack as deep as the type stack was, and leave
/// one as deep as the type stack is afterwards.
pub proof fn lemma_check_ops_balanced(
    s: CheckState,
    ops: Seq<OpModel>,
    from: nat,
    done: Seq<TypedModel>,
)
    requires
        from <= ops.len(),
        all_flat_ops(ops),
        !s.in_block,
    ensures
        ({
            let (after, typed) = check_ops(s, ops, from, done);
            &&& after.diagnostics.len() >= s.diagnostics.len()
            &&& !after.in_block
            &&& after.strict == s.strict
            &&& typed.len() == done.len() + ops.len() - from
            &&& after.diagnostics.len() == s.diagnostics.len() ==> balanced(
                typed,
                done.len(),
                s.stack.len() as int,
            ) && depth_after(typed, done.len(), s.stack.len() as int) == after.stack.len()
        }),
    decreases ops.len() - from,
{
    if from < ops.len() {
        let op = ops[from as int];
        lemma_check_flat_keeps(s, op);
        let (s1, t) = check_op(s, op);
        lemma_apply_effect_reports(s1, t.ins, t.outs, op.span);
        let s2 = apply_effect(s1, t.ins, t.outs, op.span);
        let e = emitted(s2.table, t);
        lemma_check_ops_balanced(s2, ops, from + 1, done.push(e));
        lemma_check_ops_keeps_done(s2, ops, from + 1, done.push(e), done.len());
        let (after, typed) = check_ops(s, ops, from, done);
        assert(typed[done.len() as int] == e);
    }
}

/// Checking operations keeps the typed operations emitted before.
pub proof fn lemma_check_ops_keeps_done(
    s: CheckState,
    ops: Seq<OpModel>,
    from: nat,
    done: Seq<TypedModel>,
    k: nat,
)
    requires
        k < done.len(),
    ensures
        check_ops(s, ops, from, done).1.len() >= done.len(),
        check_ops(s, ops, from, done).1[k as int] == done[k as int],
    decreases ops.len() - from,
{
    if from < ops.len() {
        let (s1, t) = check_op(s, ops[from as int]);
        let s2 = apply_effect(s1, t.ins, t.outs, ops[from as int].span);
        lemma_check_ops_keeps_done(s2, ops, from + 1, done.push(emitted(s2.table, t)), k);
    }
}

/// The one frame of a program without blocks: its code under the name `main`, with
/// no local slot.
pub open spec fn main_frame(code: Seq<ByteCodeInstruction>) -> Seq<(Seq<char>, FrameModel)> {
    seq![("main"@, (FrameModel { instructions: code, max_locals: 0 }))]
}

/// A program of flat operations that the checker accepts is run without a fault of
/// the stack.
///
/// Where the operations of a program are flat, the checker reports nothing, and the
/// typed operations are flat too (no list is duplicated), the program is lowered to
/// one frame of code without jumps, whatever the checker is strict about. Loaded into
/// a new machine and run for as many steps as the code has instructions, that code
/// either stops for the values it works on (a division by zero, a heap that is full)
/// or runs to its end, and the operand stack is then as deep as the type stack of the
/// checker, which is empty where the checker is strict: no instruction finds the stack
/// too short.
pub proof fn lemma_accepted_flat_program_runs(strict: bool, ops: Seq<OpModel>, fuel: nat)
    requires
        all_flat_ops(ops),
        ({
            let (s, typed) = check_program(initial_state(strict), ops);
            &&& s.diagnostics.len() == 0
            &&& all_flat(typed, 0)
            &&& encoded(flat_codes(typed, 0), 0).len() <= usize::MAX
            &&& fuel >= flat_codes(typed, 0).len()
        }),
    ensures
        ({
            let (s, typed) = check_program(initial_state(strict), ops);
            let frames = main_frame(flat_codes(typed, 0));
            let (m, failure) = interpret_program(initial_machine(), frames, Seq::empty(), fuel);
            &&& lower_program(initial_lowerer(), typed) == Ok::<
                (LowerModel, Seq<(Seq<char>, FrameModel)>),
                LowerError,
            >((initial_lowerer(), frames))
            &&& match failure {
                Some(e) => value_error(e),
                None => m.stack.len() == s.stack.len() && m.pc == m.rom.len() && (strict
                    ==> m.stack.len() == 0),
            }
        }),
{
    let start = initial_state(strict);
    let (s1, typed) = check_ops(start, ops, 0, Seq::empty());
    let (s, same) = check_program(start, ops);
    lemma_check_ops_balanced(start, ops, 0, Seq::empty());
    lemma_report_residue(s1, s1.stack.len());
    assert(same == typed);
    assert(s1.diagnostics.len() == 0);
    assert(s.stack == s1.stack);
    let code = flat_codes(typed, 0);
    let frames = main_frame(code);
    lemma_lower_all_flat(initial_lowerer(), typed, 0, seq![]);
    assert(seq![] + code =~= code);
    let lowered = lower_program(initial_lowerer(), typed);
    assert(lowered is Ok);
    assert(lowered->Ok_0.0 =~= initial_lowerer());
    assert(lowered->Ok_0.1 =~= frames) by {
        reveal_with_fuel(frames_of, 1);
    }
    let m0 = initial_machine();
    let functions = Seq::<(Seq<char>, usize)>::empty().push(("main"@, 0usize));
    let entered = Machine { pc: 0, locals: grown(m0.locals, 0), ..m0 };
    assert(entered == m0);
    let loaded = load_code(m0, code, 0);
    lemma_load_code(m0, code, 0);
    assert(load_frames(m0, Seq::empty(), frames, 0) == (loaded, functions)) by {
        reveal_with_fuel(load_frames, 2);
    }
    assert(loaded.rom =~= encoded(code, 0));
    assert(loaded.rom.subrange(0, loaded.rom.len() as int) =~= encoded(code, 0));
    lemma_run_straight(loaded, code, 0, Seq::empty(), functions, fuel);
    lemma_flat_codes_run(loaded, typed, 0, Seq::empty(), functions);
    assert(lowered == Ok::<(LowerModel, Seq<(Seq<char>, FrameModel)>), LowerError>(
        (initial_lowerer(), frames),
    ));
    assert(interpret_program(m0, frames, Seq::empty(), fuel) == run(
        loaded,
        Seq::empty(),
        functions,
        fuel,
    ));
    assert(loaded.stack.len() == 0);
    assert(went_well(straight(loaded, code, 0, Seq::empty(), functions), s1.stack.len() as int));
}

} // verus!
