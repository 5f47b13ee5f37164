//! What holds of the type checker whatever program it checks: its erasure table stays
//! free of loops and only grows, a strict checker that accepts a program leaves nothing on
//! the type stack, and an effect moves the type stack by what it takes and leaves.

use vstd::prelude::*;
use crate::checker_model::{
    CheckState, apply_effect, at_span, bind_names, check_block, check_list, check_op, check_ops,
    check_program, check_symmetry, compare_sides, emitted, initial_state, pop_for_binding,
    report_residue, tabulated_effect, take_input, take_inputs, with_fresh, with_unified,
};
use crate::erasure::{Inference, unify_fuel};
use crate::erasure_laws::{
    acyclic, lemma_empty_acyclic, lemma_erased_names_only_free, lemma_fresh_acyclic,
    lemma_table_extends_twice, lemma_unify_acyclic, only_free, table_extends,
};
use crate::ops::{OpModel, OpShape};
use crate::span::Span;
use crate::typed_op::TypedModel;
use crate::types::Ty;

verus! {

/// Whether a checker in state `after` is as sound as it was in state `before`: the
/// chains of its erasure table do not loop, the table has only grown, with every
/// variable that was bound bound to what it was bound to, and the checker is as strict
/// as it was.
pub open spec fn sound_after(before: CheckState, after: CheckState) -> bool {
    acyclic(after.table) && table_extends(before.table, after.table) && after.strict
        == before.strict
}

/// A new checker has an erasure table without chains.
pub proof fn lemma_initial_sound(strict: bool)
    ensures
        acyclic(initial_state(strict).table),
{
    lemma_empty_acyclic();
}

/// New free variables make no chain loop.
pub proof fn lemma_with_fresh_sound(s: CheckState, n: nat)
    requires
        acyclic(s.table),
    ensures
        sound_after(s, with_fresh(s, n)),
    decreases n,
{
    if n > 0 {
        lemma_fresh_acyclic(s.table);
        let s1 = CheckState { table: s.table.push(None), ..s };
        lemma_with_fresh_sound(s1, (n - 1) as nat);
        lemma_table_extends_twice(s.table, s1.table, with_fresh(s1, (n - 1) as nat).table);
    }
}

/// Unifying two types makes no chain loop.
pub proof fn lemma_with_unified_sound(s: CheckState, found: Ty, wanted: Ty, span: Span)
    requires
        acyclic(s.table),
    ensures
        sound_after(s, with_unified(s, found, wanted, span)),
{
    lemma_unify_acyclic(
        Inference { table: s.table, diagnostics: s.diagnostics },
        found,
        wanted,
        found,
        wanted,
        span,
        unify_fuel(s.table.len()),
    );
}

/// Taking inputs makes no chain loop.
pub proof fn lemma_take_inputs_sound(s: CheckState, ins: Seq<Ty>, n: nat, span: Span)
    requires
        acyclic(s.table),
    ensures
        sound_after(s, take_inputs(s, ins, n, span)),
    decreases n,
{
    if n == 0 || n > ins.len() {
    } else {
        if s.stack.len() > 0 {
            lemma_with_unified_sound(
                CheckState { stack: s.stack.drop_last(), ..s },
                s.stack.last().0,
                ins[n - 1],
                span,
            );
        }
        let s1 = take_input(s, ins[n - 1], span);
        lemma_take_inputs_sound(s1, ins, (n - 1) as nat, span);
        lemma_table_extends_twice(
            s.table,
            s1.table,
            take_inputs(s1, ins, (n - 1) as nat, span).table,
        );
    }
}

/// Applying an effect to the type stack makes no chain loop.
pub proof fn lemma_apply_effect_sound(s: CheckState, ins: Seq<Ty>, outs: Seq<Ty>, span: Span)
    requires
        acyclic(s.table),
    ensures
        sound_after(s, apply_effect(s, ins, outs, span)),
{
    lemma_take_inputs_sound(s, ins, ins.len(), span);
}

/// Binding names makes no chain loop.
pub proof fn lemma_bind_names_sound(
    s: CheckState,
    names: Seq<(Seq<char>, Span)>,
    n: nat,
    bound: Seq<Seq<char>>,
)
    requires
        acyclic(s.table),
    ensures
        sound_after(s, bind_names(s, names, n, bound).0),
    decreases n,
{
    if n == 0 || n > names.len() {
    } else {
        let (s1, popped) = pop_for_binding(s, names[n - 1].1);
        if s.stack.len() == 0 && s.in_block {
            lemma_fresh_acyclic(s.table);
        }
        match popped {
            Some((t, _)) => {
                let s2 = CheckState { bindings: s1.bindings.push((names[n - 1].0, t)), ..s1 };
                lemma_bind_names_sound(s2, names, (n - 1) as nat, bound.push(names[n - 1].0));
                lemma_table_extends_twice(
                    s.table,
                    s2.table,
                    bind_names(s2, names, (n - 1) as nat, bound.push(names[n - 1].0)).0.table,
                );
            },
            None => {},
        }
    }
}

/// Comparing the two sides of an effect changes neither the table nor the strictness.
pub proof fn lemma_compare_sides_keeps(
    s: CheckState,
    ins: Seq<Ty>,
    outs: Seq<Ty>,
    from: nat,
    span: Span,
)
    ensures
        compare_sides(s, ins, outs, from, span).table == s.table,
        compare_sides(s, ins, outs, from, span).strict == s.strict,
    decreases ins.len() - from,
{
    if from < ins.len() && from < outs.len() {
        let s1 = if ins[from as int] != outs[from as int] {
            crate::checker_model::with_error(
                s,
                crate::checker_model::asymmetry_text(ins, outs),
                span,
            )
        } else {
            s
        };
        lemma_compare_sides_keeps(s1, ins, outs, from + 1, span);
    }
}

/// Checking the symmetry of a branch changes neither the table nor the strictness.
pub proof fn lemma_check_symmetry_keeps(s: CheckState, ins: Seq<Ty>, outs: Seq<Ty>, span: Span)
    ensures
        check_symmetry(s, ins, outs, span).table == s.table,
        check_symmetry(s, ins, outs, span).strict == s.strict,
{
    let s0 = if ins.len() != outs.len() {
        crate::checker_model::with_error(s, crate::checker_model::asymmetry_text(ins, outs), span)
    } else {
        s
    };
    lemma_compare_sides_keeps(s0, ins, outs, 0, span);
}

/// Checking one operation makes no chain loop.
pub proof fn lemma_check_op_sound(s: CheckState, op: OpModel)
    requires
        acyclic(s.table),
    ensures
        sound_after(s, check_op(s, op).0),
    decreases op, 0nat,
{
    match op.kind {
        OpShape::PushList(elements) => {
            lemma_check_list_sound(s, elements, 0, None, Seq::empty());
        },
        OpShape::PushBlock(body) => {
            lemma_check_block_sound(s, body);
        },
        OpShape::DumpStack => {},
        OpShape::DefineFunction { name, body } => {
            lemma_check_block_sound(s, body);
        },
        OpShape::Identifier(name) => {},
        OpShape::If { body, else_body } => {
            lemma_check_block_sound(s, body);
            let (s1, then_block) = check_block(s, body);
            match else_body {
                None => {
                    lemma_check_symmetry_keeps(s1, then_block.ins, then_block.outs, op.span);
                },
                Some(other) => {
                    lemma_check_block_sound(s1, other);
                    let (s2, else_block) = check_block(s1, other);
                    lemma_check_symmetry_keeps(s2, then_block.ins, then_block.outs, op.span);
                    let s3 = check_symmetry(s2, then_block.ins, then_block.outs, op.span);
                    lemma_check_symmetry_keeps(s3, else_block.ins, else_block.outs, op.span);
                    let s4 = check_symmetry(s3, else_block.ins, else_block.outs, op.span);
                    let then_type = Ty::Block { ins: then_block.ins, outs: then_block.outs };
                    let else_type = Ty::Block { ins: else_block.ins, outs: else_block.outs };
                    lemma_with_unified_sound(s4, then_type, else_type, op.span);
                    let s5 = with_unified(s4, then_type, else_type, op.span);
                    lemma_table_extends_twice(s.table, s1.table, s2.table);
                    lemma_table_extends_twice(s.table, s4.table, s5.table);
                },
            }
        },
        OpShape::Binding { bindings, body } => {
            lemma_bind_names_sound(s, bindings, bindings.len(), Seq::empty());
            let (s1, bound) = bind_names(s, bindings, bindings.len(), Seq::empty());
            lemma_check_ops_sound(s1, body, 0, Seq::empty());
            lemma_table_extends_twice(
                s.table,
                s1.table,
                check_ops(s1, body, 0, Seq::empty()).0.table,
            );
        },
        _ => {
            match tabulated_effect(op.kind, s.table.len()) {
                Some((kind, ins, outs, fresh)) => {
                    lemma_with_fresh_sound(s, fresh);
                },
                None => {},
            }
        },
    }
}

/// Checking a sequence of operations makes no chain loop.
pub proof fn lemma_check_ops_sound(
    s: CheckState,
    ops: Seq<OpModel>,
    from: nat,
    done: Seq<TypedModel>,
)
    requires
        acyclic(s.table),
    ensures
        sound_after(s, check_ops(s, ops, from, done).0),
    decreases ops, ops.len() - from,
{
    if from < ops.len() {
        lemma_check_op_sound(s, ops[from as int]);
        let (s1, typed) = check_op(s, ops[from as int]);
        lemma_apply_effect_sound(s1, typed.ins, typed.outs, ops[from as int].span);
        let s2 = apply_effect(s1, typed.ins, typed.outs, ops[from as int].span);
        lemma_check_ops_sound(s2, ops, from + 1, done.push(emitted(s2.table, typed)));
        let s3 = check_ops(s2, ops, from + 1, done.push(emitted(s2.table, typed))).0;
        lemma_table_extends_twice(s.table, s1.table, s2.table);
        lemma_table_extends_twice(s.table, s2.table, s3.table);
    }
}

/// Checking a block makes no chain loop.
pub proof fn lemma_check_block_sound(s: CheckState, ops: Seq<OpModel>)
    requires
        acyclic(s.table),
    ensures
        sound_after(s, check_block(s, ops).0),
    decreases ops, ops.len() + 1,
{
    let inner = CheckState { stack: Seq::empty(), in_block: true, block_ins: Seq::empty(), ..s };
    lemma_check_ops_sound(inner, ops, 0, Seq::empty());
}

/// Checking the elements of a list makes no chain loop.
pub proof fn lemma_check_list_sound(
    s: CheckState,
    elements: Seq<OpModel>,
    from: nat,
    element: Option<Ty>,
    done: Seq<TypedModel>,
)
    requires
        acyclic(s.table),
    ensures
        sound_after(s, check_list(s, elements, from, element, done).0),
    decreases elements, elements.len() - from,
{
    if from < elements.len() {
        let op = elements[from as int];
        lemma_check_op_sound(s, op);
        let (s1, typed) = check_op(s, op);
        if typed.ins.len() != 0 || typed.outs.len() != 1 {
            let s2 = crate::checker_model::with_error(
                s1,
                crate::checker_model::list_element_text(typed.ins, typed.outs),
                op.span,
            );
            lemma_with_fresh_sound(s2, 1);
            lemma_table_extends_twice(s.table, s2.table, with_fresh(s2, 1).table);
        } else {
            match element {
                Some(first) => {
                    lemma_with_unified_sound(s1, first, typed.outs[0], op.span);
                    let s2 = with_unified(s1, first, typed.outs[0], op.span);
                    lemma_check_list_sound(s2, elements, from + 1, element, done.push(typed));
                    lemma_table_extends_twice(s.table, s1.table, s2.table);
                    lemma_table_extends_twice(
                        s.table,
                        s2.table,
                        check_list(s2, elements, from + 1, element, done.push(typed)).0.table,
                    );
                },
                None => {
                    lemma_check_list_sound(
                        s1,
                        elements,
                        from + 1,
                        Some(typed.outs[0]),
                        done.push(typed),
                    );
                    lemma_table_extends_twice(
                        s.table,
                        s1.table,
                        check_list(
                            s1,
                            elements,
                            from + 1,
                            Some(typed.outs[0]),
                            done.push(typed),
                        ).0.table,
                    );
                },
            }
        }
    } else {
        lemma_with_fresh_sound(s, 1);
    }
}

/// Reporting what is left on the stack adds one diagnostic for each entry and
/// changes nothing else.
pub proof fn lemma_report_residue(s: CheckState, n: nat)
    requires
        n <= s.stack.len(),
    ensures
        report_residue(s, n).diagnostics.len() == s.diagnostics.len() + n,
        report_residue(s, n).stack == s.stack,
        report_residue(s, n).table == s.table,
        report_residue(s, n).strict == s.strict,
    decreases n,
{
    if n > 0 {
        lemma_report_residue(s, (n - 1) as nat);
    }
}

/// Checking a program keeps the checker sound: where the chains of the erasure table
/// did not loop before, they do not loop after, so that erasure stays idempotent.
pub proof fn lemma_check_program_sound(s: CheckState, ops: Seq<OpModel>)
    requires
        acyclic(s.table),
    ensures
        sound_after(s, check_program(s, ops).0),
{
    lemma_check_ops_sound(s, ops, 0, Seq::empty());
    let (s1, typed) = check_ops(s, ops, 0, Seq::empty());
    lemma_report_residue(s1, s1.stack.len());
}

/// A strict checker that reports nothing leaves nothing on the type stack: the
/// effects of the operations of a program that it accepts add up to nothing.
pub proof fn lemma_accepted_program_is_balanced(s: CheckState, ops: Seq<OpModel>)
    requires
        acyclic(s.table),
        s.strict,
    ensures
        check_program(s, ops).0.diagnostics.len() == 0 ==> check_program(s, ops).0.stack.len()
            == 0,
{
    lemma_check_ops_sound(s, ops, 0, Seq::empty());
    let (s1, typed) = check_ops(s, ops, 0, Seq::empty());
    lemma_report_residue(s1, s1.stack.len());
}

/// The effect of an operation, as it is emitted, names no variable that the table
/// binds at that point: what was resolved is ground but for the variables that are
/// still free.
pub proof fn lemma_emitted_is_erased(table: Seq<Option<Ty>>, op: TypedModel)
    requires
        acyclic(table),
    ensures
        forall|k: int|
            0 <= k < op.ins.len() ==> only_free(table, #[trigger] emitted(table, op).ins[k]),
        forall|k: int|
            0 <= k < op.outs.len() ==> only_free(table, #[trigger] emitted(table, op).outs[k]),
{
    assert forall|k: int| 0 <= k < op.ins.len() implies only_free(
        table,
        #[trigger] emitted(table, op).ins[k],
    ) by {
        lemma_erased_names_only_free(table, op.ins[k]);
    }
    assert forall|k: int| 0 <= k < op.outs.len() implies only_free(
        table,
        #[trigger] emitted(table, op).outs[k],
    ) by {
        lemma_erased_names_only_free(table, op.outs[k]);
    }
}

/// The entries of `stack` below its topmost `n`, and none where it has no more than `n`.
pub open spec fn below_top(stack: Seq<(Ty, Span)>, n: nat) -> Seq<(Ty, Span)> {
    if n <= stack.len() {
        stack.take(stack.len() - n)
    } else {
        Seq::empty()
    }
}

/// Taking `n` inputs pops the topmost `n` entries of the type stack, as far as it
/// has them, and touches nothing below.
pub proof fn lemma_take_inputs_stack(s: CheckState, ins: Seq<Ty>, n: nat, span: Span)
    requires
        n <= ins.len(),
    ensures
        take_inputs(s, ins, n, span).stack == below_top(s.stack, n),
    decreases n,
{
    if n == 0 {
        assert(below_top(s.stack, 0) =~= s.stack);
    } else {
        let s1 = take_input(s, ins[n - 1], span);
        lemma_take_inputs_stack(s1, ins, (n - 1) as nat, span);
        if s.stack.len() > 0 {
            assert(s1.stack == s.stack.drop_last());
            assert(below_top(s1.stack, (n - 1) as nat) =~= below_top(s.stack, n));
        } else {
            assert(below_top(s1.stack, (n - 1) as nat) =~= below_top(s.stack, n));
        }
    }
}

/// An operation with the effect `[ins -- outs]` takes as many entries from the type
/// stack as it has inputs and leaves its outputs on top, in order, each at the place
/// of the operation: the stack grows by the difference of the two lengths wherever it
/// held the inputs.
pub proof fn lemma_apply_effect_stack(s: CheckState, ins: Seq<Ty>, outs: Seq<Ty>, span: Span)
    ensures
        apply_effect(s, ins, outs, span).stack == below_top(s.stack, ins.len()) + at_span(
            outs,
            span,
        ),
        ins.len() <= s.stack.len() ==> apply_effect(s, ins, outs, span).stack.len()
            == s.stack.len() - ins.len() + outs.len(),
{
    lemma_take_inputs_stack(s, ins, ins.len(), span);
}

} // verus!
