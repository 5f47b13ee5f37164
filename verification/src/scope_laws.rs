//! What holds of the variables that the type checker names: every type it holds or
//! emits names only variables of its erasure table.

use vstd::prelude::*;
use crate::checker_model::{
    CheckState, apply_effect, at_span, bind_names, bound_type, check_block, check_list, check_op,
    check_ops, check_program, check_symmetry, compare_sides, emitted, function_effect,
    initial_state, list_result, pop_for_binding, report_residue, tabulated_effect, take_input,
    take_inputs, types_of, with_error, with_fresh, with_unified,
};
use crate::erasure::{
    Inference, bind, bind_found, erase_each, erase_or_keep, settle, settle_each, unify,
    unify_each, unify_fuel, with_mismatch,
};
use crate::ops::{OpModel, OpShape};
use crate::span::Span;
use crate::typed_op::TypedModel;
use crate::types::Ty;

verus! {

/// Whether every variable that `t` names is one of the first `n`.
pub open spec fn scoped(t: Ty, n: nat) -> bool
    decreases t,
{
    match t {
        Ty::Bool => true,
        Ty::Int => true,
        Ty::List(e) => scoped(*e, n),
        Ty::Block { ins, outs } => {
            &&& forall|k: int| 0 <= k < ins.len() ==> scoped(#[trigger] ins[k], n)
            &&& forall|k: int| 0 <= k < outs.len() ==> scoped(#[trigger] outs[k], n)
        },
        Ty::Generic(i) => i < n,
    }
}

/// Whether every type of `ts` names only variables among the first `n`.
pub open spec fn all_scoped(ts: Seq<Ty>, n: nat) -> bool {
    forall|k: int| 0 <= k < ts.len() ==> scoped(#[trigger] ts[k], n)
}

/// Whether every type that `table` holds names only variables of the table.
pub open spec fn table_scoped(table: Seq<Option<Ty>>) -> bool {
    forall|i: int|
        0 <= i < table.len() && (#[trigger] table[i]) is Some ==> scoped(table[i]->0, table.len())
}

/// Whether every type that the checker holds names only variables of its erasure
/// table: the types in the table itself, on the type stack, of the functions and bound
/// names in scope, and of the inputs found for the block that is being checked.
pub open spec fn state_scoped(s: CheckState) -> bool {
    let n = s.table.len();
    &&& table_scoped(s.table)
    &&& forall|k: int| 0 <= k < s.stack.len() ==> scoped((#[trigger] s.stack[k]).0, n)
    &&& forall|k: int|
        0 <= k < s.functions.len() ==> all_scoped((#[trigger] s.functions[k]).1, n) && all_scoped(
            s.functions[k].2,
            n,
        )
    &&& forall|k: int| 0 <= k < s.bindings.len() ==> scoped((#[trigger] s.bindings[k]).1, n)
    &&& all_scoped(s.block_ins, n)
}

/// Whether the effect of `op` names only variables among the first `n`.
pub open spec fn effect_scoped(op: TypedModel, n: nat) -> bool {
    all_scoped(op.ins, n) && all_scoped(op.outs, n)
}

/// A type that names only variables among the first `n` names only variables among
/// the first `m`, for every `m` from `n` on.
pub proof fn lemma_scoped_wider(t: Ty, n: nat, m: nat)
    requires
        scoped(t, n),
        n <= m,
    ensures
        scoped(t, m),
    decreases t,
{
    match t {
        Ty::List(e) => {
            lemma_scoped_wider(*e, n, m);
        },
        Ty::Block { ins, outs } => {
            assert forall|k: int| 0 <= k < ins.len() implies scoped(#[trigger] ins[k], m) by {
                lemma_scoped_wider(ins[k], n, m);
            }
            assert forall|k: int| 0 <= k < outs.len() implies scoped(#[trigger] outs[k], m) by {
                lemma_scoped_wider(outs[k], n, m);
            }
        },
        _ => {},
    }
}

/// Types that name only variables among the first `n` do so among the first `m`,
/// for every `m` from `n` on.
pub proof fn lemma_all_scoped_wider(ts: Seq<Ty>, n: nat, m: nat)
    requires
        all_scoped(ts, n),
        n <= m,
    ensures
        all_scoped(ts, m),
{
    assert forall|k: int| 0 <= k < ts.len() implies scoped(#[trigger] ts[k], m) by {
        lemma_scoped_wider(ts[k], n, m);
    }
}

/// Settling a type under a table brings in no variable from outside the table.
pub proof fn lemma_settle_scoped(table: Seq<Option<Ty>>, t: Ty, fuel: nat)
    requires
        table_scoped(table),
        scoped(t, table.len()),
    ensures
        scoped(settle(table, t, fuel), table.len()),
    decreases fuel, t,
{
    match t {
        Ty::List(e) => {
            lemma_settle_scoped(table, *e, fuel);
        },
        Ty::Block { ins, outs } => {
            assert forall|k: int| 0 <= k < ins.len() implies scoped(
                #[trigger] settle_each(table, ins, fuel)[k],
                table.len(),
            ) by {
                lemma_settle_scoped(table, ins[k], fuel);
            }
            assert forall|k: int| 0 <= k < outs.len() implies scoped(
                #[trigger] settle_each(table, outs, fuel)[k],
                table.len(),
            ) by {
                lemma_settle_scoped(table, outs[k], fuel);
            }
            assert(settle(table, t, fuel) == (Ty::Block {
                ins: settle_each(table, ins, fuel),
                outs: settle_each(table, outs, fuel),
            }));
        },
        Ty::Generic(i) => {
            if fuel > 0 && i < table.len() && table[i as int] is Some {
                lemma_settle_scoped(table, table[i as int]->0, (fuel - 1) as nat);
            }
        },
        _ => {},
    }
}

/// Erasing types as far as they can be brings in no variable from outside the table.
pub proof fn lemma_erase_each_scoped(table: Seq<Option<Ty>>, ts: Seq<Ty>)
    requires
        table_scoped(table),
        all_scoped(ts, table.len()),
    ensures
        all_scoped(erase_each(table, ts), table.len()),
{
    assert forall|k: int| 0 <= k < ts.len() implies scoped(
        #[trigger] erase_each(table, ts)[k],
        table.len(),
    ) by {
        lemma_settle_scoped(table, ts[k], table.len());
    }
}

/// Binding a variable to a type of the table's variables keeps the table within
/// its own variables.
pub proof fn lemma_bind_scoped(s: Inference, i: nat, other: Ty, actual: Ty, expected: Ty, span: Span)
    requires
        table_scoped(s.table),
        scoped(other, s.table.len()),
    ensures
        table_scoped(bind(s, i, other, actual, expected, span).table),
        bind(s, i, other, actual, expected, span).table.len() == s.table.len(),
{
    lemma_settle_scoped(s.table, other, s.table.len());
}

/// Binding a variable that was found keeps the table within its own variables.
pub proof fn lemma_bind_found_scoped(
    s: Inference,
    i: nat,
    other: Ty,
    actual: Ty,
    expected: Ty,
    span: Span,
)
    requires
        table_scoped(s.table),
        scoped(other, s.table.len()),
    ensures
        table_scoped(bind_found(s, i, other, actual, expected, span).table),
        bind_found(s, i, other, actual, expected, span).table.len() == s.table.len(),
{
    lemma_settle_scoped(s.table, other, s.table.len());
    let x = erase_or_keep(s.table, other);
    match x {
        Ty::Generic(j) => {
            if i < s.table.len() && j < s.table.len() && s.table[j as int] is None {
                lemma_bind_scoped(s, j, Ty::Generic(i), actual, expected, span);
            } else {
                lemma_bind_scoped(s, i, other, actual, expected, span);
            }
        },
        _ => {
            lemma_bind_scoped(s, i, other, actual, expected, span);
        },
    }
}

/// Unifying two types of the table's variables keeps the table within its own
/// variables.
pub proof fn lemma_unify_scoped(
    s: Inference,
    a: Ty,
    e: Ty,
    actual: Ty,
    expected: Ty,
    span: Span,
    fuel: nat,
)
    requires
        table_scoped(s.table),
        scoped(a, s.table.len()),
        scoped(e, s.table.len()),
    ensures
        table_scoped(unify(s, a, e, actual, expected, span, fuel).table),
        unify(s, a, e, actual, expected, span, fuel).table.len() == s.table.len(),
    decreases fuel, a, 0nat,
{
    match (a, e) {
        (Ty::Block { ins: ai, outs: ao }, Ty::Block { ins: ei, outs: eo }) => {
            let s1 = if ai.len() != ei.len() || ao.len() != eo.len() {
                with_mismatch(s, actual, expected, span)
            } else {
                s
            };
            lemma_unify_each_scoped(s1, ai, ei, 0, actual, expected, span, fuel);
            let s2 = unify_each(s1, ai, ei, 0, actual, expected, span, fuel);
            lemma_unify_each_scoped(s2, ao, eo, 0, actual, expected, span, fuel);
        },
        (Ty::Generic(i), _) => {
            if i < s.table.len() && s.table[i as int] is Some {
                if fuel > 0 {
                    lemma_unify_scoped(
                        s,
                        s.table[i as int]->0,
                        e,
                        actual,
                        expected,
                        span,
                        (fuel - 1) as nat,
                    );
                }
            } else {
                lemma_bind_found_scoped(s, i, e, actual, expected, span);
            }
        },
        (_, Ty::Generic(j)) => {
            if j < s.table.len() && s.table[j as int] is Some {
                if fuel > 0 {
                    lemma_unify_scoped(
                        s,
                        a,
                        s.table[j as int]->0,
                        actual,
                        expected,
                        span,
                        (fuel - 1) as nat,
                    );
                }
            } else {
                lemma_bind_scoped(s, j, a, actual, expected, span);
            }
        },
        (Ty::List(x), Ty::List(y)) => {
            lemma_unify_scoped(s, *x, *y, actual, expected, span, fuel);
        },
        _ => {},
    }
}

/// Pairwise unification of types of the table's variables keeps the table within
/// its own variables.
pub proof fn lemma_unify_each_scoped(
    s: Inference,
    found: Seq<Ty>,
    wanted: Seq<Ty>,
    from: nat,
    actual: Ty,
    expected: Ty,
    span: Span,
    fuel: nat,
)
    requires
        table_scoped(s.table),
        all_scoped(found, s.table.len()),
        all_scoped(wanted, s.table.len()),
    ensures
        table_scoped(unify_each(s, found, wanted, from, actual, expected, span, fuel).table),
        unify_each(s, found, wanted, from, actual, expected, span, fuel).table.len()
            == s.table.len(),
    decreases fuel, found, found.len() - from,
{
    if from < found.len() && from < wanted.len() {
        lemma_unify_scoped(s, found[from as int], wanted[from as int], actual, expected, span, fuel);
        let s1 = unify(s, found[from as int], wanted[from as int], actual, expected, span, fuel);
        lemma_unify_each_scoped(s1, found, wanted, from + 1, actual, expected, span, fuel);
    }
}

/// A new checker holds no type at all.
pub proof fn lemma_initial_scoped(strict: bool)
    ensures
        state_scoped(initial_state(strict)),
{
}

/// Every type that a checker held names only variables of the table once the table
/// has more variables.
proof fn lemma_state_wider(s: CheckState, slot: Option<Ty>)
    requires
        state_scoped(s),
        slot is None,
    ensures
        state_scoped(CheckState { table: s.table.push(slot), ..s }),
{
    let n = s.table.len();
    let m = n + 1;
    let s2 = CheckState { table: s.table.push(slot), ..s };
    assert forall|i: int| 0 <= i < s2.table.len() && (#[trigger] s2.table[i]) is Some implies scoped(
        s2.table[i]->0,
        m,
    ) by {
        assert(s.table[i] is Some);
        lemma_scoped_wider(s.table[i]->0, n, m);
    }
    assert forall|k: int| 0 <= k < s.stack.len() implies scoped((#[trigger] s.stack[k]).0, m) by {
        lemma_scoped_wider(s.stack[k].0, n, m);
    }
    assert forall|k: int| 0 <= k < s.functions.len() implies all_scoped(
        (#[trigger] s.functions[k]).1,
        m,
    ) && all_scoped(s.functions[k].2, m) by {
        lemma_all_scoped_wider(s.functions[k].1, n, m);
        lemma_all_scoped_wider(s.functions[k].2, n, m);
    }
    assert forall|k: int| 0 <= k < s.bindings.len() implies scoped(
        (#[trigger] s.bindings[k]).1,
        m,
    ) by {
        lemma_scoped_wider(s.bindings[k].1, n, m);
    }
    lemma_all_scoped_wider(s.block_ins, n, m);
}

/// New free variables keep a checker within its own variables.
pub proof fn lemma_with_fresh_scoped(s: CheckState, n: nat)
    requires
        state_scoped(s),
    ensures
        state_scoped(with_fresh(s, n)),
        with_fresh(s, n).table.len() == s.table.len() + n,
        with_fresh(s, n).stack == s.stack,
    decreases n,
{
    if n > 0 {
        lemma_state_wider(s, None);
        lemma_with_fresh_scoped(CheckState { table: s.table.push(None), ..s }, (n - 1) as nat);
    }
}

/// Unifying two types of the checker's variables keeps the checker within its own
/// variables.
pub proof fn lemma_with_unified_scoped(s: CheckState, found: Ty, wanted: Ty, span: Span)
    requires
        state_scoped(s),
        scoped(found, s.table.len()),
        scoped(wanted, s.table.len()),
    ensures
        state_scoped(with_unified(s, found, wanted, span)),
        with_unified(s, found, wanted, span).table.len() == s.table.len(),
{
    lemma_unify_scoped(
        Inference { table: s.table, diagnostics: s.diagnostics },
        found,
        wanted,
        found,
        wanted,
        span,
        unify_fuel(s.table.len()),
    );
}

/// Taking inputs of the checker's variables keeps the checker within its own
/// variables.
pub proof fn lemma_take_inputs_scoped(s: CheckState, ins: Seq<Ty>, n: nat, span: Span)
    requires
        state_scoped(s),
        all_scoped(ins, s.table.len()),
    ensures
        state_scoped(take_inputs(s, ins, n, span)),
        take_inputs(s, ins, n, span).table.len() == s.table.len(),
    decreases n,
{
    if n == 0 || n > ins.len() {
    } else {
        let wanted = ins[n - 1];
        if s.stack.len() > 0 {
            let popped = CheckState { stack: s.stack.drop_last(), ..s };
            assert forall|k: int| 0 <= k < popped.stack.len() implies scoped(
                (#[trigger] popped.stack[k]).0,
                s.table.len(),
            ) by {
                assert(popped.stack[k] == s.stack[k]);
            }
            assert(scoped(s.stack[s.stack.len() - 1].0, s.table.len()));
            lemma_with_unified_scoped(popped, s.stack.last().0, wanted, span);
        } else if s.in_block {
            let grown = seq![wanted] + s.block_ins;
            assert forall|k: int| 0 <= k < grown.len() implies scoped(
                #[trigger] grown[k],
                s.table.len(),
            ) by {
                if k > 0 {
                    assert(grown[k] == s.block_ins[k - 1]);
                }
            }
        }
        lemma_take_inputs_scoped(take_input(s, wanted, span), ins, (n - 1) as nat, span);
    }
}

/// Applying an effect of the checker's variables keeps the checker within its own
/// variables.
pub proof fn lemma_apply_effect_scoped(s: CheckState, ins: Seq<Ty>, outs: Seq<Ty>, span: Span)
    requires
        state_scoped(s),
        all_scoped(ins, s.table.len()),
        all_scoped(outs, s.table.len()),
    ensures
        state_scoped(apply_effect(s, ins, outs, span)),
        apply_effect(s, ins, outs, span).table.len() == s.table.len(),
{
    lemma_take_inputs_scoped(s, ins, ins.len(), span);
    let taken = take_inputs(s, ins, ins.len(), span);
    let after = apply_effect(s, ins, outs, span);
    assert forall|k: int| 0 <= k < after.stack.len() implies scoped(
        (#[trigger] after.stack[k]).0,
        after.table.len(),
    ) by {
        if k < taken.stack.len() {
            assert(after.stack[k] == taken.stack[k]);
        } else {
            assert(after.stack[k] == at_span(outs, span)[k - taken.stack.len()]);
            assert(after.stack[k].0 == outs[k - taken.stack.len()]);
        }
    }
}

/// Binding names keeps the checker within its own variables.
pub proof fn lemma_bind_names_scoped(
    s: CheckState,
    names: Seq<(Seq<char>, Span)>,
    n: nat,
    bound: Seq<Seq<char>>,
)
    requires
        state_scoped(s),
    ensures
        state_scoped(bind_names(s, names, n, bound).0),
        bind_names(s, names, n, bound).0.table.len() >= s.table.len(),
    decreases n,
{
    if n == 0 || n > names.len() {
    } else {
        let (s1, popped) = pop_for_binding(s, names[n - 1].1);
        lemma_pop_for_binding_scoped(s, names[n - 1].1);
        match popped {
            Some((t, _)) => {
                let s2 = CheckState { bindings: s1.bindings.push((names[n - 1].0, t)), ..s1 };
                assert forall|k: int| 0 <= k < s2.bindings.len() implies scoped(
                    (#[trigger] s2.bindings[k]).1,
                    s2.table.len(),
                ) by {
                    if k < s1.bindings.len() {
                        assert(s2.bindings[k] == s1.bindings[k]);
                    } else {
                        assert(s2.bindings[k] == (names[n - 1].0, t));
                    }
                }
                assert(state_scoped(s2));
                lemma_bind_names_scoped(s2, names, (n - 1) as nat, bound.push(names[n - 1].0));
            },
            None => {},
        }
    }
}

/// Popping a type for a binding keeps the checker within its own variables, and the
/// type that is popped names only variables of the checker.
proof fn lemma_pop_for_binding_scoped(s: CheckState, span: Span)
    requires
        state_scoped(s),
    ensures
        state_scoped(pop_for_binding(s, span).0),
        pop_for_binding(s, span).0.table.len() >= s.table.len(),
        pop_for_binding(s, span).1 matches Some(found) ==> scoped(
            found.0,
            pop_for_binding(s, span).0.table.len(),
        ),
{
    let (s1, popped) = pop_for_binding(s, span);
    if s.stack.len() > 0 {
        assert forall|k: int| 0 <= k < s1.stack.len() implies scoped(
            (#[trigger] s1.stack[k]).0,
            s1.table.len(),
        ) by {
            assert(s1.stack[k] == s.stack[k]);
        }
        assert(scoped(s.stack[s.stack.len() - 1].0, s.table.len()));
    } else if s.in_block {
        lemma_state_wider(s, None);
        let g = Ty::Generic(s.table.len());
        let grown = seq![g] + s.block_ins;
        let widened = CheckState { table: s.table.push(None), ..s };
        assert forall|k: int| 0 <= k < grown.len() implies scoped(
            #[trigger] grown[k],
            s1.table.len(),
        ) by {
            if k > 0 {
                assert(grown[k] == widened.block_ins[k - 1]);
            }
        }
        assert(s1 == (CheckState { block_ins: grown, ..widened }));
        assert(g == grown[0]);
        assert(all_scoped(s1.block_ins, s1.table.len()));
        assert(table_scoped(s1.table));
        assert forall|k: int| 0 <= k < s1.stack.len() implies scoped(
            (#[trigger] s1.stack[k]).0,
            s1.table.len(),
        ) by {
            assert(s1.stack[k] == widened.stack[k]);
        }
        assert forall|k: int| 0 <= k < s1.functions.len() implies all_scoped(
            (#[trigger] s1.functions[k]).1,
            s1.table.len(),
        ) && all_scoped(s1.functions[k].2, s1.table.len()) by {
            assert(s1.functions[k] == widened.functions[k]);
        }
        assert forall|k: int| 0 <= k < s1.bindings.len() implies scoped(
            (#[trigger] s1.bindings[k]).1,
            s1.table.len(),
        ) by {
            assert(s1.bindings[k] == widened.bindings[k]);
        }
    }
}

/// Comparing the sides of an effect changes nothing but the diagnostics.
proof fn lemma_compare_sides_same(s: CheckState, ins: Seq<Ty>, outs: Seq<Ty>, from: nat, span: Span)
    ensures
        compare_sides(s, ins, outs, from, span) == (CheckState {
            diagnostics: compare_sides(s, ins, outs, from, span).diagnostics,
            ..s
        }),
    decreases ins.len() - from,
{
    if from < ins.len() && from < outs.len() {
        let s1 = if ins[from as int] != outs[from as int] {
            with_error(s, crate::checker_model::asymmetry_text(ins, outs), span)
        } else {
            s
        };
        lemma_compare_sides_same(s1, ins, outs, from + 1, span);
    }
}

/// Checking the symmetry of a branch changes nothing but the diagnostics.
proof fn lemma_check_symmetry_same(s: CheckState, ins: Seq<Ty>, outs: Seq<Ty>, span: Span)
    ensures
        check_symmetry(s, ins, outs, span) == (CheckState {
            diagnostics: check_symmetry(s, ins, outs, span).diagnostics,
            ..s
        }),
{
    let s0 = if ins.len() != outs.len() {
        with_error(s, crate::checker_model::asymmetry_text(ins, outs), span)
    } else {
        s
    };
    lemma_compare_sides_same(s0, ins, outs, 0, span);
}

/// The type that a name is bound to among types of the first `n` variables is one.
proof fn lemma_bound_type_scoped(bindings: Seq<(Seq<char>, Ty)>, name: Seq<char>, k: nat, n: nat)
    requires
        forall|j: int| 0 <= j < bindings.len() ==> scoped((#[trigger] bindings[j]).1, n),
    ensures
        bound_type(bindings, name, k) matches Some(t) ==> scoped(t, n),
    decreases k,
{
    if k == 0 || k > bindings.len() {
    } else if bindings[k - 1].0 == name {
    } else {
        lemma_bound_type_scoped(bindings, name, (k - 1) as nat, n);
    }
}

/// The effect of a function among effects of the first `n` variables is one.
proof fn lemma_function_effect_scoped(
    functions: Seq<(Seq<char>, Seq<Ty>, Seq<Ty>)>,
    name: Seq<char>,
    k: nat,
    n: nat,
)
    requires
        forall|j: int|
            0 <= j < functions.len() ==> all_scoped((#[trigger] functions[j]).1, n) && all_scoped(
                functions[j].2,
                n,
            ),
    ensures
        function_effect(functions, name, k) matches Some(effect) ==> all_scoped(effect.0, n)
            && all_scoped(effect.1, n),
    decreases k,
{
    if k == 0 || k > functions.len() {
    } else if functions[k - 1].0 == name {
    } else {
        lemma_function_effect_scoped(functions, name, (k - 1) as nat, n);
    }
}

/// The tabulated effect of an operation names only the fresh variables it is made
/// with.
proof fn lemma_tabulated_scoped(kind: OpShape, g: nat)
    ensures
        tabulated_effect(kind, g) matches Some(found) ==> all_scoped(found.1, g + found.3)
            && all_scoped(found.2, g + found.3),
{
    reveal_with_fuel(scoped, 4);
    let a = Ty::Generic(g);
    let b = Ty::Generic(g + 1);
    assert(scoped(a, g + 1) && scoped(a, g + 2) && scoped(a, g + 3));
    assert(scoped(b, g + 2) && scoped(b, g + 3));
    assert(scoped(crate::checker_model::list_of(a), g + 1));
    assert(scoped(crate::checker_model::list_of(a), g + 2));
    assert(scoped(crate::checker_model::list_of(b), g + 2));
    assert(scoped(Ty::Block { ins: seq![a], outs: seq![b] }, g + 2));
    assert(scoped(Ty::Block { ins: seq![a], outs: seq![Ty::Bool] }, g + 1));
    assert(scoped(Ty::Block { ins: seq![a, b], outs: seq![b] }, g + 2));
    assert(scoped(Ty::Block { ins: seq![a], outs: seq![] }, g + 1));
    assert(scoped(Ty::Block { ins: seq![], outs: seq![] }, g));
}

/// Checking one operation keeps the checker within its own variables, and the effect
/// that it finds names only variables of the checker.
pub proof fn lemma_check_op_scoped(s: CheckState, op: OpModel)
    requires
        state_scoped(s),
    ensures
        state_scoped(check_op(s, op).0),
        effect_scoped(check_op(s, op).1, check_op(s, op).0.table.len()),
        check_op(s, op).0.table.len() >= s.table.len(),
    decreases op, 1nat,
{
    let n = s.table.len();
    match op.kind {
        OpShape::PushList(elements) => {
            lemma_check_list_scoped(s, elements, 0, None, Seq::empty());
        },
        OpShape::PushBlock(body) => {
            lemma_check_block_scoped(s, body);
            let (s1, block) = check_block(s, body);
            let t = Ty::Block { ins: block.ins, outs: block.outs };
            assert(scoped(t, s1.table.len()));
            assert(all_scoped(seq![t], s1.table.len()));
        },
        OpShape::DumpStack => {},
        OpShape::DefineFunction { name, body } => {
            lemma_check_block_scoped(s, body);
            let (s1, block) = check_block(s, body);
            let s2 = CheckState { functions: s1.functions.push((name, block.ins, block.outs)), ..s1 };
            assert forall|k: int| 0 <= k < s2.functions.len() implies all_scoped(
                (#[trigger] s2.functions[k]).1,
                s2.table.len(),
            ) && all_scoped(s2.functions[k].2, s2.table.len()) by {
                if k < s1.functions.len() {
                    assert(s2.functions[k] == s1.functions[k]);
                }
            }
        },
        OpShape::Identifier(name) => {
            lemma_bound_type_scoped(s.bindings, name, s.bindings.len(), n);
            lemma_function_effect_scoped(s.functions, name, s.functions.len(), n);
            match bound_type(s.bindings, name, s.bindings.len()) {
                Some(t) => {
                    assert(all_scoped(seq![t], n));
                },
                None => {},
            }
        },
        OpShape::If { .. } => {
            lemma_check_if_scoped(s, op);
        },
        OpShape::Binding { .. } => {
            lemma_check_binding_scoped(s, op);
        },
        _ => {
            lemma_tabulated_scoped(op.kind, n);
            match tabulated_effect(op.kind, n) {
                Some((kind, ins, outs, fresh)) => {
                    lemma_with_fresh_scoped(s, fresh);
                },
                None => {},
            }
        },
    }
}

/// Checking an `if` keeps the checker within its own variables.
proof fn lemma_check_if_scoped(s: CheckState, op: OpModel)
    requires
        state_scoped(s),
        op.kind is If,
    ensures
        state_scoped(check_op(s, op).0),
        effect_scoped(check_op(s, op).1, check_op(s, op).0.table.len()),
        check_op(s, op).0.table.len() >= s.table.len(),
    decreases op, 0nat,
{
    match op.kind {
        OpShape::If { body, else_body } => {
            lemma_check_block_scoped(s, body);
            let (s1, then_block) = check_block(s, body);
            match else_body {
                None => {
                    lemma_check_symmetry_same(s1, then_block.ins, then_block.outs, op.span);
                    let grown = then_block.ins.push(Ty::Bool);
                    assert forall|k: int| 0 <= k < grown.len() implies scoped(
                        #[trigger] grown[k],
                        s1.table.len(),
                    ) by {
                        if k < then_block.ins.len() {
                            assert(grown[k] == then_block.ins[k]);
                        }
                    }
                },
                Some(other) => {
                    lemma_check_block_scoped(s1, other);
                    let (s2, else_block) = check_block(s1, other);
                    lemma_all_scoped_wider(then_block.ins, s1.table.len(), s2.table.len());
                    lemma_all_scoped_wider(then_block.outs, s1.table.len(), s2.table.len());
                    lemma_check_symmetry_same(s2, then_block.ins, then_block.outs, op.span);
                    let s3 = check_symmetry(s2, then_block.ins, then_block.outs, op.span);
                    lemma_check_symmetry_same(s3, else_block.ins, else_block.outs, op.span);
                    let s4 = check_symmetry(s3, else_block.ins, else_block.outs, op.span);
                    let then_type = Ty::Block { ins: then_block.ins, outs: then_block.outs };
                    let else_type = Ty::Block { ins: else_block.ins, outs: else_block.outs };
                    assert(scoped(then_type, s4.table.len()));
                    assert(scoped(else_type, s4.table.len()));
                    lemma_with_unified_scoped(s4, then_type, else_type, op.span);
                    let grown = then_block.ins.push(Ty::Bool);
                    assert forall|k: int| 0 <= k < grown.len() implies scoped(
                        #[trigger] grown[k],
                        s4.table.len(),
                    ) by {
                        if k < then_block.ins.len() {
                            assert(grown[k] == then_block.ins[k]);
                        }
                    }
                },
            }
        },
        _ => {},
    }
}

/// Checking a binding keeps the checker within its own variables.
proof fn lemma_check_binding_scoped(s: CheckState, op: OpModel)
    requires
        state_scoped(s),
        op.kind is Binding,
    ensures
        state_scoped(check_op(s, op).0),
        effect_scoped(check_op(s, op).1, check_op(s, op).0.table.len()),
        check_op(s, op).0.table.len() >= s.table.len(),
    decreases op, 0nat,
{
    match op.kind {
        OpShape::Binding { bindings, body } => {
            lemma_bind_names_scoped(s, bindings, bindings.len(), Seq::empty());
            let (s1, bound) = bind_names(s, bindings, bindings.len(), Seq::empty());
            lemma_check_ops_scoped(s1, body, 0, Seq::empty());
            let (s2, typed) = check_ops(s1, body, 0, Seq::empty());
            let kept = if s.bindings.len() <= s2.bindings.len() {
                s2.bindings.subrange(0, s.bindings.len() as int)
            } else {
                s2.bindings
            };
            assert forall|k: int| 0 <= k < kept.len() implies scoped(
                (#[trigger] kept[k]).1,
                s2.table.len(),
            ) by {
                assert(kept[k] == s2.bindings[k]);
            }
        },
        _ => {},
    }
}

/// Checking a sequence of operations keeps the checker within its own variables, and
/// the effects of the operations that it emits name only variables of the checker.
pub proof fn lemma_check_ops_scoped(
    s: CheckState,
    ops: Seq<OpModel>,
    from: nat,
    done: Seq<TypedModel>,
)
    requires
        state_scoped(s),
        forall|k: int| 0 <= k < done.len() ==> effect_scoped(#[trigger] done[k], s.table.len()),
    ensures
        state_scoped(check_ops(s, ops, from, done).0),
        check_ops(s, ops, from, done).0.table.len() >= s.table.len(),
        forall|k: int|
            0 <= k < check_ops(s, ops, from, done).1.len() ==> effect_scoped(
                #[trigger] check_ops(s, ops, from, done).1[k],
                check_ops(s, ops, from, done).0.table.len(),
            ),
    decreases ops, ops.len() - from,
{
    if from < ops.len() {
        lemma_check_op_scoped(s, ops[from as int]);
        let (s1, typed) = check_op(s, ops[from as int]);
        lemma_apply_effect_scoped(s1, typed.ins, typed.outs, ops[from as int].span);
        let s2 = apply_effect(s1, typed.ins, typed.outs, ops[from as int].span);
        lemma_erase_each_scoped(s2.table, typed.ins);
        lemma_erase_each_scoped(s2.table, typed.outs);
        let next = done.push(emitted(s2.table, typed));
        assert forall|k: int| 0 <= k < next.len() implies effect_scoped(
            #[trigger] next[k],
            s2.table.len(),
        ) by {
            if k < done.len() {
                assert(next[k] == done[k]);
                lemma_all_scoped_wider(done[k].ins, s.table.len(), s2.table.len());
                lemma_all_scoped_wider(done[k].outs, s.table.len(), s2.table.len());
            }
        }
        lemma_check_ops_scoped(s2, ops, from + 1, next);
    }
}

/// Checking a block keeps the checker within its own variables, and the inputs and
/// outputs of the block name only variables of the checker.
pub proof fn lemma_check_block_scoped(s: CheckState, ops: Seq<OpModel>)
    requires
        state_scoped(s),
    ensures
        state_scoped(check_block(s, ops).0),
        check_block(s, ops).0.table.len() >= s.table.len(),
        all_scoped(check_block(s, ops).1.ins, check_block(s, ops).0.table.len()),
        all_scoped(check_block(s, ops).1.outs, check_block(s, ops).0.table.len()),
    decreases ops, ops.len() + 1,
{
    let inner = CheckState { stack: Seq::empty(), in_block: true, block_ins: Seq::empty(), ..s };
    lemma_check_ops_scoped(inner, ops, 0, Seq::empty());
    let (s1, typed) = check_ops(inner, ops, 0, Seq::empty());
    let n = s1.table.len();
    lemma_erase_each_scoped(s1.table, s1.block_ins);
    assert forall|k: int| 0 <= k < types_of(s1.stack).len() implies scoped(
        #[trigger] types_of(s1.stack)[k],
        n,
    ) by {
        assert(types_of(s1.stack)[k] == s1.stack[k].0);
    }
    lemma_erase_each_scoped(s1.table, types_of(s1.stack));
    assert forall|k: int| 0 <= k < s.stack.len() implies scoped((#[trigger] s.stack[k]).0, n) by {
        lemma_scoped_wider(s.stack[k].0, s.table.len(), n);
    }
    lemma_all_scoped_wider(s.block_ins, s.table.len(), n);
}

/// The list literal made of checked elements keeps the checker within its own
/// variables.
proof fn lemma_list_result_scoped(s: CheckState, element: Option<Ty>, done: Seq<TypedModel>)
    requires
        state_scoped(s),
        element matches Some(t) ==> scoped(t, s.table.len()),
    ensures
        state_scoped(list_result(s, element, done).0),
        effect_scoped(list_result(s, element, done).1, list_result(s, element, done).0.table.len()),
        list_result(s, element, done).0.table.len() >= s.table.len(),
{
    match element {
        Some(t) => {
            assert(scoped(crate::checker_model::list_of(t), s.table.len()));
            assert(all_scoped(seq![crate::checker_model::list_of(t)], s.table.len()));
        },
        None => {
            lemma_with_fresh_scoped(s, 1);
            let t = crate::checker_model::list_of(Ty::Generic(s.table.len()));
            assert(scoped(t, s.table.len() + 1)) by {
                reveal_with_fuel(scoped, 3);
            }
            assert(all_scoped(seq![t], s.table.len() + 1));
        },
    }
}

/// Checking the elements of a list keeps the checker within its own variables.
pub proof fn lemma_check_list_scoped(
    s: CheckState,
    elements: Seq<OpModel>,
    from: nat,
    element: Option<Ty>,
    done: Seq<TypedModel>,
)
    requires
        state_scoped(s),
        element matches Some(t) ==> scoped(t, s.table.len()),
    ensures
        state_scoped(check_list(s, elements, from, element, done).0),
        effect_scoped(
            check_list(s, elements, from, element, done).1,
            check_list(s, elements, from, element, done).0.table.len(),
        ),
        check_list(s, elements, from, element, done).0.table.len() >= s.table.len(),
    decreases elements, elements.len() - from,
{
    if from < elements.len() {
        let op = elements[from as int];
        lemma_check_op_scoped(s, op);
        let (s1, typed) = check_op(s, op);
        if element is Some {
            lemma_scoped_wider(element->0, s.table.len(), s1.table.len());
        }
        if typed.ins.len() != 0 || typed.outs.len() != 1 {
            let s2 = with_error(
                s1,
                crate::checker_model::list_element_text(typed.ins, typed.outs),
                op.span,
            );
            lemma_list_result_scoped(s2, element, Seq::empty());
        } else {
            assert(scoped(typed.outs[0], s1.table.len()));
            match element {
                Some(first) => {
                    lemma_with_unified_scoped(s1, first, typed.outs[0], op.span);
                    lemma_check_list_scoped(
                        with_unified(s1, first, typed.outs[0], op.span),
                        elements,
                        from + 1,
                        element,
                        done.push(typed),
                    );
                },
                None => {
                    lemma_check_list_scoped(
                        s1,
                        elements,
                        from + 1,
                        Some(typed.outs[0]),
                        done.push(typed),
                    );
                },
            }
        }
    } else {
        lemma_list_result_scoped(s, element, done);
    }
}

/// Reporting what is left on the stack changes nothing but the diagnostics.
proof fn lemma_report_residue_same(s: CheckState, n: nat)
    ensures
        report_residue(s, n) == (CheckState {
            diagnostics: report_residue(s, n).diagnostics,
            ..s
        }),
    decreases n,
{
    if n == 0 || n > s.stack.len() {
    } else {
        lemma_report_residue_same(s, (n - 1) as nat);
    }
}

/// Checking a program keeps the checker within its own variables: every type it
/// holds afterwards, and the effect of every operation it emits, names only variables
/// that its erasure table has.
pub proof fn lemma_check_program_scoped(s: CheckState, ops: Seq<OpModel>)
    requires
        state_scoped(s),
    ensures
        state_scoped(check_program(s, ops).0),
        forall|k: int|
            0 <= k < check_program(s, ops).1.len() ==> effect_scoped(
                #[trigger] check_program(s, ops).1[k],
                check_program(s, ops).0.table.len(),
            ),
{
    lemma_check_ops_scoped(s, ops, 0, Seq::empty());
    let (s1, typed) = check_ops(s, ops, 0, Seq::empty());
    lemma_report_residue_same(s1, s1.stack.len());
}

} // verus!
