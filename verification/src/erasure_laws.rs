//! What holds of erasure and unification: erasure is idempotent under a table whose
//! chains do not loop, and unification makes no chain loop and changes no binding.

use vstd::prelude::*;
use crate::erasure::{
    Inference, any_mentions, bind, bind_found, erase, erase_or_keep, head_ground, mentions,
    settle, settle_each, unify, unify_each, with_mismatch,
};
use crate::span::Span;
use crate::types::Ty;

verus! {

/// Whether `table` binds variable `i`.
pub open spec fn is_bound(table: Seq<Option<Ty>>, i: nat) -> bool {
    i < table.len() && table[i as int] is Some
}

/// Whether every variable that `t` names is free in `table`.
pub open spec fn only_free(table: Seq<Option<Ty>>, t: Ty) -> bool
    decreases t,
{
    match t {
        Ty::Bool => true,
        Ty::Int => true,
        Ty::List(e) => only_free(table, *e),
        Ty::Block { ins, outs } => {
            &&& forall|k: int| 0 <= k < ins.len() ==> only_free(table, #[trigger] ins[k])
            &&& forall|k: int| 0 <= k < outs.len() ==> only_free(table, #[trigger] outs[k])
        },
        Ty::Generic(i) => !is_bound(table, i),
    }
}

/// Whether every bound variable that `t` names was bound later than `after`, by the
/// binding times `time`.
pub open spec fn bound_later(table: Seq<Option<Ty>>, time: Seq<nat>, t: Ty, after: nat) -> bool
    decreases t,
{
    match t {
        Ty::Bool => true,
        Ty::Int => true,
        Ty::List(e) => bound_later(table, time, *e, after),
        Ty::Block { ins, outs } => {
            &&& forall|k: int|
                0 <= k < ins.len() ==> bound_later(table, time, #[trigger] ins[k], after)
            &&& forall|k: int|
                0 <= k < outs.len() ==> bound_later(table, time, #[trigger] outs[k], after)
        },
        Ty::Generic(i) => is_bound(table, i) ==> i < time.len() && time[i as int] > after,
    }
}

/// The number of variables that the first `n` slots of `table` bind.
pub open spec fn count_bound(table: Seq<Option<Ty>>, n: nat) -> nat
    decreases n,
{
    if n == 0 || n > table.len() {
        0
    } else {
        count_bound(table, (n - 1) as nat) + if table[n - 1] is Some {
            1nat
        } else {
            0nat
        }
    }
}

/// Whether `time` orders the bindings of `table` so that no chain loops.
///
/// Every bound variable has a time from one up to the number of bound variables, and
/// every bound variable in what it is bound to was bound later than the variable itself.
pub open spec fn ranked(table: Seq<Option<Ty>>, time: Seq<nat>) -> bool {
    &&& time.len() == table.len()
    &&& forall|i: int|
        0 <= i < table.len() && (#[trigger] table[i]) is Some ==> {
            &&& 1 <= time[i] <= count_bound(table, table.len())
            &&& bound_later(table, time, table[i]->0, time[i])
        }
}

/// No more variables are bound than there are slots.
pub proof fn lemma_count_bound_at_most(table: Seq<Option<Ty>>, n: nat)
    ensures
        count_bound(table, n) <= n,
        count_bound(table, n) <= table.len(),
    decreases n,
{
    if n == 0 || n > table.len() {
    } else {
        lemma_count_bound_at_most(table, (n - 1) as nat);
    }
}

/// Whether the substitution chains of `table` do not loop.
pub open spec fn acyclic(table: Seq<Option<Ty>>) -> bool {
    exists|time: Seq<nat>| ranked(table, time)
}

/// A type that names only free variables is settled: settling leaves it as it is.
pub proof fn lemma_only_free_fixed(table: Seq<Option<Ty>>, t: Ty, fuel: nat)
    requires
        only_free(table, t),
    ensures
        settle(table, t, fuel) == t,
    decreases t,
{
    match t {
        Ty::List(e) => {
            lemma_only_free_fixed(table, *e, fuel);
        },
        Ty::Block { ins, outs } => {
            assert forall|k: int| 0 <= k < ins.len() implies settle(table, #[trigger] ins[k], fuel)
                == ins[k] by {
                lemma_only_free_fixed(table, ins[k], fuel);
            }
            assert forall|k: int| 0 <= k < outs.len() implies settle(
                table,
                #[trigger] outs[k],
                fuel,
            ) == outs[k] by {
                lemma_only_free_fixed(table, outs[k], fuel);
            }
            assert(settle_each(table, ins, fuel) =~= ins);
            assert(settle_each(table, outs, fuel) =~= outs);
        },
        _ => {},
    }
}

/// Under an ordered table, with enough links allowed, a settled type names only
/// free variables.
pub proof fn lemma_settled_is_free(
    table: Seq<Option<Ty>>,
    time: Seq<nat>,
    t: Ty,
    after: nat,
    fuel: nat,
)
    requires
        ranked(table, time),
        bound_later(table, time, t, after),
        after + fuel >= count_bound(table, table.len()),
    ensures
        only_free(table, settle(table, t, fuel)),
    decreases fuel, t,
{
    match t {
        Ty::Bool => {},
        Ty::Int => {},
        Ty::List(e) => {
            lemma_settled_is_free(table, time, *e, after, fuel);
        },
        Ty::Block { ins, outs } => {
            let x = settle(table, t, fuel);
            assert forall|k: int| 0 <= k < ins.len() implies only_free(
                table,
                #[trigger] settle_each(table, ins, fuel)[k],
            ) by {
                lemma_settled_is_free(table, time, ins[k], after, fuel);
            }
            assert forall|k: int| 0 <= k < outs.len() implies only_free(
                table,
                #[trigger] settle_each(table, outs, fuel)[k],
            ) by {
                lemma_settled_is_free(table, time, outs[k], after, fuel);
            }
            assert(x == (Ty::Block {
                ins: settle_each(table, ins, fuel),
                outs: settle_each(table, outs, fuel),
            }));
            assert(only_free(table, x));
        },
        Ty::Generic(i) => {
            if is_bound(table, i) {
                let bound = table[i as int]->0;
                assert(time[i as int] > after);
                assert(fuel > 0);
                lemma_settled_is_free(table, time, bound, time[i as int], (fuel - 1) as nat);
            }
        },
    }
}

/// Under an ordered table every type counts as bound later than time zero.
pub proof fn lemma_bound_later_than_zero(table: Seq<Option<Ty>>, time: Seq<nat>, t: Ty)
    requires
        ranked(table, time),
    ensures
        bound_later(table, time, t, 0),
    decreases t,
{
    match t {
        Ty::List(e) => {
            lemma_bound_later_than_zero(table, time, *e);
        },
        Ty::Block { ins, outs } => {
            assert forall|k: int| 0 <= k < ins.len() implies bound_later(
                table,
                time,
                #[trigger] ins[k],
                0,
            ) by {
                lemma_bound_later_than_zero(table, time, ins[k]);
            }
            assert forall|k: int| 0 <= k < outs.len() implies bound_later(
                table,
                time,
                #[trigger] outs[k],
                0,
            ) by {
                lemma_bound_later_than_zero(table, time, outs[k]);
            }
        },
        _ => {},
    }
}

/// Erasure is idempotent: under a table whose chains do not loop, the erasure of a
/// type is its own erasure, and a type that was erased as far as it can be stays as
/// it is when it is erased again.
pub proof fn lemma_erase_idempotent(table: Seq<Option<Ty>>, t: Ty)
    requires
        acyclic(table),
    ensures
        erase(table, t) matches Some(x) ==> erase(table, x) == Some(x),
        erase_or_keep(table, erase_or_keep(table, t)) == erase_or_keep(table, t),
{
    let time = choose|time: Seq<nat>| ranked(table, time);
    lemma_bound_later_than_zero(table, time, t);
    lemma_count_bound_at_most(table, table.len());
    lemma_settled_is_free(table, time, t, 0, table.len());
    lemma_only_free_fixed(table, erase_or_keep(table, t), table.len());
}

/// A type that was erased as far as it can be names no variable that the table
/// binds: the variables left in it are free. An erasure, moreover, names none outside
/// a block signature.
pub proof fn lemma_erased_names_only_free(table: Seq<Option<Ty>>, t: Ty)
    requires
        acyclic(table),
    ensures
        erase(table, t) matches Some(x) ==> only_free(table, x) && head_ground(x),
        only_free(table, erase_or_keep(table, t)),
{
    let time = choose|time: Seq<nat>| ranked(table, time);
    lemma_bound_later_than_zero(table, time, t);
    lemma_count_bound_at_most(table, table.len());
    lemma_settled_is_free(table, time, t, 0, table.len());
}

/// Whether the table `after` is the table `before` grown: it has every slot of
/// `before`, and every slot that was bound is bound to what it was bound to.
pub open spec fn table_extends(before: Seq<Option<Ty>>, after: Seq<Option<Ty>>) -> bool {
    &&& before.len() <= after.len()
    &&& forall|i: int|
        0 <= i < before.len() && (#[trigger] before[i]) is Some ==> after[i] == before[i]
}

/// A table that grew from a table that grew from a third grew from the third.
pub proof fn lemma_table_extends_twice(
    first: Seq<Option<Ty>>,
    second: Seq<Option<Ty>>,
    third: Seq<Option<Ty>>,
)
    requires
        table_extends(first, second),
        table_extends(second, third),
    ensures
        table_extends(first, third),
{
    assert forall|i: int| 0 <= i < first.len() && (#[trigger] first[i]) is Some implies third[i]
        == first[i] by {
        assert(second[i] == first[i]);
        assert(second[i] is Some);
    }
}

/// The table with no slots has no chains.
pub proof fn lemma_empty_acyclic()
    ensures
        acyclic(Seq::<Option<Ty>>::empty()),
{
    assert(ranked(Seq::<Option<Ty>>::empty(), Seq::<nat>::empty()));
}

/// A slot added at the end changes no count of the slots before it.
proof fn lemma_count_bound_push(table: Seq<Option<Ty>>, slot: Option<Ty>, n: nat)
    requires
        n <= table.len(),
    ensures
        count_bound(table.push(slot), n) == count_bound(table, n),
    decreases n,
{
    if n > 0 {
        lemma_count_bound_push(table, slot, (n - 1) as nat);
    }
}

/// Binding a free variable raises the count of the bound variables by one.
proof fn lemma_count_bound_update(table: Seq<Option<Ty>>, i: nat, x: Ty, n: nat)
    requires
        i < table.len(),
        table[i as int] is None,
        n <= table.len(),
    ensures
        count_bound(table.update(i as int, Some(x)), n) == count_bound(table, n) + if i < n {
            1nat
        } else {
            0nat
        },
    decreases n,
{
    if n > 0 {
        lemma_count_bound_update(table, i, x, (n - 1) as nat);
    }
}

/// What was bound later than a time in a table is so in the table with one more
/// free variable.
proof fn lemma_bound_later_push(table: Seq<Option<Ty>>, time: Seq<nat>, t: Ty, after: nat)
    requires
        time.len() == table.len(),
        bound_later(table, time, t, after),
    ensures
        bound_later(table.push(None), time.push(0), t, after),
    decreases t,
{
    match t {
        Ty::List(e) => {
            lemma_bound_later_push(table, time, *e, after);
        },
        Ty::Block { ins, outs } => {
            assert forall|k: int| 0 <= k < ins.len() implies bound_later(
                table.push(None),
                time.push(0),
                #[trigger] ins[k],
                after,
            ) by {
                lemma_bound_later_push(table, time, ins[k], after);
            }
            assert forall|k: int| 0 <= k < outs.len() implies bound_later(
                table.push(None),
                time.push(0),
                #[trigger] outs[k],
                after,
            ) by {
                lemma_bound_later_push(table, time, outs[k], after);
            }
        },
        _ => {},
    }
}

/// A new free variable makes no chain loop.
pub proof fn lemma_fresh_acyclic(table: Seq<Option<Ty>>)
    requires
        acyclic(table),
    ensures
        acyclic(table.push(None)),
{
    let time = choose|time: Seq<nat>| ranked(table, time);
    let table2 = table.push(None);
    let time2 = time.push(0);
    lemma_count_bound_push(table, None, table.len());
    assert forall|i: int| 0 <= i < table2.len() && (#[trigger] table2[i]) is Some implies {
        &&& 1 <= time2[i] <= count_bound(table2, table2.len())
        &&& bound_later(table2, time2, table2[i]->0, time2[i])
    } by {
        assert(table[i] is Some);
        lemma_bound_later_push(table, time, table[i]->0, time[i]);
    }
    assert(ranked(table2, time2));
}

/// Where none of the first `n` types of `ts` names variable `i`, none of them does.
proof fn lemma_none_mentions(ts: Seq<Ty>, i: nat, n: nat, k: int)
    requires
        n <= ts.len(),
        !any_mentions(ts, i, n),
        0 <= k < n,
    ensures
        !mentions(ts[k], i),
    decreases n,
{
    if k < n - 1 {
        lemma_none_mentions(ts, i, (n - 1) as nat, k);
    }
}

/// A type that names only free variables, and not the variable `i`, names only free
/// variables once `i` is bound; and none of them was bound by any time.
proof fn lemma_stays_free(table: Seq<Option<Ty>>, time: Seq<nat>, t: Ty, i: nat, x: Ty, at: nat)
    requires
        i < table.len(),
        only_free(table, t),
        !mentions(t, i),
    ensures
        only_free(table.update(i as int, Some(x)), t),
        bound_later(table.update(i as int, Some(x)), time, t, at),
    decreases t,
{
    let table2 = table.update(i as int, Some(x));
    match t {
        Ty::List(e) => {
            lemma_stays_free(table, time, *e, i, x, at);
        },
        Ty::Block { ins, outs } => {
            assert forall|k: int| 0 <= k < ins.len() implies only_free(table2, #[trigger] ins[k])
                && bound_later(table2, time, ins[k], at) by {
                lemma_none_mentions(ins, i, ins.len(), k);
                lemma_stays_free(table, time, ins[k], i, x, at);
            }
            assert forall|k: int| 0 <= k < outs.len() implies only_free(table2, #[trigger] outs[k])
                && bound_later(table2, time, outs[k], at) by {
                lemma_none_mentions(outs, i, outs.len(), k);
                lemma_stays_free(table, time, outs[k], i, x, at);
            }
        },
        _ => {},
    }
}

/// What was bound later than a time `after` stays so when the free variable `i` is
/// bound at a time later than `after`.
proof fn lemma_bound_later_update(
    table: Seq<Option<Ty>>,
    time: Seq<nat>,
    t: Ty,
    after: nat,
    i: nat,
    x: Ty,
    now: nat,
)
    requires
        time.len() == table.len(),
        i < table.len(),
        table[i as int] is None,
        bound_later(table, time, t, after),
        now > after,
    ensures
        bound_later(table.update(i as int, Some(x)), time.update(i as int, now), t, after),
    decreases t,
{
    let table2 = table.update(i as int, Some(x));
    let time2 = time.update(i as int, now);
    match t {
        Ty::List(e) => {
            lemma_bound_later_update(table, time, *e, after, i, x, now);
        },
        Ty::Block { ins, outs } => {
            assert forall|k: int| 0 <= k < ins.len() implies bound_later(
                table2,
                time2,
                #[trigger] ins[k],
                after,
            ) by {
                lemma_bound_later_update(table, time, ins[k], after, i, x, now);
            }
            assert forall|k: int| 0 <= k < outs.len() implies bound_later(
                table2,
                time2,
                #[trigger] outs[k],
                after,
            ) by {
                lemma_bound_later_update(table, time, outs[k], after, i, x, now);
            }
        },
        _ => {},
    }
}

/// Binding the free variable `i` to a type that names only free variables, and not
/// `i`, makes no chain loop.
proof fn lemma_update_acyclic(table: Seq<Option<Ty>>, i: nat, x: Ty)
    requires
        acyclic(table),
        i < table.len(),
        table[i as int] is None,
        only_free(table, x),
        !mentions(x, i),
    ensures
        acyclic(table.update(i as int, Some(x))),
{
    let time = choose|time: Seq<nat>| ranked(table, time);
    let bound = count_bound(table, table.len());
    let now = bound + 1;
    let table2 = table.update(i as int, Some(x));
    let time2 = time.update(i as int, now);
    lemma_count_bound_update(table, i, x, table.len());
    assert forall|k: int| 0 <= k < table2.len() && (#[trigger] table2[k]) is Some implies {
        &&& 1 <= time2[k] <= count_bound(table2, table2.len())
        &&& bound_later(table2, time2, table2[k]->0, time2[k])
    } by {
        if k == i {
            lemma_stays_free(table, time2, x, i, x, now);
        } else {
            assert(table[k] is Some);
            lemma_bound_later_update(table, time, table[k]->0, time[k], i, x, now);
        }
    }
    assert(ranked(table2, time2));
}

/// Binding a variable makes no chain loop.
pub proof fn lemma_bind_acyclic(
    s: Inference,
    i: nat,
    other: Ty,
    actual: Ty,
    expected: Ty,
    span: Span,
)
    requires
        acyclic(s.table),
        !is_bound(s.table, i),
    ensures
        acyclic(bind(s, i, other, actual, expected, span).table),
        bind(s, i, other, actual, expected, span).table.len() == s.table.len(),
        table_extends(s.table, bind(s, i, other, actual, expected, span).table),
{
    let table = s.table;
    let x = erase_or_keep(table, other);
    if i < table.len() && x != Ty::Generic(i) && !mentions(x, i) && (head_ground(x) || x
        is Generic) {
        lemma_erased_names_only_free(table, other);
        lemma_update_acyclic(table, i, x);
    }
}

/// Binding a variable that was found makes no chain loop.
pub proof fn lemma_bind_found_acyclic(
    s: Inference,
    i: nat,
    other: Ty,
    actual: Ty,
    expected: Ty,
    span: Span,
)
    requires
        acyclic(s.table),
        !is_bound(s.table, i),
    ensures
        acyclic(bind_found(s, i, other, actual, expected, span).table),
        bind_found(s, i, other, actual, expected, span).table.len() == s.table.len(),
        table_extends(s.table, bind_found(s, i, other, actual, expected, span).table),
{
    let x = erase_or_keep(s.table, other);
    match x {
        Ty::Generic(j) => {
            if i < s.table.len() && j < s.table.len() && s.table[j as int] is None {
                lemma_bind_acyclic(s, j, Ty::Generic(i), actual, expected, span);
            } else {
                lemma_bind_acyclic(s, i, other, actual, expected, span);
            }
        },
        _ => {
            lemma_bind_acyclic(s, i, other, actual, expected, span);
        },
    }
}

/// Unification makes no chain loop, adds no slot and changes no slot that is bound.
pub proof fn lemma_unify_acyclic(
    s: Inference,
    a: Ty,
    e: Ty,
    actual: Ty,
    expected: Ty,
    span: Span,
    fuel: nat,
)
    requires
        acyclic(s.table),
    ensures
        acyclic(unify(s, a, e, actual, expected, span, fuel).table),
        unify(s, a, e, actual, expected, span, fuel).table.len() == s.table.len(),
        table_extends(s.table, unify(s, a, e, actual, expected, span, fuel).table),
    decreases fuel, a, 0nat,
{
    match (a, e) {
        (Ty::Block { ins: ai, outs: ao }, Ty::Block { ins: ei, outs: eo }) => {
            let s1 = if ai.len() != ei.len() || ao.len() != eo.len() {
                with_mismatch(s, actual, expected, span)
            } else {
                s
            };
            lemma_unify_each_acyclic(s1, ai, ei, 0, actual, expected, span, fuel);
            let s2 = unify_each(s1, ai, ei, 0, actual, expected, span, fuel);
            lemma_unify_each_acyclic(s2, ao, eo, 0, actual, expected, span, fuel);
            let s3 = unify_each(s2, ao, eo, 0, actual, expected, span, fuel);
            lemma_table_extends_twice(s.table, s2.table, s3.table);
        },
        (Ty::Generic(i), _) => {
            if i < s.table.len() && s.table[i as int] is Some {
                if fuel > 0 {
                    lemma_unify_acyclic(
                        s,
                        s.table[i as int]->0,
                        e,
                        actual,
                        expected,
                        span,
                        (fuel - 1) as nat,
                    );
                }
            } else {
                lemma_bind_found_acyclic(s, i, e, actual, expected, span);
            }
        },
        (_, Ty::Generic(j)) => {
            if j < s.table.len() && s.table[j as int] is Some {
                if fuel > 0 {
                    lemma_unify_acyclic(
                        s,
                        a,
                        s.table[j as int]->0,
                        actual,
                        expected,
                        span,
                        (fuel - 1) as nat,
                    );
                }
            } else {
                lemma_bind_acyclic(s, j, a, actual, expected, span);
            }
        },
        (Ty::List(x), Ty::List(y)) => {
            lemma_unify_acyclic(s, *x, *y, actual, expected, span, fuel);
        },
        _ => {},
    }
}

/// Pairwise unification makes no chain loop, adds no slot and changes no slot that is
/// bound.
pub proof fn lemma_unify_each_acyclic(
    s: Inference,
    found: Seq<Ty>,
    wanted: Seq<Ty>,
    from: nat,
    actual: Ty,
    expected: Ty,
    span: Span,
    fuel: nat,
)
    requires
        acyclic(s.table),
    ensures
        acyclic(unify_each(s, found, wanted, from, actual, expected, span, fuel).table),
        unify_each(s, found, wanted, from, actual, expected, span, fuel).table.len()
            == s.table.len(),
        table_extends(
            s.table,
            unify_each(s, found, wanted, from, actual, expected, span, fuel).table,
        ),
    decreases fuel, found, found.len() - from,
{
    if from < found.len() && from < wanted.len() {
        lemma_unify_acyclic(s, found[from as int], wanted[from as int], actual, expected, span, fuel);
        let s1 = unify(s, found[from as int], wanted[from as int], actual, expected, span, fuel);
        lemma_unify_each_acyclic(s1, found, wanted, from + 1, actual, expected, span, fuel);
        let s2 = unify_each(s1, found, wanted, from + 1, actual, expected, span, fuel);
        lemma_table_extends_twice(s.table, s1.table, s2.table);
    }
}

/// Unification takes no diagnostic away.
pub proof fn lemma_unify_keeps_reports(
    s: Inference,
    a: Ty,
    e: Ty,
    actual: Ty,
    expected: Ty,
    span: Span,
    fuel: nat,
)
    ensures
        unify(s, a, e, actual, expected, span, fuel).diagnostics.len() >= s.diagnostics.len(),
    decreases fuel, a, 0nat,
{
    match (a, e) {
        (Ty::Block { ins: ai, outs: ao }, Ty::Block { ins: ei, outs: eo }) => {
            let s1 = if ai.len() != ei.len() || ao.len() != eo.len() {
                with_mismatch(s, actual, expected, span)
            } else {
                s
            };
            lemma_unify_each_keeps_reports(s1, ai, ei, 0, actual, expected, span, fuel);
            let s2 = unify_each(s1, ai, ei, 0, actual, expected, span, fuel);
            lemma_unify_each_keeps_reports(s2, ao, eo, 0, actual, expected, span, fuel);
        },
        (Ty::Generic(i), _) => {
            if i < s.table.len() && s.table[i as int] is Some {
                if fuel > 0 {
                    lemma_unify_keeps_reports(
                        s,
                        s.table[i as int]->0,
                        e,
                        actual,
                        expected,
                        span,
                        (fuel - 1) as nat,
                    );
                }
            }
        },
        (_, Ty::Generic(j)) => {
            if j < s.table.len() && s.table[j as int] is Some {
                if fuel > 0 {
                    lemma_unify_keeps_reports(
                        s,
                        a,
                        s.table[j as int]->0,
                        actual,
                        expected,
                        span,
                        (fuel - 1) as nat,
                    );
                }
            }
        },
        (Ty::List(x), Ty::List(y)) => {
            lemma_unify_keeps_reports(s, *x, *y, actual, expected, span, fuel);
        },
        _ => {},
    }
}

/// Pairwise unification takes no diagnostic away.
pub proof fn lemma_unify_each_keeps_reports(
    s: Inference,
    found: Seq<Ty>,
    wanted: Seq<Ty>,
    from: nat,
    actual: Ty,
    expected: Ty,
    span: Span,
    fuel: nat,
)
    ensures
        unify_each(s, found, wanted, from, actual, expected, span, fuel).diagnostics.len()
            >= s.diagnostics.len(),
    decreases fuel, found, found.len() - from,
{
    if from < found.len() && from < wanted.len() {
        lemma_unify_keeps_reports(
            s,
            found[from as int],
            wanted[from as int],
            actual,
            expected,
            span,
            fuel,
        );
        let s1 = unify(s, found[from as int], wanted[from as int], actual, expected, span, fuel);
        lemma_unify_each_keeps_reports(s1, found, wanted, from + 1, actual, expected, span, fuel);
    }
}

} // verus!
