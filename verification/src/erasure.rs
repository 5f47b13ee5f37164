//! The erasure table of the unification variables: erasing types and unifying them.

use vstd::prelude::*;
use vstd::string::*;
use crate::diagnostic::{Diagnostic, DiagnosticModel, diagnostics_of, error_at, push_diagnostic};
use crate::span::Span;
use crate::types::{Ty, TypeKind, models_of, ty_text};

verus! {

/// The mathematical form of an erasure table: slot `i` holds what variable `i` was
/// unified with, or `None` while the variable is free.
pub open spec fn table_of(slots: Seq<Option<TypeKind>>) -> Seq<Option<Ty>> {
    Seq::new(
        slots.len(),
        |i: int|
            match slots[i] {
                Some(t) => Some(t@),
                None => None,
            },
    )
}

/// The mathematical form of an optional type.
pub open spec fn optional_model(t: Option<TypeKind>) -> Option<Ty> {
    match t {
        Some(t) => Some(t@),
        None => None,
    }
}

/// The type `t` with every bound variable replaced by what `table` binds it to,
/// transitively, following at most `fuel` links of the substitution chain on any path.
/// Free variables stay; so does a bound variable at which the links run out.
pub open spec fn settle(table: Seq<Option<Ty>>, t: Ty, fuel: nat) -> Ty
    decreases fuel, t, 0nat,
{
    match t {
        Ty::Bool => Ty::Bool,
        Ty::Int => Ty::Int,
        Ty::List(e) => Ty::List(Box::new(settle(table, *e, fuel))),
        Ty::Block { ins, outs } => Ty::Block {
            ins: settle_each(table, ins, fuel),
            outs: settle_each(table, outs, fuel),
        },
        Ty::Generic(i) => if fuel > 0 && i < table.len() && table[i as int] is Some {
            settle(table, table[i as int]->0, (fuel - 1) as nat)
        } else {
            t
        },
    }
}

/// Each type of `ts` settled, in order.
pub open spec fn settle_each(table: Seq<Option<Ty>>, ts: Seq<Ty>, fuel: nat) -> Seq<Ty>
    decreases fuel, ts, 1nat,
{
    Seq::new(ts.len(), |k: int| if 0 <= k < ts.len() { settle(table, ts[k], fuel) } else { Ty::Int })
}

/// Whether `t` names no variable outside a block signature.
pub open spec fn head_ground(t: Ty) -> bool
    decreases t,
{
    match t {
        Ty::Bool => true,
        Ty::Int => true,
        Ty::List(e) => head_ground(*e),
        Ty::Block { .. } => true,
        Ty::Generic(_) => false,
    }
}

/// The ground form of `t` under `table`, following at most `fuel` links on any path:
/// the settled type, where that names no variable outside a block signature. A block
/// is ground whatever its signature names: variables that stay free there make it
/// polymorphic.
pub open spec fn resolve(table: Seq<Option<Ty>>, t: Ty, fuel: nat) -> Option<Ty> {
    if head_ground(settle(table, t, fuel)) {
        Some(settle(table, t, fuel))
    } else {
        None
    }
}

/// The erasure of `t`: its ground form under `table`, with as many links allowed as
/// the table has slots, which is every link of a chain that does not loop.
pub open spec fn erase(table: Seq<Option<Ty>>, t: Ty) -> Option<Ty> {
    resolve(table, t, table.len())
}

/// The type `t` erased as far as it can be: settled under `table`.
pub open spec fn erase_or_keep(table: Seq<Option<Ty>>, t: Ty) -> Ty {
    settle(table, t, table.len())
}

/// Each type of `ts` erased as far as it can be.
pub open spec fn erase_each(table: Seq<Option<Ty>>, ts: Seq<Ty>) -> Seq<Ty> {
    settle_each(table, ts, table.len())
}

/// Whether variable `i` occurs anywhere in `t`.
pub open spec fn mentions(t: Ty, i: nat) -> bool
    decreases t, 0nat,
{
    match t {
        Ty::Bool => false,
        Ty::Int => false,
        Ty::List(e) => mentions(*e, i),
        Ty::Block { ins, outs } => any_mentions(ins, i, ins.len()) || any_mentions(
            outs,
            i,
            outs.len(),
        ),
        Ty::Generic(j) => i == j,
    }
}

/// Whether variable `i` occurs in one of the first `n` types of `ts`.
pub open spec fn any_mentions(ts: Seq<Ty>, i: nat, n: nat) -> bool
    decreases ts, n,
{
    if n == 0 || n > ts.len() {
        false
    } else {
        any_mentions(ts, i, (n - 1) as nat) || mentions(ts[n - 1], i)
    }
}

/// Whether `t` names no variable outside a block signature.
pub fn is_head_ground(t: &TypeKind) -> (r: bool)
    ensures
        r == head_ground(t@),
    decreases t,
{
    match t {
        TypeKind::Bool => true,
        TypeKind::Int => true,
        TypeKind::List(e) => is_head_ground(e),
        TypeKind::Block { .. } => true,
        TypeKind::Generic(_) => false,
    }
}

/// The ground form of `t` under `table`, following at most `fuel` links on any path.
pub fn resolve_type(table: &Vec<Option<TypeKind>>, t: &TypeKind, fuel: usize) -> (r: Option<
    TypeKind,
>)
    ensures
        optional_model(r) == resolve(table_of(table@), t@, fuel as nat),
{
    let settled = settle_type(table, t, fuel);
    if is_head_ground(&settled) {
        Some(settled)
    } else {
        None
    }
}

/// The type `t` with every bound variable replaced by what `table` binds it to,
/// following at most `fuel` links on any path.
pub fn settle_type(table: &Vec<Option<TypeKind>>, t: &TypeKind, fuel: usize) -> (r: TypeKind)
    ensures
        r@ == settle(table_of(table@), t@, fuel as nat),
    decreases fuel, t, 0nat,
{
    match t {
        TypeKind::Bool => TypeKind::Bool,
        TypeKind::Int => TypeKind::Int,
        TypeKind::List(e) => TypeKind::List(Box::new(settle_type(table, e, fuel))),
        TypeKind::Block { ins, outs } => {
            let a = settle_types(table, ins, fuel);
            let b = settle_types(table, outs, fuel);
            TypeKind::Block { ins: a, outs: b }
        },
        TypeKind::Generic(i) => {
            if fuel > 0 && *i < table.len() {
                match &table[*i] {
                    Some(bound) => settle_type(table, bound, fuel - 1),
                    None => TypeKind::Generic(*i),
                }
            } else {
                TypeKind::Generic(*i)
            }
        },
    }
}

/// Each type of `ts` settled, in order.
pub fn settle_types(table: &Vec<Option<TypeKind>>, ts: &Vec<TypeKind>, fuel: usize) -> (r: Vec<
    TypeKind,
>)
    ensures
        models_of(r@) == settle_each(table_of(table@), models_of(ts@), fuel as nat),
    decreases fuel, ts, 1nat,
{
    let mut out: Vec<TypeKind> = Vec::new();
    let mut k: usize = 0;
    while k < ts.len()
        invariant
            k <= ts.len(),
            out@.len() == k,
            forall|j: int| 0 <= j < k ==> out@[j]@ == settle(table_of(table@), ts@[j]@, fuel as nat),
        decreases ts.len() - k,
    {
        out.push(settle_type(table, &ts[k], fuel));
        k += 1;
    }
    assert(models_of(out@) =~= settle_each(table_of(table@), models_of(ts@), fuel as nat));
    out
}

/// Whether variable `i` occurs anywhere in `t`.
pub fn type_mentions(t: &TypeKind, i: usize) -> (r: bool)
    ensures
        r == mentions(t@, i as nat),
    decreases t,
{
    match t {
        TypeKind::Bool => false,
        TypeKind::Int => false,
        TypeKind::List(e) => type_mentions(e, i),
        TypeKind::Block { ins, outs } => types_mention(ins, i) || types_mention(outs, i),
        TypeKind::Generic(j) => i == *j,
    }
}

/// Whether variable `i` occurs in one of the types of `ts`.
pub fn types_mention(ts: &Vec<TypeKind>, i: usize) -> (r: bool)
    ensures
        r == any_mentions(models_of(ts@), i as nat, ts@.len()),
    decreases ts,
{
    let mut found = false;
    let mut k: usize = 0;
    while k < ts.len()
        invariant
            k <= ts.len(),
            found == any_mentions(models_of(ts@), i as nat, k as nat),
        decreases ts.len() - k,
    {
        if type_mentions(&ts[k], i) {
            found = true;
        }
        k += 1;
    }
    found
}

/// What unification reads and changes: the erasure table and the diagnostics so far.
#[verifier::ext_equal]
pub struct Inference {
    pub table: Seq<Option<Ty>>,
    pub diagnostics: Seq<DiagnosticModel>,
}

/// The inference state made of an erasure table and a list of diagnostics.
pub open spec fn inference_of(slots: Seq<Option<TypeKind>>, ds: Seq<Diagnostic>) -> Inference {
    Inference { table: table_of(slots), diagnostics: diagnostics_of(ds) }
}

/// The message of a type mismatch: the erased forms of what was expected and what was found.
pub open spec fn mismatch_text(table: Seq<Option<Ty>>, expected: Ty, actual: Ty) -> Seq<char> {
    "Expected "@ + ty_text(erase_or_keep(table, expected)) + " but got "@ + ty_text(
        erase_or_keep(table, actual),
    )
}

/// `s` with one more diagnostic: the mismatch of `expected` and `actual` at `span`.
pub open spec fn with_mismatch(s: Inference, actual: Ty, expected: Ty, span: Span) -> Inference {
    Inference {
        table: s.table,
        diagnostics: s.diagnostics.push(error_at(mismatch_text(s.table, expected, actual), span)),
    }
}

/// The number of links that unification may follow on one path through a table of
/// `len` slots: every link of the two chains that it walks, where neither loops.
pub open spec fn unify_fuel(len: nat) -> nat {
    if len <= usize::MAX / 2 {
        2 * len
    } else {
        usize::MAX as nat
    }
}

/// Binding the free variable `i` to `other`.
///
/// The slot of `i` receives the erasure of `other`, and `other` settled where that is
/// a variable, which is then free: the two variables are one from then on. Where
/// `other` has no erasure and is no variable, and where it settles to `i` itself, the
/// slot stays free. Where the settled type names `i` inside, the slot stays free too,
/// so that no chain loops, and the mismatch of `expected` and `actual` is reported.
pub open spec fn bind(s: Inference, i: nat, other: Ty, actual: Ty, expected: Ty, span: Span)
    -> Inference {
    let x = erase_or_keep(s.table, other);
    if i >= s.table.len() || x == Ty::Generic(i) {
        s
    } else if mentions(x, i) {
        with_mismatch(s, actual, expected, span)
    } else if head_ground(x) || x is Generic {
        Inference { table: s.table.update(i as int, Some(x)), diagnostics: s.diagnostics }
    } else {
        s
    }
}

/// Binding the free variable `i`, found on the stack, to the expected type `other`.
///
/// Where `other` settles to another variable of the table, which is then free too,
/// it is that variable that is bound to `i`; else `i` is bound to `other`.
pub open spec fn bind_found(s: Inference, i: nat, other: Ty, actual: Ty, expected: Ty, span: Span)
    -> Inference {
    let x = erase_or_keep(s.table, other);
    match x {
        Ty::Generic(j) => if i < s.table.len() && j < s.table.len() && s.table[j as int] is None {
            bind(s, j, Ty::Generic(i), actual, expected, span)
        } else {
            bind(s, i, other, actual, expected, span)
        },
        _ => bind(s, i, other, actual, expected, span),
    }
}

/// Unification of the type `a` found on the stack with the type `e` that an operation
/// expects, following at most `fuel` links on any path. `actual` and `expected` are the
/// two types that the outermost call was made with; diagnostics name them.
///
/// Two blocks must agree in the lengths of their inputs and of their outputs, else one
/// mismatch is reported; their inputs and then their outputs are unified pairwise as
/// far as both have them. A bound variable on either side, the found side first, is
/// replaced by what it is bound to; a free one is bound to the other side, and of two
/// free ones the expected is bound to the found. Two lists unify as their elements do. `bool` unifies with `bool` and `int` with `int`.
/// Everything else is a mismatch.
pub open spec fn unify(
    s: Inference,
    a: Ty,
    e: Ty,
    actual: Ty,
    expected: Ty,
    span: Span,
    fuel: nat,
) -> Inference
    decreases fuel, a, 0nat,
{
    match (a, e) {
        (Ty::Block { ins: ai, outs: ao }, Ty::Block { ins: ei, outs: eo }) => {
            let s1 = if ai.len() != ei.len() || ao.len() != eo.len() {
                with_mismatch(s, actual, expected, span)
            } else {
                s
            };
            let s2 = unify_each(s1, ai, ei, 0, actual, expected, span, fuel);
            unify_each(s2, ao, eo, 0, actual, expected, span, fuel)
        },
        (Ty::Generic(i), _) => {
            if i < s.table.len() && s.table[i as int] is Some {
                if fuel > 0 {
                    unify(s, s.table[i as int]->0, e, actual, expected, span, (fuel - 1) as nat)
                } else {
                    s
                }
            } else {
                bind_found(s, i, e, actual, expected, span)
            }
        },
        (_, Ty::Generic(j)) => {
            if j < s.table.len() && s.table[j as int] is Some {
                if fuel > 0 {
                    unify(s, a, s.table[j as int]->0, actual, expected, span, (fuel - 1) as nat)
                } else {
                    s
                }
            } else {
                bind(s, j, a, actual, expected, span)
            }
        },
        (Ty::List(x), Ty::List(y)) => unify(s, *x, *y, actual, expected, span, fuel),
        (Ty::Bool, Ty::Bool) => s,
        (Ty::Int, Ty::Int) => s,
        _ => with_mismatch(s, actual, expected, span),
    }
}

/// Pairwise unification of `found[k]` with `wanted[k]` for every `k` from `from` on
/// that both sequences have, in order.
pub open spec fn unify_each(
    s: Inference,
    found: Seq<Ty>,
    wanted: Seq<Ty>,
    from: nat,
    actual: Ty,
    expected: Ty,
    span: Span,
    fuel: nat,
) -> Inference
    decreases fuel, found, found.len() - from,
{
    if from < found.len() && from < wanted.len() {
        let s1 = unify(s, found[from as int], wanted[from as int], actual, expected, span, fuel);
        unify_each(s1, found, wanted, from + 1, actual, expected, span, fuel)
    } else {
        s
    }
}

/// The message of a type mismatch.
pub fn mismatch_message(table: &Vec<Option<TypeKind>>, expected: &TypeKind, actual: &TypeKind)
    -> (r: String)
    ensures
        r@ == mismatch_text(table_of(table@), expected@, actual@),
{
    let mut message = String::from_str("Expected ");
    let shown_expected = settle_type(table, expected, table.len());
    shown_expected.write_text(&mut message);
    message.append(" but got ");
    let shown_actual = settle_type(table, actual, table.len());
    shown_actual.write_text(&mut message);
    assert(message@ =~= mismatch_text(table_of(table@), expected@, actual@));
    message
}

/// Reports the mismatch of `expected` and `actual` at `span`.
pub fn report_mismatch(
    table: &Vec<Option<TypeKind>>,
    diagnostics: &mut Vec<Diagnostic>,
    actual: &TypeKind,
    expected: &TypeKind,
    span: Span,
)
    ensures
        inference_of(table@, final(diagnostics)@) == with_mismatch(
            inference_of(table@, old(diagnostics)@),
            actual@,
            expected@,
            span,
        ),
{
    let message = mismatch_message(table, expected, actual);
    push_diagnostic(diagnostics, Diagnostic::report_error(message, span));
}

/// Binds the free variable `i` to `other`.
pub fn bind_variable(
    table: &mut Vec<Option<TypeKind>>,
    diagnostics: &mut Vec<Diagnostic>,
    i: usize,
    other: &TypeKind,
    actual: &TypeKind,
    expected: &TypeKind,
    span: Span,
)
    ensures
        inference_of(final(table)@, final(diagnostics)@) == bind(
            inference_of(old(table)@, old(diagnostics)@),
            i as nat,
            other@,
            actual@,
            expected@,
            span,
        ),
{
    let x = settle_type(table, other, table.len());
    if i >= table.len() {
        return ;
    }
    let itself = match &x {
        TypeKind::Generic(j) => *j == i,
        _ => false,
    };
    if itself {
        return ;
    }
    if type_mentions(&x, i) {
        report_mismatch(table, diagnostics, actual, expected, span);
        return ;
    }
    let is_variable = match &x {
        TypeKind::Generic(_) => true,
        _ => false,
    };
    if is_head_ground(&x) || is_variable {
        let ghost bound = x@;
        table[i] = Some(x);
        assert(table_of(table@) =~= table_of(old(table)@).update(i as int, Some(bound)));
    }
}

/// Binds the free variable `i`, found on the stack, to the expected type `other`.
pub fn bind_found_variable(
    table: &mut Vec<Option<TypeKind>>,
    diagnostics: &mut Vec<Diagnostic>,
    i: usize,
    other: &TypeKind,
    actual: &TypeKind,
    expected: &TypeKind,
    span: Span,
)
    ensures
        inference_of(final(table)@, final(diagnostics)@) == bind_found(
            inference_of(old(table)@, old(diagnostics)@),
            i as nat,
            other@,
            actual@,
            expected@,
            span,
        ),
{
    let x = settle_type(table, other, table.len());
    match &x {
        TypeKind::Generic(j) => {
            if i < table.len() && *j < table.len() && table[*j].is_none() {
                bind_variable(table, diagnostics, *j, &TypeKind::Generic(i), actual, expected, span);
                return ;
            }
        },
        _ => {},
    }
    bind_variable(table, diagnostics, i, other, actual, expected, span);
}

/// The number of links that unification may follow on one path through `table`.
pub fn links_allowed(table: &Vec<Option<TypeKind>>) -> (fuel: usize)
    ensures
        fuel == unify_fuel(table@.len()),
{
    if table.len() <= usize::MAX / 2 {
        2 * table.len()
    } else {
        usize::MAX
    }
}

/// Unifies the type `a` found on the stack with the type `e` that an operation expects.
pub fn unify_types(
    table: &mut Vec<Option<TypeKind>>,
    diagnostics: &mut Vec<Diagnostic>,
    a: &TypeKind,
    e: &TypeKind,
    actual: &TypeKind,
    expected: &TypeKind,
    span: Span,
    fuel: usize,
)
    ensures
        inference_of(final(table)@, final(diagnostics)@) == unify(
            inference_of(old(table)@, old(diagnostics)@),
            a@,
            e@,
            actual@,
            expected@,
            span,
            fuel as nat,
        ),
    decreases fuel, a, 0nat,
{
    match (a, e) {
        (TypeKind::Block { ins: ai, outs: ao }, TypeKind::Block { ins: ei, outs: eo }) => {
            if ai.len() != ei.len() || ao.len() != eo.len() {
                report_mismatch(table, diagnostics, actual, expected, span);
            }
            unify_all(table, diagnostics, ai, ei, 0, actual, expected, span, fuel);
            unify_all(table, diagnostics, ao, eo, 0, actual, expected, span, fuel);
        },
        (TypeKind::Generic(i), _) => {
            let bound = lookup_slot(table, *i);
            match bound {
                Some(t) => {
                    if fuel > 0 {
                        unify_types(table, diagnostics, &t, e, actual, expected, span, fuel - 1);
                    }
                },
                None => {
                    bind_found_variable(table, diagnostics, *i, e, actual, expected, span);
                },
            }
        },
        (_, TypeKind::Generic(j)) => {
            let bound = lookup_slot(table, *j);
            match bound {
                Some(t) => {
                    if fuel > 0 {
                        unify_types(table, diagnostics, a, &t, actual, expected, span, fuel - 1);
                    }
                },
                None => {
                    bind_variable(table, diagnostics, *j, a, actual, expected, span);
                },
            }
        },
        (TypeKind::List(x), TypeKind::List(y)) => {
            unify_types(table, diagnostics, x, y, actual, expected, span, fuel);
        },
        (TypeKind::Bool, TypeKind::Bool) => {},
        (TypeKind::Int, TypeKind::Int) => {},
        _ => {
            report_mismatch(table, diagnostics, actual, expected, span);
        },
    }
}

/// A copy of what slot `i` of `table` holds; `None` where the slot is free or missing.
pub fn lookup_slot(table: &Vec<Option<TypeKind>>, i: usize) -> (r: Option<TypeKind>)
    ensures
        optional_model(r) == if i < table@.len() {
            table_of(table@)[i as int]
        } else {
            None
        },
{
    if i < table.len() {
        match &table[i] {
            Some(t) => Some(t.duplicate()),
            None => None,
        }
    } else {
        None
    }
}

/// Unifies `found[k]` with `wanted[k]` for every `k` from `from` on that both have.
pub fn unify_all(
    table: &mut Vec<Option<TypeKind>>,
    diagnostics: &mut Vec<Diagnostic>,
    found: &Vec<TypeKind>,
    wanted: &Vec<TypeKind>,
    from: usize,
    actual: &TypeKind,
    expected: &TypeKind,
    span: Span,
    fuel: usize,
)
    ensures
        inference_of(final(table)@, final(diagnostics)@) == unify_each(
            inference_of(old(table)@, old(diagnostics)@),
            models_of(found@),
            models_of(wanted@),
            from as nat,
            actual@,
            expected@,
            span,
            fuel as nat,
        ),
    decreases fuel, found, found.len() - from,
{
    if from < found.len() && from < wanted.len() {
        unify_types(table, diagnostics, &found[from], &wanted[from], actual, expected, span, fuel);
        unify_all(table, diagnostics, found, wanted, from + 1, actual, expected, span, fuel);
    }
}

} // verus!
