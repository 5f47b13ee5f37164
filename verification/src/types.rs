//! The types of the language and the text they are shown as.

use vstd::prelude::*;
use vstd::string::*;
use crate::text::{decimal_text, push_decimal};

verus! {

/// The mathematical form of a type.
pub enum Ty {
    Bool,
    Int,
    List(Box<Ty>),
    /// A quotation that takes `ins` and leaves `outs`, each bottom of the stack first.
    Block { ins: Seq<Ty>, outs: Seq<Ty> },
    /// The unification variable with the given index.
    Generic(nat),
}

/// A type of the language.
#[derive(Debug, PartialEq)]
pub enum TypeKind {
    Bool,
    Int,
    List(Box<TypeKind>),
    /// A quotation that takes `ins` and leaves `outs`, each bottom of the stack first.
    Block { ins: Vec<TypeKind>, outs: Vec<TypeKind> },
    /// The unification variable with the given index.
    Generic(usize),
}

/// The mathematical form of `t`.
pub open spec fn model_of(t: TypeKind) -> Ty
    decreases t, 0nat,
{
    match t {
        TypeKind::Bool => Ty::Bool,
        TypeKind::Int => Ty::Int,
        TypeKind::List(e) => Ty::List(Box::new(model_of(*e))),
        TypeKind::Block { ins, outs } => Ty::Block { ins: models_of(ins@), outs: models_of(outs@) },
        TypeKind::Generic(i) => Ty::Generic(i as nat),
    }
}

/// The mathematical forms of the types in `ts`, in order.
pub open spec fn models_of(ts: Seq<TypeKind>) -> Seq<Ty>
    decreases ts, 1nat,
{
    Seq::new(ts.len(), |i: int| if 0 <= i < ts.len() { model_of(ts[i]) } else { Ty::Int })
}

impl View for TypeKind {
    type V = Ty;

    open spec fn view(&self) -> Ty {
        model_of(*self)
    }
}

/// The text a type is shown as in messages.
pub open spec fn ty_text(t: Ty) -> Seq<char>
    decreases t, 0nat,
{
    match t {
        Ty::Bool => "bool"@,
        Ty::Int => "int"@,
        Ty::List(e) => "["@ + ty_text(*e) + "]"@,
        Ty::Block { ins, outs } => "fn ["@ + tys_text(ins, ins.len()) + " -- "@ + tys_text(
            outs,
            outs.len(),
        ) + "]"@,
        Ty::Generic(i) => "<"@ + decimal_text(i) + ">"@,
    }
}

/// The texts of the first `n` types of `ts`, separated by single spaces.
pub open spec fn tys_text(ts: Seq<Ty>, n: nat) -> Seq<char>
    decreases ts, n,
{
    if n == 0 || n > ts.len() {
        Seq::empty()
    } else if n == 1 {
        ty_text(ts[0])
    } else {
        tys_text(ts, (n - 1) as nat) + " "@ + ty_text(ts[n - 1])
    }
}

/// The text of a stack effect: `[ins -- outs]`.
pub open spec fn effect_text(ins: Seq<Ty>, outs: Seq<Ty>) -> Seq<char> {
    "["@ + tys_text(ins, ins.len()) + " -- "@ + tys_text(outs, outs.len()) + "]"@
}

impl TypeKind {
    /// A copy of this type.
    pub fn duplicate(&self) -> (r: TypeKind)
        ensures
            r@ == self@,
        decreases self,
    {
        match self {
            TypeKind::Bool => TypeKind::Bool,
            TypeKind::Int => TypeKind::Int,
            TypeKind::List(e) => TypeKind::List(Box::new(e.duplicate())),
            TypeKind::Block { ins, outs } => {
                let a = duplicate_all(ins);
                let b = duplicate_all(outs);
                TypeKind::Block { ins: a, outs: b }
            },
            TypeKind::Generic(i) => TypeKind::Generic(*i),
        }
    }

    /// Whether this type and `other` are the same type.
    pub fn same(&self, other: &TypeKind) -> (r: bool)
        ensures
            r == (self@ == other@),
        decreases self,
    {
        match (self, other) {
            (TypeKind::Bool, TypeKind::Bool) => true,
            (TypeKind::Int, TypeKind::Int) => true,
            (TypeKind::List(a), TypeKind::List(b)) => a.same(b),
            (TypeKind::Block { ins: ai, outs: ao }, TypeKind::Block { ins: bi, outs: bo }) => {
                same_all(ai, bi) && same_all(ao, bo)
            },
            (TypeKind::Generic(i), TypeKind::Generic(j)) => *i == *j,
            _ => false,
        }
    }

    /// The text this type is shown as in messages.
    pub fn to_text(&self) -> (r: String)
        ensures
            r@ == ty_text(self@),
    {
        let mut out = String::new();
        self.write_text(&mut out);
        assert(out@ =~= ty_text(self@));
        out
    }

    /// Appends the text of this type to `out`.
    pub fn write_text(&self, out: &mut String)
        ensures
            final(out)@ == old(out)@ + ty_text(self@),
        decreases self,
    {
        match self {
            TypeKind::Bool => {
                out.append("bool");
            },
            TypeKind::Int => {
                out.append("int");
            },
            TypeKind::List(e) => {
                out.append("[");
                e.write_text(out);
                out.append("]");
                assert(out@ =~= old(out)@ + ty_text(self@));
            },
            TypeKind::Block { ins, outs } => {
                out.append("fn [");
                write_all_text(ins, out);
                out.append(" -- ");
                write_all_text(outs, out);
                out.append("]");
                assert(out@ =~= old(out)@ + ty_text(self@));
            },
            TypeKind::Generic(i) => {
                out.append("<");
                push_decimal(out, *i);
                out.append(">");
                assert(out@ =~= old(out)@ + ty_text(self@));
            },
        }
    }
}

/// Copies of the types in `v`, in order.
pub fn duplicate_all(v: &Vec<TypeKind>) -> (r: Vec<TypeKind>)
    ensures
        models_of(r@) == models_of(v@),
    decreases v,
{
    let mut out: Vec<TypeKind> = Vec::new();
    let mut i: usize = 0;
    while i < v.len()
        invariant
            i <= v.len(),
            out@.len() == i,
            forall|k: int| 0 <= k < i ==> out@[k]@ == v@[k]@,
        decreases v.len() - i,
    {
        out.push(v[i].duplicate());
        i += 1;
    }
    assert(models_of(out@) =~= models_of(v@));
    out
}

/// Whether `a` and `b` hold the same types in the same order.
pub fn same_all(a: &Vec<TypeKind>, b: &Vec<TypeKind>) -> (r: bool)
    ensures
        r == (models_of(a@) == models_of(b@)),
    decreases a,
{
    if a.len() != b.len() {
        assert(models_of(a@).len() != models_of(b@).len());
        return false;
    }
    let mut i: usize = 0;
    while i < a.len()
        invariant
            i <= a.len(),
            a.len() == b.len(),
            forall|k: int| 0 <= k < i ==> a@[k]@ == b@[k]@,
        decreases a.len() - i,
    {
        if !a[i].same(&b[i]) {
            assert(models_of(a@)[i as int] != models_of(b@)[i as int]);
            return false;
        }
        i += 1;
    }
    assert(models_of(a@) =~= models_of(b@));
    true
}

/// Appends the texts of the types in `v`, separated by single spaces, to `out`.
pub fn write_all_text(v: &Vec<TypeKind>, out: &mut String)
    ensures
        final(out)@ == old(out)@ + tys_text(models_of(v@), v@.len()),
    decreases v,
{
    let mut i: usize = 0;
    assert(out@ =~= old(out)@ + tys_text(models_of(v@), 0));
    while i < v.len()
        invariant
            i <= v.len(),
            out@ == old(out)@ + tys_text(models_of(v@), i as nat),
        decreases v.len() - i,
    {
        let ghost before = out@;
        if i > 0 {
            out.append(" ");
        }
        v[i].write_text(out);
        i += 1;
        assert(out@ =~= old(out)@ + tys_text(models_of(v@), i as nat));
    }
}

/// The text of the stack effect `[ins -- outs]`.
pub fn effect_string(ins: &Vec<TypeKind>, outs: &Vec<TypeKind>) -> (r: String)
    ensures
        r@ == effect_text(models_of(ins@), models_of(outs@)),
{
    let mut out = String::new();
    out.append("[");
    write_all_text(ins, &mut out);
    out.append(" -- ");
    write_all_text(outs, &mut out);
    out.append("]");
    assert(out@ =~= effect_text(models_of(ins@), models_of(outs@)));
    out
}

} // verus!
