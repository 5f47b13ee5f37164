//! The stack-effect type checker.

use vstd::prelude::*;
use vstd::string::*;
use crate::checker_model::{
    BlockModel, CheckState, apply_effect, asymmetry_text, at_span, bind_names, bound_type,
    check_block, check_list, check_op, check_ops, check_program, check_symmetry, compare_sides,
    dump_line, dump_lines, emitted, empty_stack_text, function_effect, initial_state,
    list_element_text, list_of, list_result, pop_for_binding, report_residue, residual_text,
    tabulated_effect, take_input, take_inputs, types_of, unknown_name_text, with_error,
    with_fresh, with_unified,
};
use crate::checker_laws::{lemma_check_program_sound, lemma_with_fresh_sound, sound_after};
use crate::diagnostic::{Diagnostic, diagnostics_of, push_diagnostic};
use crate::erasure_laws::{acyclic, lemma_empty_acyclic};
use crate::scope_laws::{
    effect_scoped, lemma_check_program_scoped, lemma_with_fresh_scoped, state_scoped,
};
use crate::erasure::{
    Inference, erase, links_allowed, optional_model, resolve_type, settle_type, settle_types,
    table_of, unify, unify_types,
};
use crate::ops::{Op, OpKind, op_models, op_shape, placed_names};
use crate::span::Span;
use crate::text::push_decimal;
pub use crate::typed_op::{TypedOp, TypedOpKind};
use crate::typed_op::{TypedModel, names_of, push_typed, typed_models};
pub use crate::types::TypeKind;
use crate::types::{Ty, effect_string, models_of};

verus! {

/// The mathematical form of a type stack.
pub open spec fn stack_of(entries: Seq<(TypeKind, Span)>) -> Seq<(Ty, Span)> {
    Seq::new(entries.len(), |i: int| (entries[i].0@, entries[i].1))
}

/// The mathematical form of a function table.
pub open spec fn functions_of(entries: Seq<(String, Vec<TypeKind>, Vec<TypeKind>)>) -> Seq<
    (Seq<char>, Seq<Ty>, Seq<Ty>),
> {
    Seq::new(
        entries.len(),
        |i: int| (entries[i].0@, models_of(entries[i].1@), models_of(entries[i].2@)),
    )
}

/// The mathematical form of a binding table.
pub open spec fn bindings_of(entries: Seq<(String, TypeKind)>) -> Seq<(Seq<char>, Ty)> {
    Seq::new(entries.len(), |i: int| (entries[i].0@, entries[i].1@))
}

/// The stack-effect type checker.
///
/// It holds the type stack, the diagnostics found so far, the erasure table of the
/// unification variables, and the functions and names in scope.
pub struct TypeChecker {
    pub fail_on_non_empty_stack: bool,
    pub type_stack: Vec<(TypeKind, Span)>,
    pub diagnostics: Vec<Diagnostic>,
    pub erasures: Vec<Option<TypeKind>>,
    pub functions: Vec<(String, Vec<TypeKind>, Vec<TypeKind>)>,
    pub bindings: Vec<(String, TypeKind)>,
    pub in_block: bool,
    pub block_ins: Vec<TypeKind>,
    /// The lines that stack dumps have written.
    pub dump: Vec<String>,
}

impl View for TypeChecker {
    type V = CheckState;

    open spec fn view(&self) -> CheckState {
        CheckState {
            strict: self.fail_on_non_empty_stack,
            stack: stack_of(self.type_stack@),
            diagnostics: diagnostics_of(self.diagnostics@),
            table: table_of(self.erasures@),
            functions: functions_of(self.functions@),
            bindings: bindings_of(self.bindings@),
            in_block: self.in_block,
            block_ins: models_of(self.block_ins@),
            dump: names_of(self.dump@),
        }
    }
}

impl TypeChecker {
    /// Whether this checker is well formed: the substitution chains of its erasure
    /// table do not loop, and every type it holds names only variables of the table.
    pub open spec fn well_formed(&self) -> bool {
        acyclic(self@.table) && state_scoped(self@)
    }

    /// A checker with an empty type stack and nothing in scope. With
    /// `fail_on_non_empty_stack`, values left on the stack at the end of a program are
    /// reported.
    pub fn new(fail_on_non_empty_stack: bool) -> (r: TypeChecker)
        ensures
            r@ == initial_state(fail_on_non_empty_stack),
            r.well_formed(),
    {
        proof {
            lemma_empty_acyclic();
        }
        let r = TypeChecker {
            fail_on_non_empty_stack,
            type_stack: Vec::new(),
            diagnostics: Vec::new(),
            erasures: Vec::new(),
            functions: Vec::new(),
            bindings: Vec::new(),
            in_block: false,
            block_ins: Vec::new(),
            dump: Vec::new(),
        };
        assert(r@ =~~= initial_state(fail_on_non_empty_stack));
        r
    }

    /// The erasure of `type_kind`: its ground form, or `None` where a free variable
    /// is reached outside a block signature.
    pub fn erase(&self, type_kind: &TypeKind) -> (r: Option<TypeKind>)
        ensures
            optional_model(r) == erase(self@.table, type_kind@),
    {
        resolve_type(&self.erasures, type_kind, self.erasures.len())
    }

    /// Makes a new free variable and returns its index.
    pub fn create_generic(&mut self) -> (index: usize)
        ensures
            index == old(self)@.table.len(),
            final(self)@ == with_fresh(old(self)@, 1),
            old(self).well_formed() ==> final(self).well_formed(),
    {
        let index: usize = self.erasures.len();
        self.erasures.push(None);
        proof {
            reveal_with_fuel(with_fresh, 2);
            assert(table_of(self.erasures@) =~= table_of(old(self).erasures@).push(None));
            if old(self).well_formed() {
                lemma_with_fresh_sound(old(self)@, 1);
                lemma_with_fresh_scoped(old(self)@, 1);
            }
        }
        index
    }

    /// Unifies the type `actual` found on the stack with the type `expected`.
    pub fn expect_type(&mut self, actual: &TypeKind, expected: &TypeKind, span: Span)
        ensures
            final(self)@ == with_unified(old(self)@, actual@, expected@, span),
    {
        let fuel: usize = links_allowed(&self.erasures);
        self.expect_type_inner(actual, expected, actual, expected, span, fuel);
    }

    /// Unifies `actual` with `expected`, parts of the types `outer_actual` and
    /// `outer_expected` that diagnostics name, following at most `fuel` links.
    pub fn expect_type_inner(
        &mut self,
        actual: &TypeKind,
        expected: &TypeKind,
        outer_actual: &TypeKind,
        outer_expected: &TypeKind,
        span: Span,
        fuel: usize,
    )
        ensures
            final(self)@ == ({
                let after = unify(
                    Inference { table: old(self)@.table, diagnostics: old(self)@.diagnostics },
                    actual@,
                    expected@,
                    outer_actual@,
                    outer_expected@,
                    span,
                    fuel as nat,
                );
                CheckState { table: after.table, diagnostics: after.diagnostics, ..old(self)@ }
            }),
    {
        unify_types(
            &mut self.erasures,
            &mut self.diagnostics,
            actual,
            expected,
            outer_actual,
            outer_expected,
            span,
            fuel,
        );
    }

    /// Reports `message` at `span`.
    fn report(&mut self, message: String, span: Span)
        ensures
            final(self)@ == with_error(old(self)@, message@, span),
    {
        push_diagnostic(&mut self.diagnostics, Diagnostic::report_error(message, span));
    }

    /// Takes one input of type `wanted` for an operation at `span`.
    fn take_one(&mut self, wanted: &TypeKind, span: Span)
        ensures
            final(self)@ == take_input(old(self)@, wanted@, span),
    {
        match self.type_stack.pop() {
            Some((found, _)) => {
                assert(stack_of(self.type_stack@) =~= old(self)@.stack.drop_last());
                self.expect_type(&found, wanted, span);
            },
            None => {
                if self.in_block {
                    self.block_ins.insert(0, wanted.duplicate());
                    assert(models_of(self.block_ins@) =~= seq![wanted@] + old(self)@.block_ins);
                } else {
                    let message = empty_stack_message(wanted);
                    self.report(message, span);
                }
            },
        }
    }

    /// Applies the effect of `typed_op`, an operation at `span`, to the type stack:
    /// takes its inputs, the topmost first, then pushes its outputs.
    pub fn resolve_type_stack(&mut self, span: Span, typed_op: &TypedOp)
        ensures
            final(self)@ == apply_effect(old(self)@, typed_op@.ins, typed_op@.outs, span),
    {
        let ghost start = self@;
        let ghost ins = models_of(typed_op.ins@);
        let ghost outs = models_of(typed_op.outs@);
        let mut n: usize = typed_op.ins.len();
        while n > 0
            invariant
                n <= typed_op.ins.len(),
                ins == models_of(typed_op.ins@),
                take_inputs(start, ins, ins.len(), span) == take_inputs(self@, ins, n as nat, span),
            decreases n,
        {
            self.take_one(&typed_op.ins[n - 1], span);
            n -= 1;
        }
        let ghost taken = self@;
        let mut k: usize = 0;
        while k < typed_op.outs.len()
            invariant
                k <= typed_op.outs.len(),
                outs == models_of(typed_op.outs@),
                self@ == (CheckState {
                    stack: taken.stack + at_span(outs, span).take(k as int),
                    ..taken
                }),
            decreases typed_op.outs.len() - k,
        {
            let ghost before = stack_of(self.type_stack@);
            self.type_stack.push((typed_op.outs[k].duplicate(), span));
            assert(stack_of(self.type_stack@) =~= before.push((outs[k as int], span)));
            k += 1;
            assert(at_span(outs, span).take(k as int) =~= at_span(outs, span).take(k - 1).push(
                (outs[k - 1], span),
            ));
            assert(stack_of(self.type_stack@) =~= taken.stack + at_span(outs, span).take(k as int));
        }
        assert(at_span(outs, span).take(k as int) =~= at_span(outs, span));
    }

    /// Pops a type for a binding at `span`.
    pub fn pop_type(&mut self, span: Span) -> (r: Option<(TypeKind, Span)>)
        ensures
            (
                final(self)@,
                match r {
                    Some((t, at)) => Some((t@, at)),
                    None => None,
                },
            ) == pop_for_binding(old(self)@, span),
    {
        match self.type_stack.pop() {
            Some((found, at)) => {
                assert(stack_of(self.type_stack@) =~= old(self)@.stack.drop_last());
                assert(old(self)@.stack.last() == (found@, at));
                Some((found, at))
            },
            None => {
                if self.in_block {
                    let index: usize = self.erasures.len();
                    self.erasures.push(None);
                    self.block_ins.insert(0, TypeKind::Generic(index));
                    assert(table_of(self.erasures@) =~= old(self)@.table.push(None));
                    assert(models_of(self.block_ins@) =~= seq![Ty::Generic(index as nat)] + old(
                        self,
                    )@.block_ins);
                    Some((TypeKind::Generic(index), span))
                } else {
                    self.report(String::from_str("expected value but stack was empty"), span);
                    None
                }
            },
        }
    }

    /// Checks that a branch with the effect `[ins -- outs]` leaves the stack as it
    /// found it.
    fn check_effect_symmetrical(&mut self, span: Span, ins: &Vec<TypeKind>, outs: &Vec<TypeKind>)
        ensures
            final(self)@ == check_symmetry(old(self)@, models_of(ins@), models_of(outs@), span),
    {
        let ghost start = self@;
        let ghost mi = models_of(ins@);
        let ghost mo = models_of(outs@);
        if ins.len() != outs.len() {
            let message = asymmetry_message(ins, outs);
            self.report(message, span);
        }
        let mut k: usize = 0;
        while k < ins.len() && k < outs.len()
            invariant
                mi == models_of(ins@),
                mo == models_of(outs@),
                check_symmetry(start, mi, mo, span) == compare_sides(self@, mi, mo, k as nat, span),
            decreases ins.len() - k,
        {
            if !ins[k].same(&outs[k]) {
                let message = asymmetry_message(ins, outs);
                self.report(message, span);
            }
            k += 1;
        }
    }

    /// Checks that the block `op` leaves the stack as it found it.
    pub fn check_op_symmetrical(&mut self, span: Span, op: &TypedOp)
        ensures
            final(self)@ == check_symmetry(old(self)@, op@.ins, op@.outs, span),
    {
        self.check_effect_symmetrical(span, &op.ins, &op.outs);
    }

    /// The type that the innermost binding of `name` gives it.
    fn lookup_binding(&self, name: &String) -> (r: Option<TypeKind>)
        ensures
            optional_model(r) == bound_type(self@.bindings, name@, self@.bindings.len()),
    {
        let mut n: usize = self.bindings.len();
        while n > 0
            invariant
                n <= self.bindings.len(),
                bound_type(self@.bindings, name@, self@.bindings.len()) == bound_type(
                    self@.bindings,
                    name@,
                    n as nat,
                ),
            decreases n,
        {
            if self.bindings[n - 1].0.eq(name) {
                return Some(self.bindings[n - 1].1.duplicate());
            }
            n -= 1;
        }
        None
    }

    /// The effect of the latest definition of the function `name`.
    fn lookup_function(&self, name: &String) -> (r: Option<(Vec<TypeKind>, Vec<TypeKind>)>)
        ensures
            match r {
                Some((ins, outs)) => Some((models_of(ins@), models_of(outs@))),
                None => None,
            } == function_effect(self@.functions, name@, self@.functions.len()),
    {
        let mut n: usize = self.functions.len();
        while n > 0
            invariant
                n <= self.functions.len(),
                function_effect(self@.functions, name@, self@.functions.len()) == function_effect(
                    self@.functions,
                    name@,
                    n as nat,
                ),
            decreases n,
        {
            if self.functions[n - 1].0.eq(name) {
                let ins = crate::types::duplicate_all(&self.functions[n - 1].1);
                let outs = crate::types::duplicate_all(&self.functions[n - 1].2);
                return Some((ins, outs));
            }
            n -= 1;
        }
        None
    }
}

impl TypeChecker {
    /// The typed form of an operation whose stack effect is tabulated, with fresh
    /// variables where the effect is generic; `None` for any other operation.
    fn tabulated(&mut self, kind: &OpKind) -> (r: Option<TypedOp>)
        ensures
            match tabulated_effect(op_shape(*kind), old(self)@.table.len()) {
                Some((k, ins, outs, fresh)) => r is Some && r->0@ == (TypedModel { kind: k, ins, outs })
                    && final(self)@ == with_fresh(old(self)@, fresh),
                None => r is None && final(self)@ == old(self)@,
            },
    {
        proof {
            reveal_with_fuel(with_fresh, 4);
        }
        match kind {
            OpKind::PushBool(v) => Some(
                typed(TypedOpKind::PushBool(*v), no_types(), one_type(TypeKind::Bool)),
            ),
            OpKind::PushInt(v) => Some(
                typed(TypedOpKind::PushInt(*v), no_types(), one_type(TypeKind::Int)),
            ),
            OpKind::Plus => Some(
                typed(
                    TypedOpKind::Plus,
                    two_types(TypeKind::Int, TypeKind::Int),
                    one_type(TypeKind::Int),
                ),
            ),
            OpKind::Minus => Some(
                typed(
                    TypedOpKind::Minus,
                    two_types(TypeKind::Int, TypeKind::Int),
                    one_type(TypeKind::Int),
                ),
            ),
            OpKind::Multiply => Some(
                typed(
                    TypedOpKind::Multiply,
                    two_types(TypeKind::Int, TypeKind::Int),
                    one_type(TypeKind::Int),
                ),
            ),
            OpKind::Divide => Some(
                typed(
                    TypedOpKind::Divide,
                    two_types(TypeKind::Int, TypeKind::Int),
                    one_type(TypeKind::Int),
                ),
            ),
            OpKind::Modulo => Some(
                typed(
                    TypedOpKind::Modulo,
                    two_types(TypeKind::Int, TypeKind::Int),
                    one_type(TypeKind::Int),
                ),
            ),
            OpKind::LessThan => Some(
                typed(
                    TypedOpKind::LessThan,
                    two_types(TypeKind::Int, TypeKind::Int),
                    one_type(TypeKind::Bool),
                ),
            ),
            OpKind::LessThanEquals => Some(
                typed(
                    TypedOpKind::LessThanEquals,
                    two_types(TypeKind::Int, TypeKind::Int),
                    one_type(TypeKind::Bool),
                ),
            ),
            OpKind::GreaterThan => Some(
                typed(
                    TypedOpKind::GreaterThan,
                    two_types(TypeKind::Int, TypeKind::Int),
                    one_type(TypeKind::Bool),
                ),
            ),
            OpKind::GreaterThanEquals => Some(
                typed(
                    TypedOpKind::GreaterThanEquals,
                    two_types(TypeKind::Int, TypeKind::Int),
                    one_type(TypeKind::Bool),
                ),
            ),
            OpKind::Equals => {
                let a: usize = self.create_generic();
                Some(
                    typed(
                        TypedOpKind::Equals,
                        two_types(TypeKind::Generic(a), TypeKind::Generic(a)),
                        one_type(TypeKind::Bool),
                    ),
                )
            },
            OpKind::Not => Some(
                typed(TypedOpKind::Not, one_type(TypeKind::Bool), one_type(TypeKind::Bool)),
            ),
            OpKind::And => Some(
                typed(
                    TypedOpKind::And,
                    two_types(TypeKind::Bool, TypeKind::Bool),
                    one_type(TypeKind::Bool),
                ),
            ),
            OpKind::Or => Some(
                typed(
                    TypedOpKind::Or,
                    two_types(TypeKind::Bool, TypeKind::Bool),
                    one_type(TypeKind::Bool),
                ),
            ),
            OpKind::Identity => {
                let a: usize = self.create_generic();
                Some(
                    typed(
                        TypedOpKind::Identity,
                        one_type(TypeKind::Generic(a)),
                        one_type(TypeKind::Generic(a)),
                    ),
                )
            },
            OpKind::Dup => {
                let a: usize = self.create_generic();
                Some(
                    typed(
                        TypedOpKind::Dup,
                        one_type(TypeKind::Generic(a)),
                        two_types(TypeKind::Generic(a), TypeKind::Generic(a)),
                    ),
                )
            },
            OpKind::Swap => {
                let a: usize = self.create_generic();
                let b: usize = self.create_generic();
                Some(
                    typed(
                        TypedOpKind::Swap,
                        two_types(TypeKind::Generic(a), TypeKind::Generic(b)),
                        two_types(TypeKind::Generic(b), TypeKind::Generic(a)),
                    ),
                )
            },
            OpKind::Over => {
                let a: usize = self.create_generic();
                let b: usize = self.create_generic();
                Some(
                    typed(
                        TypedOpKind::Over,
                        two_types(TypeKind::Generic(a), TypeKind::Generic(b)),
                        three_types(
                            TypeKind::Generic(a),
                            TypeKind::Generic(b),
                            TypeKind::Generic(a),
                        ),
                    ),
                )
            },
            OpKind::Rot => {
                let a: usize = self.create_generic();
                let b: usize = self.create_generic();
                let c: usize = self.create_generic();
                Some(
                    typed(
                        TypedOpKind::Rot,
                        three_types(
                            TypeKind::Generic(a),
                            TypeKind::Generic(b),
                            TypeKind::Generic(c),
                        ),
                        three_types(
                            TypeKind::Generic(b),
                            TypeKind::Generic(c),
                            TypeKind::Generic(a),
                        ),
                    ),
                )
            },
            OpKind::Pop => {
                let a: usize = self.create_generic();
                Some(typed(TypedOpKind::Pop, one_type(TypeKind::Generic(a)), no_types()))
            },
            OpKind::Print => {
                let a: usize = self.create_generic();
                Some(typed(TypedOpKind::Print, one_type(TypeKind::Generic(a)), no_types()))
            },
            OpKind::Len => {
                let a: usize = self.create_generic();
                Some(
                    typed(
                        TypedOpKind::Len,
                        one_type(list_type(TypeKind::Generic(a))),
                        one_type(TypeKind::Int),
                    ),
                )
            },
            OpKind::Concat => {
                let a: usize = self.create_generic();
                Some(
                    typed(
                        TypedOpKind::Concat,
                        two_types(
                            list_type(TypeKind::Generic(a)),
                            list_type(TypeKind::Generic(a)),
                        ),
                        one_type(list_type(TypeKind::Generic(a))),
                    ),
                )
            },
            OpKind::Push => {
                let a: usize = self.create_generic();
                Some(
                    typed(
                        TypedOpKind::Push,
                        two_types(list_type(TypeKind::Generic(a)), TypeKind::Generic(a)),
                        one_type(list_type(TypeKind::Generic(a))),
                    ),
                )
            },
            OpKind::Head => {
                let a: usize = self.create_generic();
                Some(
                    typed(
                        TypedOpKind::Head,
                        one_type(list_type(TypeKind::Generic(a))),
                        one_type(TypeKind::Generic(a)),
                    ),
                )
            },
            OpKind::Tail => {
                let a: usize = self.create_generic();
                Some(
                    typed(
                        TypedOpKind::Tail,
                        one_type(list_type(TypeKind::Generic(a))),
                        one_type(list_type(TypeKind::Generic(a))),
                    ),
                )
            },
            OpKind::MapEach => {
                let a: usize = self.create_generic();
                let b: usize = self.create_generic();
                Some(
                    typed(
                        TypedOpKind::MapEach,
                        two_types(
                            list_type(TypeKind::Generic(a)),
                            block_type(
                                one_type(TypeKind::Generic(a)),
                                one_type(TypeKind::Generic(b)),
                            ),
                        ),
                        one_type(list_type(TypeKind::Generic(b))),
                    ),
                )
            },
            OpKind::Filter => {
                let a: usize = self.create_generic();
                Some(
                    typed(
                        TypedOpKind::Filter,
                        two_types(
                            list_type(TypeKind::Generic(a)),
                            block_type(one_type(TypeKind::Generic(a)), one_type(TypeKind::Bool)),
                        ),
                        one_type(list_type(TypeKind::Generic(a))),
                    ),
                )
            },
            OpKind::Fold => {
                let a: usize = self.create_generic();
                let b: usize = self.create_generic();
                Some(
                    typed(
                        TypedOpKind::Fold,
                        three_types(
                            list_type(TypeKind::Generic(a)),
                            TypeKind::Generic(b),
                            block_type(
                                two_types(TypeKind::Generic(a), TypeKind::Generic(b)),
                                one_type(TypeKind::Generic(b)),
                            ),
                        ),
                        one_type(TypeKind::Generic(b)),
                    ),
                )
            },
            OpKind::Foreach => {
                let a: usize = self.create_generic();
                Some(
                    typed(
                        TypedOpKind::Foreach,
                        two_types(
                            list_type(TypeKind::Generic(a)),
                            block_type(one_type(TypeKind::Generic(a)), no_types()),
                        ),
                        no_types(),
                    ),
                )
            },
            OpKind::Do => Some(
                typed(TypedOpKind::Do, one_type(block_type(no_types(), no_types())), no_types()),
            ),
            _ => None,
        }
    }

    /// Writes one line for each entry of the type stack, bottom first.
    fn dump_stack(&mut self)
        ensures
            final(self)@ == (CheckState {
                dump: old(self)@.dump + dump_lines(old(self)@, old(self)@.stack.len()),
                ..old(self)@
            }),
    {
        let ghost start = self@;
        let mut k: usize = 0;
        assert(start.dump + dump_lines(start, 0) =~= start.dump);
        while k < self.type_stack.len()
            invariant
                k <= self.type_stack.len(),
                self@ == (CheckState { dump: start.dump + dump_lines(start, k as nat), ..start }),
            decreases self.type_stack.len() - k,
        {
            let line = dump_message(&self.erasures, &self.type_stack[k].0, self.type_stack[k].1);
            let ghost before = names_of(self.dump@);
            self.dump.push(line);
            assert(names_of(self.dump@) =~= before.push(line@));
            k += 1;
            assert(start.dump + dump_lines(start, k as nat) =~= (start.dump + dump_lines(
                start,
                (k - 1) as nat,
            )).push(line@));
        }
    }

    /// Checks one operation and returns it with its stack effect. The effect is not
    /// yet applied to the type stack.
    pub fn type_check_op(&mut self, op: &Op) -> (r: TypedOp)
        ensures
            (final(self)@, r@) == check_op(old(self)@, op@),
        decreases op, 1nat,
    {
        match &op.kind {
            OpKind::PushList(elements) => self.check_elements(elements),
            OpKind::PushBlock(body) => {
                let (ops, ins, outs) = self.check_block_parts(body);
                typed(TypedOpKind::PushBlock(ops), no_types(), one_type(block_type(ins, outs)))
            },
            OpKind::DumpStack => {
                self.dump_stack();
                typed(TypedOpKind::DumpStack, no_types(), no_types())
            },
            OpKind::DefineFunction { .. } => self.check_definition(op),
            OpKind::Identifier(name) => self.check_identifier(name, op),
            OpKind::If { .. } => self.check_if(op),
            OpKind::Binding { .. } => self.check_binding(op),
            _ => match self.tabulated(&op.kind) {
                Some(found) => found,
                None => typed(TypedOpKind::Identity, no_types(), no_types()),
            },
        }
    }

    /// Checks the definition of a function.
    fn check_definition(&mut self, op: &Op) -> (r: TypedOp)
        requires
            op.kind is DefineFunction,
        ensures
            (final(self)@, r@) == check_op(old(self)@, op@),
        decreases op, 0nat,
    {
        match &op.kind {
            OpKind::DefineFunction { name, body } => {
                let (ops, ins, outs) = self.check_block_parts(body);
                let ghost before = functions_of(self.functions@);
                let known_ins = crate::types::duplicate_all(&ins);
                let known_outs = crate::types::duplicate_all(&outs);
                self.functions.push((name.clone(), known_ins, known_outs));
                assert(functions_of(self.functions@) =~= before.push(
                    (name@, models_of(ins@), models_of(outs@)),
                ));
                let block = typed(TypedOpKind::PushBlock(ops), ins, outs);
                assert(block@ == (TypedModel {
                    kind: crate::typed_op::TypedKind::PushBlock(typed_models(ops@)),
                    ins: models_of(ins@),
                    outs: models_of(outs@),
                }));
                typed(
                    TypedOpKind::DefineFunction { name: name.clone(), block: Box::new(block) },
                    no_types(),
                    no_types(),
                )
            },
            _ => typed(TypedOpKind::Identity, no_types(), no_types()),
        }
    }

    /// Checks a reference to a name: a bound name first, then a function.
    fn check_identifier(&mut self, name: &String, op: &Op) -> (r: TypedOp)
        requires
            op.kind == OpKind::Identifier(*name),
        ensures
            (final(self)@, r@) == check_op(old(self)@, op@),
    {
        match self.lookup_binding(name) {
            Some(t) => typed(TypedOpKind::Value(name.clone()), no_types(), one_type(t)),
            None => match self.lookup_function(name) {
                Some((ins, outs)) => typed(TypedOpKind::Call(name.clone()), ins, outs),
                None => {
                    let message = unknown_name_message(name);
                    self.report(message, op.span);
                    typed(TypedOpKind::Call(name.clone()), no_types(), no_types())
                },
            },
        }
    }

    /// Checks an `if`, with or without an `else`.
    fn check_if(&mut self, op: &Op) -> (r: TypedOp)
        requires
            op.kind is If,
        ensures
            (final(self)@, r@) == check_op(old(self)@, op@),
        decreases op, 0nat,
    {
        match &op.kind {
            OpKind::If { body, else_body } => {
                let (then_ops, then_ins, then_outs) = self.check_block_parts(body);
                match else_body {
                    None => {
                        self.check_effect_symmetrical(op.span, &then_ins, &then_outs);
                        let mut ins = then_ins;
                        let ghost before = models_of(ins@);
                        ins.push(TypeKind::Bool);
                        assert(models_of(ins@) =~= before.push(Ty::Bool));
                        typed(TypedOpKind::If { body: then_ops, else_body: None }, ins, then_outs)
                    },
                    Some(other) => {
                        let (else_ops, else_ins, else_outs) = self.check_block_parts(other);
                        self.check_effect_symmetrical(op.span, &then_ins, &then_outs);
                        self.check_effect_symmetrical(op.span, &else_ins, &else_outs);
                        let then_effect = block_type(
                            crate::types::duplicate_all(&then_ins),
                            crate::types::duplicate_all(&then_outs),
                        );
                        let else_effect = block_type(else_ins, else_outs);
                        self.expect_type(&then_effect, &else_effect, op.span);
                        let mut ins = then_ins;
                        let ghost before = models_of(ins@);
                        ins.push(TypeKind::Bool);
                        assert(models_of(ins@) =~= before.push(Ty::Bool));
                        typed(
                            TypedOpKind::If { body: then_ops, else_body: Some(else_ops) },
                            ins,
                            then_outs,
                        )
                    },
                }
            },
            _ => typed(TypedOpKind::Identity, no_types(), no_types()),
        }
    }

    /// Checks a binding: binds the names, checks the body where the binding stands,
    /// and takes the names out of scope again.
    fn check_binding(&mut self, op: &Op) -> (r: TypedOp)
        requires
            op.kind is Binding,
        ensures
            (final(self)@, r@) == check_op(old(self)@, op@),
        decreases op, 0nat,
    {
        match &op.kind {
            OpKind::Binding { bindings, body } => {
                let outer: usize = self.bindings.len();
                let bound = self.bind_all(bindings);
                let ops = self.check_sequence(body);
                let ghost before = bindings_of(self.bindings@);
                self.bindings.truncate(outer);
                assert(bindings_of(self.bindings@) =~= if outer <= before.len() {
                    before.subrange(0, outer as int)
                } else {
                    before
                });
                typed(TypedOpKind::Binding { bindings: bound, body: ops }, no_types(), no_types())
            },
            _ => typed(TypedOpKind::Identity, no_types(), no_types()),
        }
    }

    /// Binds each of `names`, the last of them first, to a type popped from the stack,
    /// and returns the names bound, in the order they were bound.
    fn bind_all(&mut self, names: &Vec<(String, Span)>) -> (bound: Vec<String>)
        ensures
            (final(self)@, names_of(bound@)) == bind_names(
                old(self)@,
                placed_names(names@),
                names@.len(),
                Seq::empty(),
            ),
    {
        let ghost start = self@;
        let mut bound: Vec<String> = Vec::new();
        let mut n: usize = names.len();
        assert(names_of(bound@) =~= Seq::<Seq<char>>::empty());
        while n > 0
            invariant
                n <= names.len(),
                start == old(self)@,
                bind_names(start, placed_names(names@), names@.len(), Seq::empty()) == bind_names(
                    self@,
                    placed_names(names@),
                    n as nat,
                    names_of(bound@),
                ),
            decreases n,
        {
            let ghost before_pop = self@;
            let popped = self.pop_type(names[n - 1].1);
            assert(pop_for_binding(before_pop, names@[n - 1].1).0 == self@);
            match popped {
                Some((t, _)) => {
                    let ghost before = bindings_of(self.bindings@);
                    let ghost names_before = names_of(bound@);
                    self.bindings.push((names[n - 1].0.clone(), t));
                    bound.push(names[n - 1].0.clone());
                    assert(bindings_of(self.bindings@) =~= before.push((names@[n - 1].0@, t@)));
                    assert(names_of(bound@) =~= names_before.push(names@[n - 1].0@));
                },
                None => {
                    assert(pop_for_binding(before_pop, names@[n - 1].1).1 is None);
                    assert(bind_names(before_pop, placed_names(names@), n as nat, names_of(bound@)) == (
                        self@,
                        names_of(bound@),
                    ));
                    return bound;
                },
            }
            n -= 1;
        }
        bound
    }

    /// Checks the operations of `ops` in order: each is checked, its effect is applied
    /// to the type stack, and it is emitted with its effect erased.
    fn check_sequence(&mut self, ops: &Vec<Op>) -> (r: Vec<TypedOp>)
        ensures
            (final(self)@, typed_models(r@)) == check_ops(old(self)@, op_models(ops@), 0, Seq::empty()),
        decreases ops, 1nat,
    {
        let ghost start = self@;
        let mut done: Vec<TypedOp> = Vec::new();
        let mut i: usize = 0;
        assert(typed_models(done@) =~= Seq::<TypedModel>::empty());
        while i < ops.len()
            invariant
                i <= ops.len(),
                check_ops(start, op_models(ops@), 0, Seq::empty()) == check_ops(
                    self@,
                    op_models(ops@),
                    i as nat,
                    typed_models(done@),
                ),
            decreases ops.len() - i,
        {
            let found = self.type_check_op(&ops[i]);
            self.resolve_type_stack(ops[i].span, &found);
            let ins = settle_types(&self.erasures, &found.ins, self.erasures.len());
            let outs = settle_types(&self.erasures, &found.outs, self.erasures.len());
            push_typed(&mut done, typed(found.kind, ins, outs));
            i += 1;
        }
        done
    }

    /// Checks the body of a block and returns its typed operations, its inputs and
    /// its outputs.
    fn check_block_parts(&mut self, ops: &Vec<Op>) -> (r: (Vec<TypedOp>, Vec<TypeKind>, Vec<TypeKind>))
        ensures
            (
                final(self)@,
                BlockModel { ops: typed_models(r.0@), ins: models_of(r.1@), outs: models_of(r.2@) },
            ) == check_block(old(self)@, op_models(ops@)),
        decreases ops, 2nat,
    {
        let mut outer_stack: Vec<(TypeKind, Span)> = Vec::new();
        let mut outer_ins: Vec<TypeKind> = Vec::new();
        let outer_in_block = self.in_block;
        std::mem::swap(&mut self.type_stack, &mut outer_stack);
        std::mem::swap(&mut self.block_ins, &mut outer_ins);
        self.in_block = true;
        assert(stack_of(self.type_stack@) =~= Seq::<(Ty, Span)>::empty());
        assert(models_of(self.block_ins@) =~= Seq::<Ty>::empty());
        let typed_ops = self.check_sequence(ops);
        let ghost inner = self@;
        let ins = settle_types(&self.erasures, &self.block_ins, self.erasures.len());
        let mut left: Vec<TypeKind> = Vec::new();
        let mut k: usize = 0;
        while k < self.type_stack.len()
            invariant
                k <= self.type_stack.len(),
                self@ == inner,
                left@.len() == k,
                forall|j: int| 0 <= j < k ==> left@[j]@ == inner.stack[j].0,
            decreases self.type_stack.len() - k,
        {
            left.push(self.type_stack[k].0.duplicate());
            k += 1;
        }
        assert(models_of(left@) =~= types_of(inner.stack));
        let outs = settle_types(&self.erasures, &left, self.erasures.len());
        std::mem::swap(&mut self.type_stack, &mut outer_stack);
        std::mem::swap(&mut self.block_ins, &mut outer_ins);
        self.in_block = outer_in_block;
        (typed_ops, ins, outs)
    }

    /// Checks the body of a block and returns the block as a typed operation whose
    /// effect is that of the body.
    pub fn type_check_block(&mut self, ops: &Vec<Op>) -> (r: TypedOp)
        ensures
            ({
                let (after, block) = check_block(old(self)@, op_models(ops@));
                final(self)@ == after && r@ == (TypedModel {
                    kind: crate::typed_op::TypedKind::PushBlock(block.ops),
                    ins: block.ins,
                    outs: block.outs,
                })
            }),
    {
        let (ops, ins, outs) = self.check_block_parts(ops);
        typed(TypedOpKind::PushBlock(ops), ins, outs)
    }

    /// The list literal with the elements `done`.
    fn finish_list(&mut self, element: Option<TypeKind>, done: Vec<TypedOp>) -> (r: TypedOp)
        ensures
            (final(self)@, r@) == list_result(
                old(self)@,
                optional_model(element),
                typed_models(done@),
            ),
    {
        match element {
            Some(t) => typed(TypedOpKind::PushList(done), no_types(), one_type(list_type(t))),
            None => {
                let index: usize = self.create_generic();
                typed(
                    TypedOpKind::PushList(done),
                    no_types(),
                    one_type(list_type(TypeKind::Generic(index))),
                )
            },
        }
    }

    /// Checks the elements of a list literal.
    fn check_elements(&mut self, elements: &Vec<Op>) -> (r: TypedOp)
        ensures
            (final(self)@, r@) == check_list(old(self)@, op_models(elements@), 0, None, Seq::empty()),
        decreases elements, 1nat,
    {
        let ghost start = self@;
        let mut element: Option<TypeKind> = None;
        let mut done: Vec<TypedOp> = Vec::new();
        let mut i: usize = 0;
        assert(typed_models(done@) =~= Seq::<TypedModel>::empty());
        while i < elements.len()
            invariant
                i <= elements.len(),
                start == old(self)@,
                check_list(start, op_models(elements@), 0, None, Seq::empty()) == check_list(
                    self@,
                    op_models(elements@),
                    i as nat,
                    optional_model(element),
                    typed_models(done@),
                ),
            decreases elements.len() - i,
        {
            let ghost before = self@;
            let found = self.type_check_op(&elements[i]);
            assert(check_op(before, op_models(elements@)[i as int]) == (self@, found@));
            if found.ins.len() != 0 || found.outs.len() != 1 {
                let message = list_element_message(&found.ins, &found.outs);
                self.report(message, elements[i].span);
                let nothing: Vec<TypedOp> = Vec::new();
                assert(typed_models(nothing@) =~= Seq::<TypedModel>::empty());
                let ghost reported = self@;
                assert(check_list(
                    before,
                    op_models(elements@),
                    i as nat,
                    optional_model(element),
                    typed_models(done@),
                ) == list_result(reported, optional_model(element), Seq::<TypedModel>::empty()));
                let r = self.finish_list(element, nothing);
                assert((self@, r@) == list_result(
                    reported,
                    optional_model(element),
                    Seq::<TypedModel>::empty(),
                ));
                return r;
            }
            match &element {
                Some(first) => {
                    self.expect_type(first, &found.outs[0], elements[i].span);
                },
                None => {
                    element = Some(found.outs[0].duplicate());
                },
            }
            push_typed(&mut done, found);
            i += 1;
        }
        self.finish_list(element, done)
    }

    /// Checks a program and returns its typed operations. A checker made with
    /// `fail_on_non_empty_stack` then reports every value left on the type stack.
    pub fn type_check(&mut self, ops: &Vec<Op>) -> (r: Vec<TypedOp>)
        ensures
            (final(self)@, typed_models(r@)) == check_program(old(self)@, op_models(ops@)),
            old(self).well_formed() ==> {
                &&& final(self).well_formed()
                &&& sound_after(old(self)@, final(self)@)
                &&& forall|k: int|
                    0 <= k < r@.len() ==> effect_scoped(
                        #[trigger] typed_models(r@)[k],
                        final(self)@.table.len(),
                    )
            },
    {
        let typed_ops = self.check_sequence(ops);
        if self.fail_on_non_empty_stack {
            let ghost checked = self@;
            let mut k: usize = 0;
            while k < self.type_stack.len()
                invariant
                    k <= self.type_stack.len(),
                    self@ == report_residue(checked, k as nat),
                    self@.stack == checked.stack,
                decreases self.type_stack.len() - k,
            {
                let message = residual_message(&self.type_stack[k].0);
                let span = self.type_stack[k].1;
                self.report(message, span);
                k += 1;
            }
        }
        proof {
            if old(self).well_formed() {
                let wanted = check_program(old(self)@, op_models(ops@));
                lemma_check_program_sound(old(self)@, op_models(ops@));
                lemma_check_program_scoped(old(self)@, op_models(ops@));
                assert(self@ == wanted.0);
                assert(typed_models(typed_ops@) == wanted.1);
                assert(acyclic(self@.table));
                assert(state_scoped(self@));
                assert(sound_after(old(self)@, self@));
                assert forall|k: int| 0 <= k < typed_ops@.len() implies effect_scoped(
                    #[trigger] typed_models(typed_ops@)[k],
                    self@.table.len(),
                ) by {
                    assert(typed_models(typed_ops@)[k] == wanted.1[k]);
                }
            }
        }
        typed_ops
    }
}

/// Copies of the strings in `names`, in order.
pub fn duplicate_names(names: &Vec<String>) -> (r: Vec<String>)
    ensures
        names_of(r@) == names_of(names@),
{
    let mut out: Vec<String> = Vec::new();
    let mut k: usize = 0;
    while k < names.len()
        invariant
            k <= names.len(),
            out@.len() == k,
            forall|j: int| 0 <= j < k ==> out@[j]@ == names@[j]@,
        decreases names.len() - k,
    {
        out.push(names[k].clone());
        k += 1;
    }
    assert(names_of(out@) =~= names_of(names@));
    out
}

impl TypeChecker {
    /// A copy of this checker, to return to after a program that is rejected.
    pub fn duplicate(&self) -> (r: TypeChecker)
        ensures
            r@ == self@,
    {
        let mut type_stack: Vec<(TypeKind, Span)> = Vec::new();
        let mut k: usize = 0;
        while k < self.type_stack.len()
            invariant
                k <= self.type_stack.len(),
                type_stack@.len() == k,
                forall|j: int|
                    0 <= j < k ==> type_stack@[j].0@ == self.type_stack@[j].0@ && type_stack@[j].1
                        == self.type_stack@[j].1,
            decreases self.type_stack.len() - k,
        {
            type_stack.push((self.type_stack[k].0.duplicate(), self.type_stack[k].1));
            k += 1;
        }
        assert(stack_of(type_stack@) =~= stack_of(self.type_stack@));
        let mut diagnostics: Vec<Diagnostic> = Vec::new();
        let mut k: usize = 0;
        while k < self.diagnostics.len()
            invariant
                k <= self.diagnostics.len(),
                diagnostics@.len() == k,
                forall|j: int| 0 <= j < k ==> diagnostics@[j]@ == self.diagnostics@[j]@,
            decreases self.diagnostics.len() - k,
        {
            diagnostics.push(self.diagnostics[k].duplicate());
            k += 1;
        }
        assert(diagnostics_of(diagnostics@) =~= diagnostics_of(self.diagnostics@));
        let mut erasures: Vec<Option<TypeKind>> = Vec::new();
        let mut k: usize = 0;
        while k < self.erasures.len()
            invariant
                k <= self.erasures.len(),
                erasures@.len() == k,
                forall|j: int|
                    0 <= j < k ==> optional_model(erasures@[j]) == optional_model(
                        self.erasures@[j],
                    ),
            decreases self.erasures.len() - k,
        {
            let slot = match &self.erasures[k] {
                Some(t) => Some(t.duplicate()),
                None => None,
            };
            erasures.push(slot);
            k += 1;
        }
        assert(table_of(erasures@) =~= table_of(self.erasures@));
        let mut functions: Vec<(String, Vec<TypeKind>, Vec<TypeKind>)> = Vec::new();
        let mut k: usize = 0;
        while k < self.functions.len()
            invariant
                k <= self.functions.len(),
                functions@.len() == k,
                forall|j: int|
                    0 <= j < k ==> functions@[j].0@ == self.functions@[j].0@ && models_of(
                        functions@[j].1@,
                    ) == models_of(self.functions@[j].1@) && models_of(functions@[j].2@)
                        == models_of(self.functions@[j].2@),
            decreases self.functions.len() - k,
        {
            functions.push(
                (
                    self.functions[k].0.clone(),
                    crate::types::duplicate_all(&self.functions[k].1),
                    crate::types::duplicate_all(&self.functions[k].2),
                ),
            );
            k += 1;
        }
        assert(functions_of(functions@) =~= functions_of(self.functions@));
        let mut bindings: Vec<(String, TypeKind)> = Vec::new();
        let mut k: usize = 0;
        while k < self.bindings.len()
            invariant
                k <= self.bindings.len(),
                bindings@.len() == k,
                forall|j: int|
                    0 <= j < k ==> bindings@[j].0@ == self.bindings@[j].0@ && bindings@[j].1@
                        == self.bindings@[j].1@,
            decreases self.bindings.len() - k,
        {
            bindings.push((self.bindings[k].0.clone(), self.bindings[k].1.duplicate()));
            k += 1;
        }
        assert(bindings_of(bindings@) =~= bindings_of(self.bindings@));
        let r = TypeChecker {
            fail_on_non_empty_stack: self.fail_on_non_empty_stack,
            type_stack,
            diagnostics,
            erasures,
            functions,
            bindings,
            in_block: self.in_block,
            block_ins: crate::types::duplicate_all(&self.block_ins),
            dump: duplicate_names(&self.dump),
        };
        assert(r@ =~~= self@);
        r
    }
}

/// The message for an operation that found the stack empty where it wanted a `wanted`.
pub fn empty_stack_message(wanted: &TypeKind) -> (r: String)
    ensures
        r@ == empty_stack_text(wanted@),
{
    let mut message = String::from_str("Expected ");
    wanted.write_text(&mut message);
    message.append(" but stack was empty");
    assert(message@ =~= empty_stack_text(wanted@));
    message
}

/// The message for a list element whose effect is not one output and nothing else.
pub fn list_element_message(ins: &Vec<TypeKind>, outs: &Vec<TypeKind>) -> (r: String)
    ensures
        r@ == list_element_text(models_of(ins@), models_of(outs@)),
{
    let mut message = String::from_str("List elements must have the signature [ -- <a>], got ");
    let effect = effect_string(ins, outs);
    message.append(effect.as_str());
    message
}

/// The message for a name that is neither bound nor a function.
pub fn unknown_name_message(name: &String) -> (r: String)
    ensures
        r@ == unknown_name_text(name@),
{
    let mut message = String::from_str("no such identifier `");
    message.append(name.as_str());
    message.append("` in scope");
    message
}

/// The message for a branch whose inputs and outputs differ.
pub fn asymmetry_message(ins: &Vec<TypeKind>, outs: &Vec<TypeKind>) -> (r: String)
    ensures
        r@ == asymmetry_text(models_of(ins@), models_of(outs@)),
{
    let mut message = String::from_str("expected symmetrical function, but got ");
    let effect = effect_string(ins, outs);
    message.append(effect.as_str());
    message
}

/// The message for a value left on the stack at the end of a program.
pub fn residual_message(t: &TypeKind) -> (r: String)
    ensures
        r@ == residual_text(t@),
{
    let mut message = String::from_str(
        "Type stack must be empty at the end of the program, but got ",
    );
    t.write_text(&mut message);
    message
}

/// The line that a stack dump writes for one entry of the type stack.
pub fn dump_message(table: &Vec<Option<TypeKind>>, t: &TypeKind, span: Span) -> (r: String)
    ensures
        r@ == dump_line(table_of(table@), t@, span),
{
    let mut line = String::new();
    let shown = settle_type(table, t, table.len());
    shown.write_text(&mut line);
    line.append(" defined at ");
    line.append("Span { offset: ");
    push_decimal(&mut line, span.offset);
    line.append(", length: ");
    push_decimal(&mut line, span.length);
    line.append(" }");
    assert(line@ =~= dump_line(table_of(table@), t@, span));
    line
}

/// No types.
fn no_types() -> (r: Vec<TypeKind>)
    ensures
        models_of(r@) == Seq::<Ty>::empty(),
{
    let r: Vec<TypeKind> = Vec::new();
    assert(models_of(r@) =~= Seq::<Ty>::empty());
    r
}

/// The one type `a`.
fn one_type(a: TypeKind) -> (r: Vec<TypeKind>)
    ensures
        models_of(r@) == seq![a@],
{
    let mut r: Vec<TypeKind> = Vec::new();
    r.push(a);
    assert(models_of(r@) =~= seq![a@]);
    r
}

/// The two types `a` and `b`.
fn two_types(a: TypeKind, b: TypeKind) -> (r: Vec<TypeKind>)
    ensures
        models_of(r@) == seq![a@, b@],
{
    let mut r: Vec<TypeKind> = Vec::new();
    r.push(a);
    r.push(b);
    assert(models_of(r@) =~= seq![a@, b@]);
    r
}

/// The three types `a`, `b` and `c`.
fn three_types(a: TypeKind, b: TypeKind, c: TypeKind) -> (r: Vec<TypeKind>)
    ensures
        models_of(r@) == seq![a@, b@, c@],
{
    let mut r: Vec<TypeKind> = Vec::new();
    r.push(a);
    r.push(b);
    r.push(c);
    assert(models_of(r@) =~= seq![a@, b@, c@]);
    r
}

/// The list type with elements of type `t`.
fn list_type(t: TypeKind) -> (r: TypeKind)
    ensures
        r@ == list_of(t@),
{
    TypeKind::List(Box::new(t))
}

/// The block type with the given inputs and outputs.
fn block_type(ins: Vec<TypeKind>, outs: Vec<TypeKind>) -> (r: TypeKind)
    ensures
        r@ == (Ty::Block { ins: models_of(ins@), outs: models_of(outs@) }),
{
    TypeKind::Block { ins, outs }
}

/// A typed operation.
fn typed(kind: TypedOpKind, ins: Vec<TypeKind>, outs: Vec<TypeKind>) -> (r: TypedOp)
    ensures
        r.kind == kind,
        r.ins == ins,
        r.outs == outs,
{
    TypedOp { kind, ins, outs }
}

} // verus!
