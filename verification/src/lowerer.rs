//! The lowerer: from typed operations to bytecode.

use vstd::prelude::*;
use vstd::string::*;
pub use crate::bytecode::ByteCodeInstruction;
use crate::lowering_model::{
    FrameModel, LowerError, LowerModel, bind_slots, block_name, duplicate_list_code,
    emitted_position, filter_code, fold_code, foreach_code, four_locals_two_labels, frames_of,
    fresh_label, fresh_local, initial_lowerer, lower_all, lower_backwards, lower_one,
    lower_program, map_code, position_of, single_instruction, slot_of, three_locals_two_labels,
    two_labels_two_locals, with_code, word_of_bool, word_of_int,
};
use crate::lowering_laws::{all_closed, closed, lemma_lower_program_closed};
use crate::text::push_decimal;
use crate::typed_op::{TypedKind, TypedOp, TypedOpKind, names_of, typed_models};
use crate::types::TypeKind;

verus! {

/// The code of one function and the number of local slots it needs.
#[derive(Debug, Clone)]
pub struct StackFrame {
    pub instructions: Vec<ByteCodeInstruction>,
    pub max_locals: usize,
}

impl View for StackFrame {
    type V = FrameModel;

    open spec fn view(&self) -> FrameModel {
        FrameModel { instructions: self.instructions@, max_locals: self.max_locals }
    }
}

/// The mathematical form of a lowered program: its frames by name, in order.
pub open spec fn program_of(frames: Seq<(String, StackFrame)>) -> Seq<(Seq<char>, FrameModel)> {
    Seq::new(frames.len(), |i: int| (frames[i].0@, frames[i].1@))
}

/// The mathematical form of a table of slots by name.
pub open spec fn slots_of(entries: Seq<(String, usize)>) -> Seq<(Seq<char>, usize)> {
    Seq::new(entries.len(), |i: int| (entries[i].0@, entries[i].1))
}

/// The mathematical form of a table of code by name.
pub open spec fn code_table_of(entries: Seq<(String, Vec<ByteCodeInstruction>)>) -> Seq<
    (Seq<char>, Seq<ByteCodeInstruction>),
> {
    Seq::new(entries.len(), |i: int| (entries[i].0@, entries[i].1@))
}

/// The lowerer from typed operations to bytecode.
///
/// It hands out labels and local slots, and holds the constant pool and the code of
/// the blocks and functions compiled so far.
pub struct Lowerer {
    pub next_label: usize,
    pub constant_pool: Vec<String>,
    pub bindings: Vec<(String, usize)>,
    pub fns_to_emit: Vec<(String, Vec<ByteCodeInstruction>)>,
    pub locals_count: usize,
    pub max_locals: usize,
}

impl View for Lowerer {
    type V = LowerModel;

    open spec fn view(&self) -> LowerModel {
        LowerModel {
            next_label: self.next_label,
            pool: names_of(self.constant_pool@),
            bindings: slots_of(self.bindings@),
            emitted: code_table_of(self.fns_to_emit@),
            locals: self.locals_count,
            max_locals: self.max_locals,
        }
    }
}

/// Whether `r`, with the lowerer in state `after`, is what `wanted` asks for: the
/// same error, or the same code with the lowerer in the state that goes with it.
pub open spec fn lowered_as(
    r: Result<Vec<ByteCodeInstruction>, LowerError>,
    after: LowerModel,
    wanted: Result<(LowerModel, Seq<ByteCodeInstruction>), LowerError>,
) -> bool {
    match wanted {
        Ok((s, code)) => r is Ok && r->Ok_0@ =~= code && after == s,
        Err(e) => r is Err && r->Err_0 == e,
    }
}

/// The word that stands for an integer.
pub fn int_word(v: i64) -> (r: usize)
    ensures
        r == word_of_int(v),
{
    #[verifier::truncate]
    (v as usize)
}

/// The word that stands for a boolean.
pub fn bool_word(b: bool) -> (r: usize)
    ensures
        r == word_of_bool(b),
{
    if b {
        1
    } else {
        0
    }
}

/// The code that copies the list on top of the stack.
fn duplicate_list_instructions(list: usize, counter: usize, cond: usize, end: usize) -> (r: Vec<
    ByteCodeInstruction,
>)
    ensures
        r@ == duplicate_list_code(list, counter, cond, end),
{
    vec![
        ByteCodeInstruction::Store { index: list },
        ByteCodeInstruction::Load { index: list },
        ByteCodeInstruction::ListLen,
        ByteCodeInstruction::Store { index: counter },
        ByteCodeInstruction::Label(cond),
        ByteCodeInstruction::Load { index: counter },
        ByteCodeInstruction::Push(0),
        ByteCodeInstruction::Gt,
        ByteCodeInstruction::JumpIfFalse { label: end },
        ByteCodeInstruction::Load { index: counter },
        ByteCodeInstruction::Dec,
        ByteCodeInstruction::Store { index: counter },
        ByteCodeInstruction::Load { index: list },
        ByteCodeInstruction::Load { index: counter },
        ByteCodeInstruction::ListGet,
        ByteCodeInstruction::Jump { label: cond },
        ByteCodeInstruction::Label(end),
        ByteCodeInstruction::Load { index: list },
        ByteCodeInstruction::ListLen,
        ByteCodeInstruction::NewList,
        ByteCodeInstruction::Load { index: list },
        ByteCodeInstruction::Swap,
    ]
}

/// The code of `map`.
fn map_instructions(func: usize, list: usize, index: usize, cond: usize, end: usize) -> (r: Vec<
    ByteCodeInstruction,
>)
    ensures
        r@ == map_code(func, list, index, cond, end),
{
    vec![
        ByteCodeInstruction::Store { index: func },
        ByteCodeInstruction::Store { index: list },
        ByteCodeInstruction::Load { index: list },
        ByteCodeInstruction::ListLen,
        ByteCodeInstruction::Store { index: index },
        ByteCodeInstruction::Label(cond),
        ByteCodeInstruction::Load { index: index },
        ByteCodeInstruction::Push(0),
        ByteCodeInstruction::Gt,
        ByteCodeInstruction::JumpIfFalse { label: end },
        ByteCodeInstruction::Load { index: index },
        ByteCodeInstruction::Dec,
        ByteCodeInstruction::Store { index: index },
        ByteCodeInstruction::Load { index: list },
        ByteCodeInstruction::Load { index: index },
        ByteCodeInstruction::ListGet,
        ByteCodeInstruction::Load { index: func },
        ByteCodeInstruction::CallDynamic,
        ByteCodeInstruction::Jump { label: cond },
        ByteCodeInstruction::Label(end),
        ByteCodeInstruction::Load { index: list },
        ByteCodeInstruction::ListLen,
        ByteCodeInstruction::NewList,
    ]
}

/// The code of `filter`.
fn filter_instructions(
    func: usize,
    list: usize,
    index: usize,
    count: usize,
    cond: usize,
    end: usize,
) -> (r: Vec<ByteCodeInstruction>)
    ensures
        r@ == filter_code(func, list, index, count, cond, end),
{
    vec![
        ByteCodeInstruction::Store { index: func },
        ByteCodeInstruction::Store { index: list },
        ByteCodeInstruction::Load { index: list },
        ByteCodeInstruction::ListLen,
        ByteCodeInstruction::Store { index: index },
        ByteCodeInstruction::Push(0),
        ByteCodeInstruction::Store { index: count },
        ByteCodeInstruction::Label(cond),
        ByteCodeInstruction::Load { index: index },
        ByteCodeInstruction::Push(0),
        ByteCodeInstruction::Gt,
        ByteCodeInstruction::JumpIfFalse { label: end },
        ByteCodeInstruction::Load { index: index },
        ByteCodeInstruction::Dec,
        ByteCodeInstruction::Store { index: index },
        ByteCodeInstruction::Load { index: list },
        ByteCodeInstruction::Load { index: index },
        ByteCodeInstruction::ListGet,
        ByteCodeInstruction::Load { index: func },
        ByteCodeInstruction::CallDynamic,
        ByteCodeInstruction::JumpIfFalse { label: cond },
        ByteCodeInstruction::Load { index: list },
        ByteCodeInstruction::Load { index: index },
        ByteCodeInstruction::ListGet,
        ByteCodeInstruction::Load { index: count },
        ByteCodeInstruction::Inc,
        ByteCodeInstruction::Store { index: count },
        ByteCodeInstruction::Jump { label: cond },
        ByteCodeInstruction::Label(end),
        ByteCodeInstruction::Load { index: count },
        ByteCodeInstruction::NewList,
    ]
}

/// The code of `fold`.
fn fold_instructions(
    func: usize,
    list: usize,
    index: usize,
    acc: usize,
    cond: usize,
    end: usize,
) -> (r: Vec<ByteCodeInstruction>)
    ensures
        r@ == fold_code(func, list, index, acc, cond, end),
{
    vec![
        ByteCodeInstruction::Store { index: func },
        ByteCodeInstruction::Store { index: acc },
        ByteCodeInstruction::Store { index: list },
        ByteCodeInstruction::Load { index: list },
        ByteCodeInstruction::ListLen,
        ByteCodeInstruction::Store { index: index },
        ByteCodeInstruction::Label(cond),
        ByteCodeInstruction::Load { index: index },
        ByteCodeInstruction::Push(0),
        ByteCodeInstruction::Gt,
        ByteCodeInstruction::JumpIfFalse { label: end },
        ByteCodeInstruction::Load { index: index },
        ByteCodeInstruction::Dec,
        ByteCodeInstruction::Store { index: index },
        ByteCodeInstruction::Load { index: list },
        ByteCodeInstruction::Load { index: index },
        ByteCodeInstruction::ListGet,
        ByteCodeInstruction::Load { index: acc },
        ByteCodeInstruction::Load { index: func },
        ByteCodeInstruction::CallDynamic,
        ByteCodeInstruction::Store { index: acc },
        ByteCodeInstruction::Jump { label: cond },
        ByteCodeInstruction::Label(end),
        ByteCodeInstruction::Load { index: acc },
    ]
}

/// The code of `foreach`.
fn foreach_instructions(func: usize, list: usize, index: usize, cond: usize, end: usize) -> (r:
    Vec<ByteCodeInstruction>)
    ensures
        r@ == foreach_code(func, list, index, cond, end),
{
    vec![
        ByteCodeInstruction::Store { index: func },
        ByteCodeInstruction::Store { index: list },
        ByteCodeInstruction::Push(0),
        ByteCodeInstruction::Store { index: index },
        ByteCodeInstruction::Label(cond),
        ByteCodeInstruction::Load { index: index },
        ByteCodeInstruction::Load { index: list },
        ByteCodeInstruction::ListLen,
        ByteCodeInstruction::Lt,
        ByteCodeInstruction::JumpIfFalse { label: end },
        ByteCodeInstruction::Load { index: list },
        ByteCodeInstruction::Load { index: index },
        ByteCodeInstruction::ListGet,
        ByteCodeInstruction::Load { index: func },
        ByteCodeInstruction::CallDynamic,
        ByteCodeInstruction::Load { index: index },
        ByteCodeInstruction::Inc,
        ByteCodeInstruction::Store { index: index },
        ByteCodeInstruction::Jump { label: cond },
        ByteCodeInstruction::Label(end),
    ]
}

/// The one instruction of an operation that is lowered to one instruction whatever
/// its types are.
fn single(kind: &TypedOpKind) -> (r: Option<ByteCodeInstruction>)
    ensures
        r == single_instruction(crate::typed_op::typed_kind(*kind)),
{
    match kind {
        TypedOpKind::PushInt(v) => Some(ByteCodeInstruction::Push(int_word(*v))),
        TypedOpKind::PushBool(b) => Some(ByteCodeInstruction::Push(bool_word(*b))),
        TypedOpKind::Over => Some(ByteCodeInstruction::Over),
        TypedOpKind::Rot => Some(ByteCodeInstruction::Rot),
        TypedOpKind::Swap => Some(ByteCodeInstruction::Swap),
        TypedOpKind::Pop => Some(ByteCodeInstruction::Pop),
        TypedOpKind::Plus => Some(ByteCodeInstruction::Add),
        TypedOpKind::Minus => Some(ByteCodeInstruction::Sub),
        TypedOpKind::Multiply => Some(ByteCodeInstruction::Mul),
        TypedOpKind::Divide => Some(ByteCodeInstruction::Div),
        TypedOpKind::Modulo => Some(ByteCodeInstruction::Mod),
        TypedOpKind::GreaterThan => Some(ByteCodeInstruction::Gt),
        TypedOpKind::GreaterThanEquals => Some(ByteCodeInstruction::GtEq),
        TypedOpKind::LessThan => Some(ByteCodeInstruction::Lt),
        TypedOpKind::LessThanEquals => Some(ByteCodeInstruction::LtEq),
        TypedOpKind::Equals => Some(ByteCodeInstruction::Eq),
        TypedOpKind::Len => Some(ByteCodeInstruction::ListLen),
        TypedOpKind::Do => Some(ByteCodeInstruction::CallDynamic),
        _ => None,
    }
}

/// The name of the block compiled into slot `index` of the constant pool.
pub fn block_name_string(index: usize) -> (r: String)
    ensures
        r@ == block_name(index as nat),
{
    let mut name = String::from_str("block_");
    push_decimal(&mut name, index);
    name
}

impl Lowerer {
    /// Whether this lowerer is well formed: in every code that it has compiled, every
    /// jump goes to a label of that code.
    pub open spec fn well_formed(&self) -> bool {
        all_closed(self@.emitted)
    }

    /// A lowerer that has compiled nothing yet.
    pub fn new() -> (r: Lowerer)
        ensures
            r@ == initial_lowerer(),
            r.well_formed(),
    {
        let r = Lowerer {
            next_label: 0,
            constant_pool: Vec::new(),
            bindings: Vec::new(),
            fns_to_emit: Vec::new(),
            locals_count: 0,
            max_locals: 0,
        };
        assert(r@ =~~= initial_lowerer());
        r
    }

    /// Hands out a label.
    pub fn next_label(&mut self) -> (r: Result<usize, LowerError>)
        ensures
            match fresh_label(old(self)@) {
                Ok((s, label)) => r == Ok::<usize, LowerError>(label) && final(self)@ == s,
                Err(e) => r == Err::<usize, LowerError>(e) && final(self)@ == old(self)@,
            },
    {
        if self.next_label < usize::MAX {
            let label: usize = self.next_label;
            self.next_label = label + 1;
            Ok(label)
        } else {
            Err(LowerError::Exhausted)
        }
    }

    /// Hands out a local slot.
    pub fn next_local(&mut self) -> (r: Result<usize, LowerError>)
        ensures
            match fresh_local(old(self)@) {
                Ok((s, slot)) => r == Ok::<usize, LowerError>(slot) && final(self)@ == s,
                Err(e) => r == Err::<usize, LowerError>(e) && final(self)@ == old(self)@,
            },
    {
        if self.locals_count < usize::MAX {
            let slot: usize = self.locals_count;
            self.locals_count = slot + 1;
            if self.max_locals < self.locals_count {
                self.max_locals = self.locals_count;
            }
            Ok(slot)
        } else {
            Err(LowerError::Exhausted)
        }
    }

    /// Hands out three local slots and two labels, in that order.
    fn three_and_two(&mut self) -> (r: Result<(usize, usize, usize, usize, usize), LowerError>)
        ensures
            match three_locals_two_labels(old(self)@) {
                Ok((s, a, b, c, cond, end)) => r == Ok::<
                    (usize, usize, usize, usize, usize),
                    LowerError,
                >((a, b, c, cond, end)) && final(self)@ == s,
                Err(e) => r is Err && r->Err_0 == e,
            },
    {
        let a: usize = match self.next_local() {
            Ok(v) => v,
            Err(e) => { return Err(e); },
        };
        let b: usize = match self.next_local() {
            Ok(v) => v,
            Err(e) => { return Err(e); },
        };
        let c: usize = match self.next_local() {
            Ok(v) => v,
            Err(e) => { return Err(e); },
        };
        let cond: usize = match self.next_label() {
            Ok(v) => v,
            Err(e) => { return Err(e); },
        };
        let end: usize = match self.next_label() {
            Ok(v) => v,
            Err(e) => { return Err(e); },
        };
        Ok((a, b, c, cond, end))
    }

    /// Hands out four local slots and two labels, in that order.
    fn four_and_two(&mut self) -> (r: Result<(usize, usize, usize, usize, usize, usize), LowerError>)
        ensures
            match four_locals_two_labels(old(self)@) {
                Ok((s, a, b, c, d, cond, end)) => r == Ok::<
                    (usize, usize, usize, usize, usize, usize),
                    LowerError,
                >((a, b, c, d, cond, end)) && final(self)@ == s,
                Err(e) => r is Err && r->Err_0 == e,
            },
    {
        let a: usize = match self.next_local() {
            Ok(v) => v,
            Err(e) => { return Err(e); },
        };
        match self.three_and_two() {
            Ok((b, c, d, cond, end)) => Ok((a, b, c, d, cond, end)),
            Err(e) => Err(e),
        }
    }

    /// The code that copies the list on top of the stack and leaves the list and its
    /// copy, the copy on top.
    pub fn duplicate_list(&mut self) -> (r: Result<Vec<ByteCodeInstruction>, LowerError>)
        ensures
            match two_labels_two_locals(old(self)@) {
                Ok((s, cond, end, list, counter)) => r is Ok && r->Ok_0@ == duplicate_list_code(
                    list,
                    counter,
                    cond,
                    end,
                ) && final(self)@ == s,
                Err(e) => r is Err && r->Err_0 == e,
            },
    {
        let cond: usize = match self.next_label() {
            Ok(v) => v,
            Err(e) => { return Err(e); },
        };
        let end: usize = match self.next_label() {
            Ok(v) => v,
            Err(e) => { return Err(e); },
        };
        let list: usize = match self.next_local() {
            Ok(v) => v,
            Err(e) => { return Err(e); },
        };
        let counter: usize = match self.next_local() {
            Ok(v) => v,
            Err(e) => { return Err(e); },
        };
        Ok(duplicate_list_instructions(list, counter, cond, end))
    }

    /// The position in the constant pool of the first entry named `name`.
    fn pool_position(&self, name: &String) -> (r: Option<usize>)
        ensures
            match position_of(self@.pool, name@, 0) {
                Some(k) => r == Some(k as usize) && k < self@.pool.len(),
                None => r is None,
            },
    {
        let mut k: usize = 0;
        while k < self.constant_pool.len()
            invariant
                k <= self.constant_pool.len(),
                position_of(self@.pool, name@, 0) == position_of(self@.pool, name@, k as nat),
            decreases self.constant_pool.len() - k,
        {
            if self.constant_pool[k].eq(name) {
                return Some(k);
            }
            k += 1;
        }
        None
    }

    /// The local slot that the innermost binding of `name` gives it.
    fn binding_slot(&self, name: &String) -> (r: Option<usize>)
        ensures
            r == slot_of(self@.bindings, name@, self@.bindings.len()),
    {
        let mut n: usize = self.bindings.len();
        while n > 0
            invariant
                n <= self.bindings.len(),
                slot_of(self@.bindings, name@, self@.bindings.len()) == slot_of(
                    self@.bindings,
                    name@,
                    n as nat,
                ),
            decreases n,
        {
            if self.bindings[n - 1].0.eq(name) {
                return Some(self.bindings[n - 1].1);
            }
            n -= 1;
        }
        None
    }

    /// Records `code` as the code named `name`, in place of code of that name where
    /// there is some.
    fn emit_code(&mut self, name: String, code: Vec<ByteCodeInstruction>)
        ensures
            final(self)@ == (LowerModel {
                emitted: with_code(old(self)@.emitted, name@, code@),
                ..old(self)@
            }),
    {
        let ghost table = self@.emitted;
        let mut k: usize = 0;
        while k < self.fns_to_emit.len()
            invariant
                k <= self.fns_to_emit.len(),
                self@ == old(self)@,
                table == self@.emitted,
                emitted_position(table, name@, 0) == emitted_position(table, name@, k as nat),
            decreases self.fns_to_emit.len() - k,
        {
            if self.fns_to_emit[k].0.eq(&name) {
                let ghost shown = (name@, code@);
                self.fns_to_emit[k] = (name, code);
                assert(code_table_of(self.fns_to_emit@) =~= table.update(k as int, shown));
                return ;
            }
            k += 1;
        }
        let ghost shown = (name@, code@);
        self.fns_to_emit.push((name, code));
        assert(code_table_of(self.fns_to_emit@) =~= table.push(shown));
    }
}

impl Lowerer {
    /// Lowers one typed operation.
    pub fn lower_op(&mut self, op: &TypedOp) -> (r: Result<Vec<ByteCodeInstruction>, LowerError>)
        ensures
            lowered_as(r, final(self)@, lower_one(old(self)@, op@)),
        decreases op, 1nat,
    {
        match &op.kind {
            TypedOpKind::PushList(elements) => match self.lower_elements(elements) {
                Ok(code) => {
                    let mut code = code;
                    code.push(ByteCodeInstruction::Push(elements.len()));
                    code.push(ByteCodeInstruction::NewList);
                    Ok(code)
                },
                Err(e) => Err(e),
            },
            TypedOpKind::PushBlock(_) => self.lower_block(op),
            TypedOpKind::Dup => {
                if op.ins.len() == 0 {
                    return Err(LowerError::MissingInput);
                }
                match &op.ins[0] {
                    TypeKind::List(_) => self.duplicate_list(),
                    _ => Ok(vec![ByteCodeInstruction::Dup]),
                }
            },
            TypedOpKind::Print => {
                if op.ins.len() == 0 {
                    return Err(LowerError::MissingInput);
                }
                match &op.ins[0] {
                    TypeKind::List(_) => Ok(vec![ByteCodeInstruction::PrintList]),
                    TypeKind::Bool => Ok(vec![ByteCodeInstruction::PrintBool]),
                    _ => Ok(vec![ByteCodeInstruction::Print]),
                }
            },
            TypedOpKind::Not => Ok(vec![ByteCodeInstruction::Push(0), ByteCodeInstruction::Eq]),
            TypedOpKind::Identity => Ok(Vec::new()),
            TypedOpKind::MapEach => match self.three_and_two() {
                Ok((func, list, index, cond, end)) => Ok(
                    map_instructions(func, list, index, cond, end),
                ),
                Err(e) => Err(e),
            },
            TypedOpKind::Filter => match self.four_and_two() {
                Ok((func, list, index, count, cond, end)) => Ok(
                    filter_instructions(func, list, index, count, cond, end),
                ),
                Err(e) => Err(e),
            },
            TypedOpKind::Fold => match self.four_and_two() {
                Ok((func, list, index, acc, cond, end)) => Ok(
                    fold_instructions(func, list, index, acc, cond, end),
                ),
                Err(e) => Err(e),
            },
            TypedOpKind::Foreach => match self.three_and_two() {
                Ok((func, list, index, cond, end)) => Ok(
                    foreach_instructions(func, list, index, cond, end),
                ),
                Err(e) => Err(e),
            },
            TypedOpKind::DefineFunction { .. } => self.lower_definition(op),
            TypedOpKind::Call(name) => match self.pool_position(name) {
                Some(index) => Ok(vec![ByteCodeInstruction::CallStatic { index }]),
                None => Err(LowerError::UnknownFunction),
            },
            TypedOpKind::Value(name) => match self.binding_slot(name) {
                Some(slot) => Ok(vec![ByteCodeInstruction::Load { index: slot }]),
                None => Err(LowerError::UnknownBinding),
            },
            TypedOpKind::Binding { .. } => self.lower_binding(op),
            TypedOpKind::If { .. } => self.lower_if(op),
            _ => match single(&op.kind) {
                Some(instruction) => Ok(vec![instruction]),
                None => Err(LowerError::Unsupported),
            },
        }
    }

    /// Lowers the operations of `ops` in order.
    pub fn lower_ops(&mut self, ops: &Vec<TypedOp>) -> (r: Result<
        Vec<ByteCodeInstruction>,
        LowerError,
    >)
        ensures
            lowered_as(r, final(self)@, lower_all(old(self)@, typed_models(ops@), 0, seq![])),
        decreases ops, 0nat,
    {
        let ghost start = self@;
        let mut code: Vec<ByteCodeInstruction> = Vec::new();
        let mut i: usize = 0;
        while i < ops.len()
            invariant
                i <= ops.len(),
                start == old(self)@,
                lower_all(start, typed_models(ops@), 0, seq![]) == lower_all(
                    self@,
                    typed_models(ops@),
                    i as nat,
                    code@,
                ),
            decreases ops.len() - i,
        {
            match self.lower_op(&ops[i]) {
                Ok(more) => {
                    let mut more = more;
                    code.append(&mut more);
                },
                Err(e) => {
                    return Err(e);
                },
            }
            i += 1;
        }
        Ok(code)
    }

    /// Lowers the elements of a list literal, the last first.
    fn lower_elements(&mut self, elements: &Vec<TypedOp>) -> (r: Result<
        Vec<ByteCodeInstruction>,
        LowerError,
    >)
        ensures
            lowered_as(
                r,
                final(self)@,
                lower_backwards(old(self)@, typed_models(elements@), elements@.len(), seq![]),
            ),
        decreases elements, 0nat,
    {
        let ghost start = self@;
        let ghost models = typed_models(elements@);
        let mut code: Vec<ByteCodeInstruction> = Vec::new();
        let mut n: usize = elements.len();
        while n > 0
            invariant
                n <= elements.len(),
                start == old(self)@,
                models == typed_models(elements@),
                lower_backwards(start, models, models.len(), seq![]) == lower_backwards(
                    self@,
                    models,
                    n as nat,
                    code@,
                ),
            decreases n,
        {
            match self.lower_op(&elements[n - 1]) {
                Ok(more) => {
                    let mut more = more;
                    code.append(&mut more);
                },
                Err(e) => {
                    return Err(e);
                },
            }
            n -= 1;
        }
        Ok(code)
    }

    /// Lowers a quotation: gives it a slot of the constant pool, compiles its body
    /// into a function of its own, and pushes the slot's index.
    fn lower_block(&mut self, op: &TypedOp) -> (r: Result<Vec<ByteCodeInstruction>, LowerError>)
        requires
            op.kind is PushBlock,
        ensures
            lowered_as(r, final(self)@, lower_one(old(self)@, op@)),
        decreases op, 0nat,
    {
        match &op.kind {
            TypedOpKind::PushBlock(body) => {
                let index: usize = self.constant_pool.len();
                let ghost pool = names_of(self.constant_pool@);
                self.constant_pool.push(block_name_string(index));
                assert(names_of(self.constant_pool@) =~= pool.push(block_name(index as nat)));
                match self.lower_ops(body) {
                    Ok(code) => {
                        let mut code = code;
                        code.push(ByteCodeInstruction::Return);
                        self.emit_code(block_name_string(index), code);
                        Ok(vec![ByteCodeInstruction::PushBlock { index }])
                    },
                    Err(e) => Err(e),
                }
            },
            _ => Err(LowerError::Unsupported),
        }
    }

    /// Lowers the definition of a function: compiles its body into a function of its
    /// own and enters its name in the constant pool.
    fn lower_definition(&mut self, op: &TypedOp) -> (r: Result<Vec<ByteCodeInstruction>, LowerError>)
        requires
            op.kind is DefineFunction,
        ensures
            lowered_as(r, final(self)@, lower_one(old(self)@, op@)),
        decreases op, 0nat,
    {
        match &op.kind {
            TypedOpKind::DefineFunction { name, block } => {
                match &block.kind {
                    TypedOpKind::PushBlock(body) => {
                        assert(block@.kind == TypedKind::PushBlock(typed_models(body@)));
                        assert(op@.kind == (TypedKind::DefineFunction {
                            name: name@,
                            block: Box::new(block@),
                        }));
                        match self.lower_ops(body) {
                            Ok(code) => {
                                let mut code = code;
                                code.push(ByteCodeInstruction::Return);
                                let ghost pool = names_of(self.constant_pool@);
                                self.constant_pool.push(name.clone());
                                assert(names_of(self.constant_pool@) =~= pool.push(name@));
                                self.emit_code(name.clone(), code);
                                Ok(Vec::new())
                            },
                            Err(e) => Err(e),
                        }
                    },
                    _ => {
                        assert(op@.kind == (TypedKind::DefineFunction {
                            name: name@,
                            block: Box::new(block@),
                        }));
                        assert(!(block@.kind is PushBlock));
                        Err(LowerError::Unsupported)
                    },
                }
            },
            _ => Err(LowerError::Unsupported),
        }
    }

    /// Lowers a binding: one store into a fresh local slot for each name, then the
    /// body, after which the slots are free again.
    fn lower_binding(&mut self, op: &TypedOp) -> (r: Result<Vec<ByteCodeInstruction>, LowerError>)
        requires
            op.kind is Binding,
        ensures
            lowered_as(r, final(self)@, lower_one(old(self)@, op@)),
        decreases op, 0nat,
    {
        match &op.kind {
            TypedOpKind::Binding { bindings, body } => {
                let ghost start = self@;
                let ghost names = names_of(bindings@);
                let outer: usize = self.bindings.len();
                let mut code: Vec<ByteCodeInstruction> = Vec::new();
                let mut i: usize = 0;
                while i < bindings.len()
                    invariant
                        i <= bindings.len(),
                        start == old(self)@,
                        op.kind == (TypedOpKind::Binding { bindings: *bindings, body: *body }),
                        names == names_of(bindings@),
                        bind_slots(start, names, 0, seq![]) == bind_slots(
                            self@,
                            names,
                            i as nat,
                            code@,
                        ),
                    decreases bindings.len() - i,
                {
                    match self.next_local() {
                        Ok(slot) => {
                            let ghost before = slots_of(self.bindings@);
                            self.bindings.push((bindings[i].clone(), slot));
                            assert(slots_of(self.bindings@) =~= before.push((names[i as int], slot)));
                            code.push(ByteCodeInstruction::Store { index: slot });
                        },
                        Err(e) => {
                            return Err(e);
                        },
                    }
                    i += 1;
                }
                match self.lower_ops(body) {
                    Ok(body_code) => {
                        let mut body_code = body_code;
                        code.append(&mut body_code);
                        let ghost before = slots_of(self.bindings@);
                        self.bindings.truncate(outer);
                        assert(slots_of(self.bindings@) =~= if outer <= before.len() {
                            before.subrange(0, outer as int)
                        } else {
                            before
                        });
                        if bindings.len() <= self.locals_count {
                            self.locals_count = self.locals_count - bindings.len();
                        } else {
                            self.locals_count = 0;
                        }
                        Ok(code)
                    },
                    Err(e) => Err(e),
                }
            },
            _ => Err(LowerError::Unsupported),
        }
    }

    /// Lowers an `if`: a jump over the body when the condition is zero and, with an
    /// `else`, a jump over the other body at the end of the first.
    fn lower_if(&mut self, op: &TypedOp) -> (r: Result<Vec<ByteCodeInstruction>, LowerError>)
        requires
            op.kind is If,
        ensures
            lowered_as(r, final(self)@, lower_one(old(self)@, op@)),
        decreases op, 0nat,
    {
        match &op.kind {
            TypedOpKind::If { body, else_body } => {
                let end: usize = match self.next_label() {
                    Ok(v) => v,
                    Err(e) => { return Err(e); },
                };
                let then_code = match self.lower_ops(body) {
                    Ok(code) => code,
                    Err(e) => { return Err(e); },
                };
                match else_body {
                    None => {
                        let mut code: Vec<ByteCodeInstruction> = vec![
                            ByteCodeInstruction::JumpIfFalse { label: end },
                        ];
                        let mut then_code = then_code;
                        code.append(&mut then_code);
                        code.push(ByteCodeInstruction::Label(end));
                        Ok(code)
                    },
                    Some(other) => {
                        let else_label: usize = match self.next_label() {
                            Ok(v) => v,
                            Err(e) => { return Err(e); },
                        };
                        let else_code = match self.lower_ops(other) {
                            Ok(code) => code,
                            Err(e) => { return Err(e); },
                        };
                        let mut code: Vec<ByteCodeInstruction> = vec![
                            ByteCodeInstruction::JumpIfFalse { label: else_label },
                        ];
                        let mut then_code = then_code;
                        code.append(&mut then_code);
                        code.push(ByteCodeInstruction::Jump { label: end });
                        code.push(ByteCodeInstruction::Label(else_label));
                        let mut else_code = else_code;
                        code.append(&mut else_code);
                        code.push(ByteCodeInstruction::Label(end));
                        Ok(code)
                    },
                }
            },
            _ => Err(LowerError::Unsupported),
        }
    }

    /// Lowers a program to its frames: those of the blocks and functions compiled so
    /// far, then that of the program itself under the name `main`.
    pub fn lower(&mut self, ops: &Vec<TypedOp>) -> (r: Result<Vec<(String, StackFrame)>, LowerError>)
        ensures
            match lower_program(old(self)@, typed_models(ops@)) {
                Ok((s, frames)) => r is Ok && program_of(r->Ok_0@) == frames && final(self)@ == s,
                Err(e) => r is Err && r->Err_0 == e,
            },
            old(self).well_formed() && r is Ok ==> final(self).well_formed() && forall|k: int|
                0 <= k < r->Ok_0@.len() ==> closed((#[trigger] r->Ok_0@[k]).1.instructions@),
    {
        let code = match self.lower_ops(ops) {
            Ok(code) => code,
            Err(e) => { return Err(e); },
        };
        let ghost lowered = self@;
        let mut frames: Vec<(String, StackFrame)> = Vec::new();
        let mut k: usize = 0;
        assert(program_of(frames@) =~= frames_of(lowered.emitted, lowered.max_locals, 0));
        while k < self.fns_to_emit.len()
            invariant
                k <= self.fns_to_emit.len(),
                self@ == lowered,
                program_of(frames@) == frames_of(lowered.emitted, lowered.max_locals, k as nat),
            decreases self.fns_to_emit.len() - k,
        {
            let ghost before = program_of(frames@);
            let frame = StackFrame {
                instructions: self.fns_to_emit[k].1.clone(),
                max_locals: self.max_locals,
            };
            let ghost shown = (self.fns_to_emit@[k as int].0@, frame@);
            frames.push((self.fns_to_emit[k].0.clone(), frame));
            assert(program_of(frames@) =~= before.push(shown));
            k += 1;
        }
        let ghost before = program_of(frames@);
        let main_frame = StackFrame { instructions: code, max_locals: self.max_locals };
        frames.push((String::from_str("main"), main_frame));
        assert(program_of(frames@) =~= before.push(("main"@, main_frame@)));
        self.locals_count = 0;
        self.bindings = Vec::new();
        assert(slots_of(self.bindings@) =~= Seq::<(Seq<char>, usize)>::empty());
        proof {
            if old(self).well_formed() {
                lemma_lower_program_closed(old(self)@, typed_models(ops@));
                let found = lower_program(old(self)@, typed_models(ops@))->Ok_0;
                assert(program_of(frames@) == found.1);
                assert forall|k: int| 0 <= k < frames@.len() implies closed(
                    (#[trigger] frames@[k]).1.instructions@,
                ) by {
                    assert(found.1[k].1.instructions == frames@[k].1.instructions@);
                }
            }
        }
        Ok(frames)
    }
}

impl Lowerer {
    /// A copy of this lowerer, to return to after a program that cannot be lowered.
    pub fn duplicate(&self) -> (r: Lowerer)
        ensures
            r@ == self@,
    {
        let mut bindings: Vec<(String, usize)> = Vec::new();
        let mut k: usize = 0;
        while k < self.bindings.len()
            invariant
                k <= self.bindings.len(),
                bindings@.len() == k,
                forall|j: int|
                    0 <= j < k ==> bindings@[j].0@ == self.bindings@[j].0@ && bindings@[j].1
                        == self.bindings@[j].1,
            decreases self.bindings.len() - k,
        {
            bindings.push((self.bindings[k].0.clone(), self.bindings[k].1));
            k += 1;
        }
        assert(slots_of(bindings@) =~= slots_of(self.bindings@));
        let mut fns_to_emit: Vec<(String, Vec<ByteCodeInstruction>)> = Vec::new();
        let mut k: usize = 0;
        while k < self.fns_to_emit.len()
            invariant
                k <= self.fns_to_emit.len(),
                fns_to_emit@.len() == k,
                forall|j: int|
                    0 <= j < k ==> fns_to_emit@[j].0@ == self.fns_to_emit@[j].0@
                        && fns_to_emit@[j].1@ == self.fns_to_emit@[j].1@,
            decreases self.fns_to_emit.len() - k,
        {
            fns_to_emit.push((self.fns_to_emit[k].0.clone(), self.fns_to_emit[k].1.clone()));
            k += 1;
        }
        assert(code_table_of(fns_to_emit@) =~= code_table_of(self.fns_to_emit@));
        let r = Lowerer {
            next_label: self.next_label,
            constant_pool: crate::typechecker::duplicate_names(&self.constant_pool),
            bindings,
            fns_to_emit,
            locals_count: self.locals_count,
            max_locals: self.max_locals,
        };
        assert(r@ =~~= self@);
        r
    }
}

} // verus!
