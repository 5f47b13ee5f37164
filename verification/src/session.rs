//! An interactive session, in which values, functions and code stay from line to line.

use vstd::prelude::*;
use vstd::string::*;
use crate::bytecode_interpreter::BytecodeInterpreter;
use crate::checker_model::{CheckState, check_program, initial_state};
use crate::diagnostic::{Diagnostic, DiagnosticModel, diagnostics_of};
use crate::erasure::{erase_or_keep, settle_type};
use crate::lexer::Lexer;
use crate::lexer_model::lex_from;
use crate::lowering_model::{LowerError, LowerModel, initial_lowerer, lower_program};
use crate::lowerer::Lowerer;
use crate::parser::Parser;
use crate::parser_model::parse_from;
use crate::span::Span;
use crate::text::{decimal_text, push_decimal};
use crate::typechecker::TypeChecker;
use crate::typed_op::names_of;
use crate::types::{Ty, TypeKind};
use crate::machine_model::{
    Machine, VmError, bool_line, initial_machine, interpret_program, list_at,
};

verus! {

/// The text that the word `value` is shown as, as a value of type `t` in `heap`.
///
/// A truth value and an integer are shown as they are printed. A list is shown as its
/// elements between square brackets, separated by single spaces. A block is shown as
/// `fn`. A value of a type that is not known, and a list pointer that points to no
/// list, are shown as `<?>`.
pub open spec fn shown_value(heap: Seq<usize>, value: usize, t: Ty) -> Seq<char>
    decreases t, 0nat,
{
    match t {
        Ty::Bool => bool_line(value),
        Ty::Int => decimal_text(value as nat),
        Ty::List(e) => match list_at(heap, value) {
            Some(elements) => "["@ + shown_elements(heap, elements, *e, elements.len()) + "]"@,
            None => "<?>"@,
        },
        Ty::Block { .. } => "fn"@,
        Ty::Generic(_) => "<?>"@,
    }
}

/// The texts of the first `n` of `elements`, values of type `t`, separated by spaces.
pub open spec fn shown_elements(heap: Seq<usize>, elements: Seq<usize>, t: Ty, n: nat) -> Seq<char>
    decreases t, n + 1,
{
    if n == 0 || n > elements.len() {
        Seq::empty()
    } else if n == 1 {
        shown_value(heap, elements[0], t)
    } else {
        shown_elements(heap, elements, t, (n - 1) as nat) + " "@ + shown_value(
            heap,
            elements[n - 1],
            t,
        )
    }
}

/// The text that the first `n` values of an operand stack are shown as, each as a
/// value of the erased type of the entry of the type stack at the same depth and
/// followed by a space; values and types are paired bottom first, as far as both go.
pub open spec fn shown_stack(
    heap: Seq<usize>,
    table: Seq<Option<Ty>>,
    values: Seq<usize>,
    types: Seq<(Ty, Span)>,
    n: nat,
) -> Seq<char>
    decreases n,
{
    if n == 0 || n > values.len() || n > types.len() {
        Seq::empty()
    } else {
        shown_stack(heap, table, values, types, (n - 1) as nat) + shown_value(
            heap,
            values[n - 1],
            erase_or_keep(table, types[n - 1].0),
        ) + " "@
    }
}

/// The smaller of two lengths.
pub open spec fn shorter(a: nat, b: nat) -> nat {
    if a < b {
        a
    } else {
        b
    }
}

/// The mathematical form of a session.
#[verifier::ext_equal]
pub struct SessionModel {
    pub checker: CheckState,
    pub lowerer: LowerModel,
    pub machine: Machine,
}

/// The mathematical form of what a line of a session gave.
#[verifier::ext_equal]
pub struct LineModel {
    pub dump: Seq<Seq<char>>,
    pub diagnostics: Seq<DiagnosticModel>,
    pub lowering: Option<LowerError>,
    pub output: Seq<Seq<char>>,
    pub failure: Option<VmError>,
    pub stack: Seq<char>,
}

/// The state of a new session: a checker that allows values to stay on the stack, a
/// lowerer and a machine.
pub open spec fn initial_session() -> SessionModel {
    SessionModel {
        checker: initial_state(false),
        lowerer: initial_lowerer(),
        machine: initial_machine(),
    }
}

/// A report of nothing but diagnostics.
pub open spec fn refused(dump: Seq<Seq<char>>, diagnostics: Seq<DiagnosticModel>) -> LineModel {
    LineModel {
        dump,
        diagnostics,
        lowering: None,
        output: Seq::empty(),
        failure: None,
        stack: Seq::empty(),
    }
}

/// One line of a session, run for at most `fuel` steps: the session after it and what
/// the line gave.
///
/// An empty line does nothing. Any other line is lexed, parsed, checked, lowered and
/// executed on the session's machine, where the values that earlier lines left are
/// still on the stack. A line with an error in any stage before execution leaves the
/// session as it was. After execution the values on the stack are shown.
pub open spec fn feed_line(s: SessionModel, line: Seq<char>, fuel: nat) -> (SessionModel, LineModel) {
    if line.len() == 0 {
        (s, refused(Seq::empty(), Seq::empty()))
    } else {
        let lexed = lex_from(line, 0, Seq::empty(), Seq::empty());
        if lexed.diagnostics.len() > 0 {
            (s, refused(Seq::empty(), lexed.diagnostics))
        } else {
            let parsed = parse_from(lexed.tokens, 0, Seq::empty(), Seq::empty());
            if parsed.diagnostics.len() > 0 || parsed.items is None {
                (s, refused(Seq::empty(), parsed.diagnostics))
            } else {
                let (checked, typed) = check_program(s.checker, parsed.items->0);
                if checked.diagnostics.len() > 0 {
                    (s, refused(checked.dump, checked.diagnostics))
                } else {
                    match lower_program(s.lowerer, typed) {
                        Err(e) => (
                            s,
                            LineModel { lowering: Some(e), ..refused(checked.dump, Seq::empty()) },
                        ),
                        Ok((lowered, frames)) => {
                            let (machine, failure) = interpret_program(
                                Machine { output: Seq::empty(), ..s.machine },
                                frames,
                                lowered.pool,
                                fuel,
                            );
                            (
                                SessionModel {
                                    checker: CheckState { dump: Seq::empty(), ..checked },
                                    lowerer: lowered,
                                    machine: Machine { output: Seq::empty(), ..machine },
                                },
                                LineModel {
                                    dump: checked.dump,
                                    diagnostics: Seq::empty(),
                                    lowering: None,
                                    output: machine.output,
                                    failure,
                                    stack: shown_stack(
                                        machine.heap,
                                        checked.table,
                                        machine.stack,
                                        checked.stack,
                                        shorter(machine.stack.len(), checked.stack.len()),
                                    ),
                                },
                            )
                        },
                    }
                }
            }
        }
    }
}

/// Appends the text that `value` is shown as, as a value of type `t` in `heap`, to `out`.
pub fn write_value(heap: &Vec<usize>, value: usize, t: &TypeKind, out: &mut String)
    ensures
        final(out)@ == old(out)@ + shown_value(heap@, value, t@),
    decreases t, 0nat,
{
    match t {
        TypeKind::Bool => {
            if value > 0 {
                out.append("true");
            } else {
                out.append("false");
            }
        },
        TypeKind::Int => {
            push_decimal(out, value);
        },
        TypeKind::List(e) => {
            if value >= heap.len() {
                out.append("<?>");
                return ;
            }
            let length: usize = heap[value];
            if length > heap.len() - value - 1 {
                out.append("<?>");
                return ;
            }
            let ghost elements = heap@.subrange(value + 1, value + 1 + length);
            out.append("[");
            write_elements(heap, value, length, e, out);
            out.append("]");
            assert(out@ =~= old(out)@ + shown_value(heap@, value, t@));
        },
        TypeKind::Block { .. } => {
            out.append("fn");
        },
        TypeKind::Generic(_) => {
            out.append("<?>");
        },
    }
}

/// Appends the texts of the `length` elements of the list at `ptr`, values of type
/// `t`, separated by spaces, to `out`.
fn write_elements(heap: &Vec<usize>, ptr: usize, length: usize, t: &TypeKind, out: &mut String)
    requires
        ptr + 1 + length <= heap@.len(),
    ensures
        final(out)@ == old(out)@ + shown_elements(
            heap@,
            heap@.subrange(ptr + 1, ptr + 1 + length),
            t@,
            length as nat,
        ),
    decreases t, 1nat,
{
    let ghost elements = heap@.subrange(ptr + 1, ptr + 1 + length);
    let mut i: usize = 0;
    assert(out@ =~= old(out)@ + shown_elements(heap@, elements, t@, 0));
    while i < length
        invariant
            i <= length,
            ptr + 1 + length <= heap.len(),
            elements == heap@.subrange(ptr + 1, ptr + 1 + length),
            out@ == old(out)@ + shown_elements(heap@, elements, t@, i as nat),
        decreases length - i,
    {
        if i > 0 {
            out.append(" ");
        }
        write_value(heap, heap[ptr + 1 + i], t, out);
        i += 1;
        assert(out@ =~= old(out)@ + shown_elements(heap@, elements, t@, i as nat));
    }
}

/// What a line of a session gave.
pub struct LineReport {
    /// The lines that stack dumps wrote while the line was checked.
    pub dump: Vec<String>,
    /// The errors of the first stage that found any.
    pub diagnostics: Vec<Diagnostic>,
    /// Why the line could not be lowered, if it could not.
    pub lowering: Option<LowerError>,
    /// The lines that the line printed.
    pub output: Vec<String>,
    /// Why the machine stopped before the end of the line, if it did.
    pub failure: Option<VmError>,
    /// The values on the operand stack after the line, as text.
    pub stack: String,
}

impl View for LineReport {
    type V = LineModel;

    open spec fn view(&self) -> LineModel {
        LineModel {
            dump: names_of(self.dump@),
            diagnostics: diagnostics_of(self.diagnostics@),
            lowering: self.lowering,
            output: names_of(self.output@),
            failure: self.failure,
            stack: self.stack@,
        }
    }
}

/// An interactive session: a checker, a lowerer and a machine that live from line to
/// line, so that values, functions and code of earlier lines stay.
pub struct Session {
    pub checker: TypeChecker,
    pub lowerer: Lowerer,
    pub machine: BytecodeInterpreter,
}

impl View for Session {
    type V = SessionModel;

    open spec fn view(&self) -> SessionModel {
        SessionModel { checker: self.checker@, lowerer: self.lowerer@, machine: self.machine@ }
    }
}

/// A report of nothing but diagnostics.
fn refusal(dump: Vec<String>, diagnostics: Vec<Diagnostic>) -> (r: LineReport)
    ensures
        r@ == refused(names_of(dump@), diagnostics_of(diagnostics@)),
{
    let output: Vec<String> = Vec::new();
    let stack = String::new();
    assert(names_of(output@) =~= Seq::<Seq<char>>::empty());
    assert(stack@ =~= Seq::<char>::empty());
    LineReport { dump, diagnostics, lowering: None, output, failure: None, stack }
}

/// No diagnostics.
fn no_diagnostics() -> (r: Vec<Diagnostic>)
    ensures
        diagnostics_of(r@) == Seq::<DiagnosticModel>::empty(),
{
    let r: Vec<Diagnostic> = Vec::new();
    assert(diagnostics_of(r@) =~= Seq::<DiagnosticModel>::empty());
    r
}

/// No lines.
fn no_lines() -> (r: Vec<String>)
    ensures
        names_of(r@) == Seq::<Seq<char>>::empty(),
{
    let r: Vec<String> = Vec::new();
    assert(names_of(r@) =~= Seq::<Seq<char>>::empty());
    r
}

impl Session {
    /// Whether the checker and the lowerer of this session are well formed.
    pub open spec fn well_formed(&self) -> bool {
        self.checker.well_formed() && self.lowerer.well_formed()
    }

    /// A new session.
    pub fn new() -> (r: Session)
        ensures
            r@ == initial_session(),
            r.well_formed(),
    {
        Session {
            checker: TypeChecker::new(false),
            lowerer: Lowerer::new(),
            machine: BytecodeInterpreter::new(),
        }
    }

    /// The text that the values on the operand stack are shown as.
    pub fn show_stack(&self) -> (r: String)
        ensures
            r@ == shown_stack(
                self@.machine.heap,
                self@.checker.table,
                self@.machine.stack,
                self@.checker.stack,
                shorter(self@.machine.stack.len(), self@.checker.stack.len()),
            ),
    {
        let n: usize = if self.machine.stack.len() < self.checker.type_stack.len() {
            self.machine.stack.len()
        } else {
            self.checker.type_stack.len()
        };
        let mut out = String::new();
        let mut k: usize = 0;
        assert(out@ =~= shown_stack(
            self@.machine.heap,
            self@.checker.table,
            self@.machine.stack,
            self@.checker.stack,
            0,
        ));
        while k < n
            invariant
                k <= n,
                n <= self.machine.stack@.len(),
                n <= self.checker.type_stack@.len(),
                out@ == shown_stack(
                    self@.machine.heap,
                    self@.checker.table,
                    self@.machine.stack,
                    self@.checker.stack,
                    k as nat,
                ),
            decreases n - k,
        {
            let shown = settle_type(
                &self.checker.erasures,
                &self.checker.type_stack[k].0,
                self.checker.erasures.len(),
            );
            write_value(&self.machine.heap, self.machine.stack[k], &shown, &mut out);
            out.append(" ");
            k += 1;
            assert(out@ =~= shown_stack(
                self@.machine.heap,
                self@.checker.table,
                self@.machine.stack,
                self@.checker.stack,
                k as nat,
            ));
        }
        out
    }

    /// Runs one line for at most `max_steps` steps.
    pub fn feed(&mut self, line: &str, max_steps: usize) -> (r: LineReport)
        ensures
            (final(self)@, r@) == feed_line(old(self)@, line@, max_steps as nat),
            old(self).well_formed() ==> final(self).well_formed(),
    {
        if line.is_empty() {
            return refusal(no_lines(), no_diagnostics());
        }
        let mut lexer = Lexer::new();
        let tokens = lexer.lex(line);
        if lexer.diagnostics.len() > 0 {
            return refusal(no_lines(), lexer.diagnostics);
        }
        let mut parser = Parser::new();
        let ops = parser.parse(&tokens);
        if parser.diagnostics.len() > 0 {
            return refusal(no_lines(), parser.diagnostics);
        }
        let mut checker = self.checker.duplicate();
        let typed = checker.type_check(&ops);
        if checker.diagnostics.len() > 0 {
            return refusal(checker.dump, checker.diagnostics);
        }
        let mut lowerer = self.lowerer.duplicate();
        let frames = match lowerer.lower(&typed) {
            Ok(frames) => frames,
            Err(e) => {
                let mut r = refusal(checker.dump, no_diagnostics());
                r.lowering = Some(e);
                return r;
            },
        };
        let mut earlier: Vec<String> = Vec::new();
        std::mem::swap(&mut self.machine.output, &mut earlier);
        assert(names_of(self.machine.output@) =~= Seq::<Seq<char>>::empty());
        let failure = match self.machine.interpret(&frames, &lowerer.constant_pool, max_steps) {
            Ok(()) => None,
            Err(e) => Some(e),
        };
        let mut output: Vec<String> = Vec::new();
        std::mem::swap(&mut self.machine.output, &mut output);
        assert(names_of(self.machine.output@) =~= Seq::<Seq<char>>::empty());
        let mut dump: Vec<String> = Vec::new();
        let ghost checked = checker@;
        std::mem::swap(&mut checker.dump, &mut dump);
        assert(names_of(checker.dump@) =~= Seq::<Seq<char>>::empty());
        assert(checker@ == (CheckState { dump: Seq::empty(), ..checked }));
        assert(crate::scope_laws::state_scoped(checked) ==> crate::scope_laws::state_scoped(
            checker@,
        ));
        self.checker = checker;
        self.lowerer = lowerer;
        let stack = self.show_stack();
        LineReport { dump, diagnostics: no_diagnostics(), lowering: None, output, failure, stack }
    }
}

} // verus!
