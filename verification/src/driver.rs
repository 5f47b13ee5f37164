//! The whole way of a program from its text to what it prints.

use vstd::prelude::*;
use vstd::string::*;
use crate::bytecode_interpreter::BytecodeInterpreter;
use crate::checker_model::{check_program, initial_state};
use crate::diagnostic::{Diagnostic, DiagnosticModel, diagnostics_of};
use crate::lexer::Lexer;
use crate::lexer_model::lex_from;
use crate::lowering_model::{LowerError, initial_lowerer, lower_program};
use crate::lowerer::Lowerer;
use crate::parser::Parser;
use crate::parser_model::parse_from;
use crate::typechecker::TypeChecker;
use crate::typed_op::names_of;
use crate::machine_model::{VmError, initial_machine, interpret_program};

verus! {

/// The mathematical form of what running a program gave.
#[verifier::ext_equal]
pub struct RunModel {
    pub dump: Seq<Seq<char>>,
    pub diagnostics: Seq<DiagnosticModel>,
    pub lowering: Option<LowerError>,
    pub output: Seq<Seq<char>>,
    pub failure: Option<VmError>,
}

/// What running a program gave.
pub struct RunReport {
    /// The lines that stack dumps wrote while the program was checked.
    pub dump: Vec<String>,
    /// The errors of the first stage that found any. Where there are some, nothing
    /// was lowered or executed.
    pub diagnostics: Vec<Diagnostic>,
    /// Why the program could not be lowered, if it could not.
    pub lowering: Option<LowerError>,
    /// The lines that the program printed.
    pub output: Vec<String>,
    /// Why the machine stopped before the end of the program, if it did.
    pub failure: Option<VmError>,
}

impl View for RunReport {
    type V = RunModel;

    open spec fn view(&self) -> RunModel {
        RunModel {
            dump: names_of(self.dump@),
            diagnostics: diagnostics_of(self.diagnostics@),
            lowering: self.lowering,
            output: names_of(self.output@),
            failure: self.failure,
        }
    }
}

/// A report of diagnostics alone.
pub open spec fn rejected(dump: Seq<Seq<char>>, diagnostics: Seq<DiagnosticModel>) -> RunModel {
    RunModel { dump, diagnostics, lowering: None, output: Seq::empty(), failure: None }
}

/// Running the program `source` on a new machine for at most `fuel` steps.
///
/// The text is lexed, parsed, checked with values left on the stack counted as errors,
/// lowered, and executed. The first stage that reports a diagnostic ends the run:
/// nothing is executed then.
pub open spec fn run_of(source: Seq<char>, fuel: nat) -> RunModel {
    let lexed = lex_from(source, 0, Seq::empty(), Seq::empty());
    if lexed.diagnostics.len() > 0 {
        rejected(Seq::empty(), lexed.diagnostics)
    } else {
        let parsed = parse_from(lexed.tokens, 0, Seq::empty(), Seq::empty());
        if parsed.diagnostics.len() > 0 || parsed.items is None {
            rejected(Seq::empty(), parsed.diagnostics)
        } else {
            let (checked, typed) = check_program(initial_state(true), parsed.items->0);
            if checked.diagnostics.len() > 0 {
                rejected(checked.dump, checked.diagnostics)
            } else {
                match lower_program(initial_lowerer(), typed) {
                    Err(e) => RunModel {
                        dump: checked.dump,
                        diagnostics: Seq::empty(),
                        lowering: Some(e),
                        output: Seq::empty(),
                        failure: None,
                    },
                    Ok((lowered, frames)) => {
                        let (machine, failure) = interpret_program(
                            initial_machine(),
                            frames,
                            lowered.pool,
                            fuel,
                        );
                        RunModel {
                            dump: checked.dump,
                            diagnostics: Seq::empty(),
                            lowering: None,
                            output: machine.output,
                            failure,
                        }
                    },
                }
            }
        }
    }
}

/// Runs the program `input` on a new machine for at most `max_steps` steps.
pub fn interpret_source(input: &str, max_steps: usize) -> (r: RunReport)
    ensures
        r@ == run_of(input@, max_steps as nat),
{
    let mut lexer = Lexer::new();
    let tokens = lexer.lex(input);
    if lexer.diagnostics.len() > 0 {
        let r = RunReport {
            dump: Vec::new(),
            diagnostics: lexer.diagnostics,
            lowering: None,
            output: Vec::new(),
            failure: None,
        };
        assert(r@ =~= run_of(input@, max_steps as nat));
        return r;
    }
    let mut parser = Parser::new();
    let ops = parser.parse(&tokens);
    if parser.diagnostics.len() > 0 {
        let r = RunReport {
            dump: Vec::new(),
            diagnostics: parser.diagnostics,
            lowering: None,
            output: Vec::new(),
            failure: None,
        };
        assert(r@ =~= run_of(input@, max_steps as nat));
        return r;
    }
    let mut checker = TypeChecker::new(true);
    let typed = checker.type_check(&ops);
    if checker.diagnostics.len() > 0 {
        let r = RunReport {
            dump: checker.dump,
            diagnostics: checker.diagnostics,
            lowering: None,
            output: Vec::new(),
            failure: None,
        };
        assert(r@ =~= run_of(input@, max_steps as nat));
        return r;
    }
    let mut lowerer = Lowerer::new();
    let frames = match lowerer.lower(&typed) {
        Ok(frames) => frames,
        Err(e) => {
            let r = RunReport {
                dump: checker.dump,
                diagnostics: Vec::new(),
                lowering: Some(e),
                output: Vec::new(),
                failure: None,
            };
            assert(r@ =~= run_of(input@, max_steps as nat));
            return r;
        },
    };
    let mut machine = BytecodeInterpreter::new();
    let failure = match machine.interpret(&frames, &lowerer.constant_pool, max_steps) {
        Ok(()) => None,
        Err(e) => Some(e),
    };
    let r = RunReport {
        dump: checker.dump,
        diagnostics: Vec::new(),
        lowering: None,
        output: machine.output,
        failure,
    };
    assert(r@ =~= run_of(input@, max_steps as nat));
    r
}

} // verus!
