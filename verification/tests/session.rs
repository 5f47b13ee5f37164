use do_lang::driver::interpret_source;
use do_lang::lowering_model::LowerError;
use do_lang::session::{write_value, Session};
use do_lang::typechecker::TypeKind;
use do_lang::machine_model::VmError;

fn fed(session: &mut Session, line: &str) -> (Vec<String>, String) {
    let report = session.feed(line, 100_000);
    let messages: Vec<String> = report.diagnostics.iter().map(|d| d.message.clone()).collect();
    assert_eq!(messages, Vec::<String>::new(), "{}", line);
    assert_eq!(report.lowering, None);
    assert_eq!(report.failure, None);
    (report.output, report.stack)
}

#[test]
fn values_stay_visible() {
    let mut session = Session::new();
    assert_eq!(fed(&mut session, "1 2 +"), (vec![], "3 ".to_string()));
    assert_eq!(fed(&mut session, "4"), (vec![], "3 4 ".to_string()));
    assert_eq!(fed(&mut session, "+ print"), (vec!["7".to_string()], String::new()));
}

#[test]
fn values_are_shown_by_their_type() {
    let mut session = Session::new();
    let (_, stack) = fed(&mut session, "1 true false [1 2] [[true] []] (1 +) []");
    assert_eq!(stack, "1 true false [1 2] [[true] []] fn [] ");
}

#[test]
fn an_empty_line_does_nothing() {
    let mut session = Session::new();
    fed(&mut session, "5");
    let rom = session.machine.rom.len();
    assert_eq!(fed(&mut session, ""), (vec![], String::new()));
    assert_eq!(session.machine.rom.len(), rom);
    assert_eq!(session.machine.stack, vec![5]);
}

#[test]
fn functions_stay_defined() {
    let mut session = Session::new();
    fed(&mut session, "fn sq ( dup * )");
    assert_eq!(fed(&mut session, "3 sq print").0, vec!["9"]);
    assert_eq!(fed(&mut session, "4 sq sq print").0, vec!["256"]);
    assert_eq!(fed(&mut session, "[1 2 3] (dup *) map print").0, vec!["[1 4 9]"]);
}

#[test]
fn a_line_with_a_type_error_changes_nothing() {
    let mut session = Session::new();
    fed(&mut session, "1");
    let report = session.feed("true + fn f ( 2 )", 1000);
    assert_eq!(report.diagnostics.len(), 1);
    assert_eq!(report.diagnostics[0].message, "Expected int but got bool");
    assert!(report.output.is_empty());
    assert_eq!(report.stack, "");
    assert_eq!(session.machine.stack, vec![1]);
    assert_eq!(session.checker.type_stack.len(), 1);
    assert!(session.checker.diagnostics.is_empty());
    assert!(session.checker.functions.is_empty());
    assert_eq!(fed(&mut session, "2 + print").0, vec!["3"]);
}

#[test]
fn lex_and_parse_errors_are_reported() {
    let mut session = Session::new();
    let report = session.feed("1 # 2", 1000);
    assert_eq!(report.diagnostics[0].message, "Unexpected character `#`");
    let report = session.feed("( 1", 1000);
    assert_eq!(report.diagnostics[0].message, "Block missing closing ')'");
    assert!(session.machine.rom.is_empty());
}

#[test]
fn a_line_that_cannot_be_lowered_changes_nothing() {
    let mut session = Session::new();
    let report = session.feed("1 true true and", 1000);
    assert!(report.diagnostics.is_empty());
    assert_eq!(report.lowering, Some(LowerError::Unsupported));
    assert!(session.checker.type_stack.is_empty());
    assert!(session.machine.stack.is_empty());
    assert_eq!(session.lowerer.next_label, 0);
}

#[test]
fn machine_failures_are_reported() {
    let mut session = Session::new();
    let report = session.feed("1 print 1 0 / print", 1000);
    assert_eq!(report.output, vec!["1"]);
    assert_eq!(report.failure, Some(VmError::DivisionByZero));
    let mut session = Session::new();
    let report = session.feed("[1 2 3] (print) foreach", 20);
    assert_eq!(report.failure, Some(VmError::StepLimit));
}

#[test]
fn stack_dumps_are_reported() {
    let mut session = Session::new();
    let report = session.feed("1 ???", 1000);
    assert_eq!(report.dump, vec!["int defined at Span { offset: 0, length: 1 }"]);
    assert_eq!(report.lowering, Some(LowerError::Unsupported));
}

#[test]
fn write_value_shows_what_it_cannot_read() {
    let heap = vec![2, 7, 8];
    let list = TypeKind::List(Box::new(TypeKind::Int));
    let mut out = String::from("> ");
    write_value(&heap, 0, &list, &mut out);
    assert_eq!(out, "> [7 8]");
    let mut out = String::new();
    write_value(&heap, 1, &list, &mut out);
    assert_eq!(out, "<?>");
    let mut out = String::new();
    write_value(&heap, 3, &list, &mut out);
    assert_eq!(out, "<?>");
    let mut out = String::new();
    write_value(&heap, 3, &TypeKind::Generic(0), &mut out);
    assert_eq!(out, "<?>");
}

#[test]
fn a_whole_program_reports_each_stage() {
    let report = interpret_source("1 # 2", 100);
    assert_eq!(report.diagnostics.len(), 1);
    let report = interpret_source("1 )", 100);
    assert_eq!(report.diagnostics[0].message, "unexpected token ')'");
    let report = interpret_source("1 ??? pop", 100);
    assert_eq!(report.dump.len(), 1);
    assert_eq!(report.lowering, Some(LowerError::Unsupported));
    let report = interpret_source("1 print 2 0 % print", 100);
    assert_eq!(report.output, vec!["1"]);
    assert_eq!(report.failure, Some(VmError::DivisionByZero));
    let report = interpret_source("[1 2 3] (print) foreach", 25);
    assert_eq!(report.failure, Some(VmError::StepLimit));
    let report = interpret_source("", 0);
    assert!(report.diagnostics.is_empty() && report.output.is_empty());
    assert_eq!(report.failure, None);
}

#[test]
fn the_stack_holds_what_the_types_say() {
    for line in [
        "1 2 +",
        "1 true [2 3] (4)",
        "[1 2 3] (1 +) map [4] len",
        "1 2 3 rot swap over dup",
        "[1 2 3 4] (2 % 0 =) filter 7 true if (1 +)",
        "fn two (1 2) two two",
        "5 6 [a b] (b a a)",
        "1 print [2] print",
    ] {
        let mut session = Session::new();
        let report = session.feed(line, 100_000);
        assert!(report.diagnostics.is_empty(), "{}", line);
        assert_eq!(report.failure, None, "{}", line);
        assert_eq!(session.machine.stack.len(), session.checker.type_stack.len(), "{}", line);
    }
}

#[test]
fn dup_then_pop_keeps_the_stack() {
    let mut session = Session::new();
    fed(&mut session, "7 true");
    fed(&mut session, "dup pop");
    assert_eq!(session.machine.stack, vec![7, 1]);
    assert!(session.machine.heap.is_empty());
    fed(&mut session, "[1 2]");
    let stack = session.machine.stack.clone();
    fed(&mut session, "dup pop");
    assert_eq!(session.machine.stack, stack);
    assert_eq!(session.machine.heap, vec![2, 1, 2, 2, 1, 2]);
    assert_eq!(fed(&mut session, "print").0, vec!["[1 2]"]);
}
