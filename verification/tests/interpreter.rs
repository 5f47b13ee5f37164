use do_lang::driver::interpret_source;
use do_lang::interpreter::{Interpreter, Value};
use do_lang::evaluation_model::EvalError;
use do_lang::lexer::{Lexer, Span};
use do_lang::parser::{Op, Parser};

fn ops_of(source: &str) -> Vec<Op> {
    let mut lexer = Lexer::new();
    let tokens = lexer.lex(source);
    assert!(lexer.diagnostics.is_empty());
    let mut parser = Parser::new();
    let ops = parser.parse(&tokens);
    assert!(parser.diagnostics.is_empty(), "{:?}", parser.diagnostics);
    ops
}

fn run(source: &str) -> (Interpreter, Result<(), EvalError>) {
    let mut interpreter = Interpreter::new();
    let result = interpreter.interpret(&ops_of(source), 64);
    (interpreter, result)
}

fn stack(source: &str) -> Vec<String> {
    let (interpreter, result) = run(source);
    assert_eq!(result, Ok(()), "{}", source);
    interpreter.stack.iter().map(|v| v.to_text()).collect()
}

fn printed(source: &str) -> Vec<String> {
    let (interpreter, result) = run(source);
    assert_eq!(result, Ok(()), "{}", source);
    interpreter.output
}

fn error(source: &str) -> EvalError {
    run(source).1.unwrap_err()
}

#[test]
fn new_interpreters_are_empty() {
    let interpreter = Interpreter::new();
    assert!(interpreter.stack.is_empty() && interpreter.functions.is_empty());
    assert!(interpreter.diagnostics.is_empty() && interpreter.output.is_empty());
    let mut sub = Interpreter::new_sub(vec![("two".to_string(), ops_of("2"))]);
    assert_eq!(sub.functions.len(), 1);
    assert_eq!(sub.interpret(&ops_of("two two +"), 4), Ok(()));
    assert_eq!(sub.stack[0].to_text(), "4");
}

#[test]
fn values_have_texts() {
    assert_eq!(Value::Bool(true).to_text(), "true");
    assert_eq!(Value::Int(-12).to_text(), "-12");
    assert_eq!(Value::Int(i64::MIN).to_text(), "-9223372036854775808");
    assert_eq!(Value::Int(i64::MAX).to_text(), "9223372036854775807");
    assert_eq!(Value::List(vec![]).to_text(), "[]");
    let list = Value::List(vec![Value::Int(1), Value::List(vec![Value::Bool(false)])]);
    assert_eq!(list.to_text(), "[1 [false]]");
    assert_eq!(list.duplicate().to_text(), "[1 [false]]");
    assert_eq!(Value::Block(ops_of("1 + dup")).to_text(), "(1 + dup)");
}

#[test]
fn operations_have_texts() {
    let source = "1 true [2 [3]] (4 ! .) fn f (dup *) if (5) else (6 7) if () [a b] (b a) x ??? map <= and";
    let texts: Vec<String> = ops_of(source).iter().map(|op| op.to_text()).collect();
    assert_eq!(
        texts,
        vec![
            "1", "true", "[2 [3]]", "(4 ! .)", "fn f (dup *)", "if (5) else (6 7)", "if ()",
            "[a b] (b a)", "x", "???", "map", "<=", "and",
        ]
    );
    let op = &ops_of("[1 (2)]")[0];
    let copy = op.duplicate();
    assert_eq!(copy.to_text(), "[1 (2)]");
    assert_eq!(copy.span, Span { offset: 0, length: 7 });
}

#[test]
fn literals_and_shuffles() {
    assert_eq!(stack("1 true [2 3] (4)"), vec!["1", "true", "[2 3]", "(4)"]);
    assert_eq!(stack("[[1] [] [true]]"), vec!["[[1] [] [true]]"]);
    assert_eq!(stack("1 2 swap"), vec!["2", "1"]);
    assert_eq!(stack("1 2 over"), vec!["1", "2", "1"]);
    assert_eq!(stack("1 2 3 rot"), vec!["2", "3", "1"]);
    assert_eq!(stack("1 dup"), vec!["1", "1"]);
    assert_eq!(stack("1 2 pop ."), vec!["1"]);
    assert_eq!(stack("1 ???"), vec!["1"]);
}

#[test]
fn evaluator_arithmetic() {
    assert_eq!(stack("7 2 + 7 2 - 7 2 * 7 2 / 7 2 %"), vec!["9", "5", "14", "3", "1"]);
    assert_eq!(stack("0 7 - 2 /"), vec!["-3"]);
    assert_eq!(stack("0 7 - 2 %"), vec!["-1"]);
    assert_eq!(stack("7 0 2 - /"), vec!["-3"]);
    assert_eq!(stack("7 0 2 - %"), vec!["1"]);
    assert_eq!(stack("0 7 - 0 2 - /"), vec!["3"]);
    assert_eq!(stack("9223372036854775807 1 +"), vec!["-9223372036854775808"]);
    assert_eq!(stack("0 9223372036854775807 - 2 -"), vec!["9223372036854775807"]);
    assert_eq!(stack("9223372036854775807 2 *"), vec!["-2"]);
    assert_eq!(stack("0 9223372036854775807 - 1 - 0 1 - /"), vec!["-9223372036854775808"]);
    assert_eq!(stack("0 9223372036854775807 - 1 - 0 1 - %"), vec!["0"]);
    assert_eq!(error("1 0 /"), EvalError::DivisionByZero);
    assert_eq!(error("1 0 %"), EvalError::DivisionByZero);
}

#[test]
fn comparisons_and_logic() {
    assert_eq!(stack("1 2 < 2 2 < 2 2 <= 3 2 > 2 3 >= 2 2 = 2 3 ="),
        vec!["true", "false", "true", "true", "false", "true", "false"]);
    assert_eq!(stack("0 1 - 1 <"), vec!["true"]);
    assert_eq!(stack("false true < true true = true false >"), vec!["true", "true", "true"]);
    assert_eq!(stack("true ! true false and true false or"), vec!["false", "false", "true"]);
    assert_eq!(error("1 true ="), EvalError::TypeMismatch);
    assert_eq!(error("[1] [1] ="), EvalError::TypeMismatch);
    assert_eq!(error("1 !"), EvalError::TypeMismatch);
    assert_eq!(error("1 true and"), EvalError::TypeMismatch);
    assert_eq!(error("true 1 +"), EvalError::TypeMismatch);
}

#[test]
fn evaluator_list_operations() {
    assert_eq!(stack("[1 2 3] len [] len"), vec!["3", "0"]);
    assert_eq!(stack("[1 2] [3] concat"), vec!["[1 2 3]"]);
    assert_eq!(stack("[1 2] 3 push"), vec!["[1 2 3]"]);
    assert_eq!(stack("[1 2 3] head"), vec!["1"]);
    assert_eq!(stack("[1 2 3] tail [4] tail [] tail"), vec!["[2 3]", "[]", "[]"]);
    assert_eq!(error("1 len"), EvalError::TypeMismatch);
    assert_eq!(error("1 [2] push"), EvalError::TypeMismatch);
}

#[test]
fn head_of_an_empty_list_is_reported() {
    let (interpreter, result) = run("1 [] head 2");
    assert_eq!(result, Ok(()));
    assert_eq!(interpreter.stack.len(), 2);
    assert_eq!(interpreter.diagnostics.len(), 1);
    assert_eq!(interpreter.diagnostics[0].message, "Cannot `head` an empty list");
    assert_eq!(interpreter.diagnostics[0].span, Span { offset: 5, length: 4 });
}

#[test]
fn evaluator_higher_order_operations() {
    assert_eq!(stack("[1 2 3] (1 +) map"), vec!["[2 3 4]"]);
    assert_eq!(stack("[1 2 3 4] (2 % 0 =) filter"), vec!["[2 4]"]);
    assert_eq!(stack("[1 2 3 4] 0 (+) fold"), vec!["10"]);
    assert_eq!(stack("[1 2 3] 10 (-) fold"), vec!["-8"]);
    assert_eq!(stack("9 [1 2] (.) foreach"), vec!["9", "1", "2"]);
    assert_eq!(stack("[] (1 +) map [] (!) filter [] 5 (+) fold"), vec!["[]", "[]", "5"]);
    assert_eq!(stack("7 (1 +) do"), vec!["8"]);
    assert_eq!(printed("[1 2 3] (print) foreach"), vec!["1", "2", "3"]);
    assert_eq!(printed("[1 2 3] (dup print) map pop"), vec!["3", "2", "1"]);
    assert_eq!(error("[1] (pop) map"), EvalError::StackUnderflow);
    assert_eq!(error("[1] (pop 2) filter"), EvalError::TypeMismatch);
    assert_eq!(error("[1] 2 map"), EvalError::TypeMismatch);
    assert_eq!(error("1 do"), EvalError::TypeMismatch);
}

#[test]
fn names_functions_and_branches() {
    assert_eq!(stack("fn sq (dup *) 5 sq"), vec!["25"]);
    assert_eq!(stack("fn f (1) fn f (2) f"), vec!["2"]);
    assert_eq!(stack("1 2 [a b] (b a a)"), vec!["2", "1", "1"]);
    assert_eq!(stack("1 [x] (2 [x] (x) x)"), vec!["2", "1"]);
    assert_eq!(stack("fn x (9) 1 [x] (x) x"), vec!["1", "9"]);
    assert_eq!(stack("5 true if (1 +) 5 false if (1 +)"), vec!["6", "5"]);
    assert_eq!(stack("true if (1) else (2) false if (1) else (2)"), vec!["1", "2"]);
    assert_eq!(error("nothing"), EvalError::UnknownName);
    assert_eq!(error("1 [x] () x"), EvalError::UnknownName);
    assert_eq!(error("1 if (2)"), EvalError::TypeMismatch);
    assert_eq!(error("[a b] ()"), EvalError::StackUnderflow);
}

#[test]
fn every_operation_needs_its_values() {
    for source in [
        "pop", "dup", ".", "print", "!", "len", "head", "tail", "do", "if ()", "1 +", "1 swap",
        "1 over", "1 2 rot", "true and", "1 <", "[1] push", "[1] concat", "(1) map", "(1) filter",
        "(1) foreach", "1 (1) fold",
    ] {
        assert_eq!(error(source), EvalError::StackUnderflow, "{}", source);
    }
}

#[test]
fn calls_are_not_nested_without_end() {
    let mut interpreter = Interpreter::new();
    assert_eq!(interpreter.interpret(&ops_of("fn f (f) f"), 50), Err(EvalError::DepthLimit));
    let mut interpreter = Interpreter::new();
    assert_eq!(interpreter.interpret(&ops_of("(1) do"), 0), Err(EvalError::DepthLimit));
    let mut interpreter = Interpreter::new();
    assert_eq!(interpreter.interpret(&ops_of("((1) do) do"), 1), Err(EvalError::DepthLimit));
    let mut interpreter = Interpreter::new();
    assert_eq!(interpreter.interpret(&ops_of("((1) do) do"), 2), Ok(()));
    assert_eq!(interpreter.interpret(&ops_of("1 2 + [3] len true if (4)"), 0), Ok(()));
}

#[test]
fn interpret_op_evaluates_one_operation() {
    let ops = ops_of("1 2 +");
    let mut interpreter = Interpreter::new();
    assert_eq!(interpreter.interpret_op(&ops[0], 0), Ok(()));
    assert_eq!(interpreter.interpret_op(&ops[2], 0), Err(EvalError::StackUnderflow));
    assert_eq!(interpreter.interpret_op(&ops[1], 0), Ok(()));
    assert_eq!(interpreter.interpret_op(&ops[2], 0), Ok(()));
    assert_eq!(interpreter.stack[0].to_text(), "3");
}

#[test]
fn both_ways_of_running_print_the_same() {
    for source in [
        "1 2 + print",
        "[1 2 3] len print",
        "[1 2 3] (1 +) map print",
        "[1 2 3 4] (2 % 0 =) filter print",
        "[1 2 3 4] 0 (+) fold print",
        "fn sq ( dup * ) 5 sq print",
        "true if ( 1 print ) else ( 2 print )",
        "false if ( 1 print ) else ( 2 print )",
        "[1 2 3] (print) foreach",
        "[1 2 3] (dup print) map print",
        "[3 4] (dup print 3 >) filter print",
        "[1 2 3] 10 (over print +) fold print",
        "7 2 / print 7 2 % print 2 3 < print true ! print",
        "1 2 [a b] ( a print b print ) 3 4 swap print print",
        "[1 2] dup print print",
        "1 2 3 rot print print print 1 2 over print print print",
    ] {
        let (walked, result) = run(source);
        assert_eq!(result, Ok(()), "{}", source);
        let compiled = interpret_source(source, 100_000);
        assert!(compiled.diagnostics.is_empty(), "{}", source);
        assert_eq!(compiled.failure, None, "{}", source);
        assert_eq!(walked.output, compiled.output, "{}", source);
        assert!(walked.stack.is_empty(), "{}", source);
    }
}
