use do_lang::lexer::{Lexer, Span};
use do_lang::parser::{Op, Parser};
use do_lang::typechecker::{TypeChecker, TypeKind, TypedOp, TypedOpKind};

fn ops_of(source: &str) -> Vec<Op> {
    let mut lexer = Lexer::new();
    let tokens = lexer.lex(source);
    assert!(lexer.diagnostics.is_empty());
    let mut parser = Parser::new();
    let ops = parser.parse(&tokens);
    assert!(parser.diagnostics.is_empty(), "{:?}", parser.diagnostics);
    ops
}

fn check(source: &str, strict: bool) -> (TypeChecker, Vec<TypedOp>) {
    let mut checker = TypeChecker::new(strict);
    let typed = checker.type_check(&ops_of(source));
    (checker, typed)
}

fn messages(checker: &TypeChecker) -> Vec<String> {
    checker.diagnostics.iter().map(|d| d.message.clone()).collect()
}

fn errors(source: &str) -> Vec<String> {
    messages(&check(source, true).0)
}

fn stack(checker: &TypeChecker) -> Vec<String> {
    checker
        .type_stack
        .iter()
        .map(|(t, _)| checker.erase(t).map(|e| e.to_text()).unwrap_or(t.to_text()))
        .collect()
}

fn effect(op: &TypedOp) -> String {
    let side = |ts: &Vec<TypeKind>| ts.iter().map(|t| t.to_text()).collect::<Vec<_>>().join(" ");
    format!("[{} -- {}]", side(&op.ins), side(&op.outs))
}

fn effects(source: &str) -> Vec<String> {
    let (checker, typed) = check(source, false);
    assert_eq!(messages(&checker), Vec::<String>::new(), "{}", source);
    typed.iter().map(effect).collect()
}

#[test]
fn new_checker_is_empty() {
    let checker = TypeChecker::new(true);
    assert!(checker.fail_on_non_empty_stack);
    assert!(checker.type_stack.is_empty());
    assert!(checker.diagnostics.is_empty());
    assert!(checker.erasures.is_empty());
    assert!(!checker.in_block);
}

#[test]
fn type_texts() {
    assert_eq!(TypeKind::Bool.to_text(), "bool");
    assert_eq!(TypeKind::Int.to_text(), "int");
    assert_eq!(TypeKind::List(Box::new(TypeKind::Int)).to_text(), "[int]");
    assert_eq!(TypeKind::Generic(12).to_text(), "<12>");
    assert_eq!(TypeKind::Generic(0).to_text(), "<0>");
    let block = TypeKind::Block {
        ins: vec![TypeKind::Int, TypeKind::List(Box::new(TypeKind::Bool))],
        outs: vec![TypeKind::Generic(3)],
    };
    assert_eq!(block.to_text(), "fn [int [bool] -- <3>]");
    assert_eq!(TypeKind::Block { ins: vec![], outs: vec![] }.to_text(), "fn [ -- ]");
}

#[test]
fn types_compare_by_shape() {
    let list = || TypeKind::List(Box::new(TypeKind::Generic(1)));
    assert!(list().same(&list()));
    assert!(!list().same(&TypeKind::List(Box::new(TypeKind::Generic(2)))));
    assert!(!TypeKind::Int.same(&TypeKind::Bool));
    let block = |n: usize| TypeKind::Block { ins: (0..n).map(|_| TypeKind::Int).collect(), outs: vec![] };
    assert!(block(2).same(&block(2)));
    assert!(!block(2).same(&block(3)));
    assert!(block(1).duplicate().same(&block(1)));
}

#[test]
fn literal_effects() {
    assert_eq!(effects("1 true"), vec!["[ -- int]", "[ -- bool]"]);
    assert_eq!(effects("[1 2]"), vec!["[ -- [int]]"]);
    assert_eq!(effects("[[true]]"), vec!["[ -- [[bool]]]"]);
    assert_eq!(effects("(1 +)"), vec!["[ -- fn [int -- int]]"]);
    assert_eq!(effects("(+)"), vec!["[ -- fn [int int -- int]]"]);
    assert_eq!(effects("(1 true)"), vec!["[ -- fn [ -- int bool]]"]);
}

#[test]
fn arithmetic_and_comparison_effects() {
    for op in ["+", "-", "*", "/", "%"] {
        assert_eq!(effects(&format!("1 2 {}", op))[2], "[int int -- int]");
    }
    for op in ["<", "<=", ">", ">="] {
        assert_eq!(effects(&format!("1 2 {}", op))[2], "[int int -- bool]");
    }
    assert_eq!(effects("1 2 =")[2], "[int int -- bool]");
    assert_eq!(effects("true false =")[2], "[bool bool -- bool]");
    assert_eq!(effects("true !")[1], "[bool -- bool]");
    assert_eq!(effects("true false and")[2], "[bool bool -- bool]");
    assert_eq!(effects("true false or")[2], "[bool bool -- bool]");
}

#[test]
fn shuffle_effects() {
    assert_eq!(effects("1 dup")[1], "[int -- int int]");
    assert_eq!(effects("1 true swap")[2], "[int bool -- bool int]");
    assert_eq!(effects("1 true over")[2], "[int bool -- int bool int]");
    assert_eq!(effects("1 true [2] rot")[3], "[int bool [int] -- bool [int] int]");
    assert_eq!(effects("1 pop")[1], "[int -- ]");
    assert_eq!(effects("1 .")[1], "[int -- int]");
    assert_eq!(effects("[1] print")[1], "[[int] -- ]");
}

#[test]
fn list_effects() {
    assert_eq!(effects("[1] len")[1], "[[int] -- int]");
    assert_eq!(effects("[1] [2] concat")[2], "[[int] [int] -- [int]]");
    assert_eq!(effects("[1] 2 push")[2], "[[int] int -- [int]]");
    assert_eq!(effects("[true] head")[1], "[[bool] -- bool]");
    assert_eq!(effects("[true] tail")[1], "[[bool] -- [bool]]");
}

#[test]
fn higher_order_effects() {
    assert_eq!(effects("[1] (1 +) map")[2], "[[int] fn [int -- int] -- [int]]");
    assert_eq!(effects("[1] (0 =) map")[2], "[[int] fn [int -- bool] -- [bool]]");
    assert_eq!(effects("[1] (0 =) filter")[2], "[[int] fn [int -- bool] -- [int]]");
    assert_eq!(effects("[1] 0 (+) fold")[3], "[[int] int fn [int int -- int] -- int]");
    assert_eq!(effects("[1] (print) foreach")[2], "[[int] fn [int -- ] -- ]");
    assert_eq!(effects("(1 print) do")[1], "[fn [ -- ] -- ]");
}

#[test]
fn stack_after_the_operations_is_what_the_effects_add_up_to() {
    let (checker, _) = check("1 2 + true [3] dup", false);
    assert_eq!(stack(&checker), vec!["int", "bool", "[int]", "[int]"]);
    let (checker, _) = check("1 true swap", false);
    assert_eq!(stack(&checker), vec!["bool", "int"]);
    let (checker, _) = check("1 true [2] rot", false);
    assert_eq!(stack(&checker), vec!["bool", "[int]", "int"]);
    let (checker, _) = check("1 2 + print", true);
    assert!(checker.type_stack.is_empty());
    assert!(checker.diagnostics.is_empty());
}

#[test]
fn mismatch_names_both_types() {
    assert_eq!(
        errors("1 true +"),
        vec![
            "Expected int but got bool",
            "Type stack must be empty at the end of the program, but got int",
        ]
    );
    assert_eq!(errors("[1] 2 + pop"), vec!["Expected int but got [int]"]);
    assert_eq!(errors("1 2 concat pop"), vec!["Expected [<0>] but got int", "Expected [<0>] but got int"]);
    assert_eq!(errors("(1) 2 + pop"), vec!["Expected int but got fn [ -- int]"]);
}

#[test]
fn mismatch_in_both_directions() {
    assert_eq!(errors("1 [2] = pop"), vec!["Expected [int] but got int"]);
    assert_eq!(errors("[2] 1 = pop"), vec!["Expected int but got [int]"]);
    assert_eq!(errors("[1] true push pop"), vec!["Expected [bool] but got [int]"]);
    assert_eq!(errors("[1] [true] concat pop"), vec!["Expected [bool] but got [int]"]);
}

#[test]
fn empty_stack_is_reported() {
    assert_eq!(errors("print"), vec!["Expected <0> but stack was empty"]);
    assert_eq!(
        errors("1 + pop"),
        vec!["Expected int but stack was empty"]
    );
    assert_eq!(errors("[x] ( )"), vec!["expected value but stack was empty"]);
}

#[test]
fn unknown_names_are_reported() {
    assert_eq!(errors("nothing"), vec!["no such identifier `nothing` in scope"]);
    assert_eq!(errors("1 [x] ( y )"), vec!["no such identifier `y` in scope"]);
}

#[test]
fn block_arity_is_checked() {
    assert_eq!(
        errors("[1] (+) map pop"),
        vec!["Expected fn [<0> -- <1>] but got fn [int int -- int]"]
    );
    assert_eq!(errors("(1) do"), vec!["Expected fn [ -- ] but got fn [ -- int]"]);
}

#[test]
fn list_elements_must_agree() {
    assert_eq!(errors("[1 true] pop"), vec!["Expected bool but got int"]);
    assert_eq!(errors("[1 2 3 true 4] pop").len(), 1);
}

#[test]
fn list_elements_must_push_one_value() {
    let (checker, typed) = check("1 [x] ( [x (1) dup2] pop )", true);
    assert_eq!(
        messages(&checker),
        vec![
            "Expected fn [ -- int] but got int",
            "no such identifier `dup2` in scope",
            "List elements must have the signature [ -- <a>], got [ -- ]",
        ]
    );
    assert_eq!(typed.len(), 2);
}

#[test]
fn if_needs_a_bool() {
    assert_eq!(errors("1 if ( )"), vec!["Expected bool but got int"]);
    assert_eq!(errors("if ( )"), vec!["Expected bool but stack was empty"]);
    assert_eq!(errors("true if ( )"), Vec::<String>::new());
}

#[test]
fn if_branches_must_be_symmetrical() {
    assert_eq!(
        errors("true if ( 1 )"),
        vec![
            "expected symmetrical function, but got [ -- int]",
            "Type stack must be empty at the end of the program, but got int",
        ]
    );
    assert_eq!(
        errors("1 true if ( pop true ) pop"),
        vec!["expected symmetrical function, but got [<0> -- bool]"]
    );
    assert_eq!(errors("1 true if ( 1 + ) pop"), Vec::<String>::new());
    assert_eq!(
        errors("1 true true if ( swap ) pop pop"),
        vec![
            "expected symmetrical function, but got [<0> <1> -- <1> <0>]",
            "expected symmetrical function, but got [<0> <1> -- <1> <0>]",
        ]
    );
    assert_eq!(errors("1 true true if ( ! swap 1 + swap ! ) pop pop"), Vec::<String>::new());
}

#[test]
fn if_branches_must_agree() {
    assert_eq!(errors("1 true if ( 1 + ) else ( 2 * ) pop"), Vec::<String>::new());
    assert_eq!(
        errors("1 true if ( 1 + ) else ( ) pop"),
        vec!["Expected fn [ -- ] but got fn [int -- int]"]
    );
    assert_eq!(
        errors("1 true if ( 1 + ) else ( ! ) pop"),
        vec!["Expected fn [bool -- bool] but got fn [int -- int]", "Expected fn [bool -- bool] but got fn [int -- int]"]
    );
}

#[test]
fn residual_stack_is_an_error_only_when_strict() {
    let (checker, _) = check("1 2 +", true);
    assert_eq!(messages(&checker), vec!["Type stack must be empty at the end of the program, but got int"]);
    assert_eq!(checker.diagnostics[0].span, Span { offset: 4, length: 1 });
    let (checker, _) = check("1 2 +", false);
    assert!(checker.diagnostics.is_empty());
    assert_eq!(stack(&checker), vec!["int"]);
    let (checker, _) = check("1 true", true);
    assert_eq!(
        messages(&checker),
        vec![
            "Type stack must be empty at the end of the program, but got int",
            "Type stack must be empty at the end of the program, but got bool",
        ]
    );
}

#[test]
fn functions_have_the_effect_of_their_body() {
    assert_eq!(effects("fn inc ( 1 + ) 2 inc"), vec!["[ -- ]", "[ -- int]", "[int -- int]"]);
    assert_eq!(effects("fn two ( 1 2 ) two")[1], "[ -- int int]");
    let (checker, typed) = check("fn sq ( dup * ) 5 sq", false);
    assert!(checker.diagnostics.is_empty());
    assert_eq!(stack(&checker), vec!["int"]);
    match &typed[0].kind {
        TypedOpKind::DefineFunction { name, block } => {
            assert_eq!(name, "sq");
            assert_eq!(effect(block), "[int -- int]");
        }
        other => panic!("{:?}", other),
    }
    assert!(matches!(&typed[2].kind, TypedOpKind::Call(name) if name == "sq"));
}

#[test]
fn later_definitions_replace_earlier_ones() {
    assert_eq!(effects("fn f ( 1 ) fn f ( true ) f")[2], "[ -- bool]");
}

#[test]
fn bindings_name_values() {
    let (checker, typed) = check("1 true [a b] ( b a )", false);
    assert!(checker.diagnostics.is_empty());
    assert_eq!(stack(&checker), vec!["bool", "int"]);
    assert!(checker.bindings.is_empty());
    match &typed[2].kind {
        TypedOpKind::Binding { bindings, body } => {
            assert_eq!(bindings, &vec!["b".to_string(), "a".to_string()]);
            assert_eq!(effect(&body[0]), "[ -- bool]");
            assert!(matches!(&body[0].kind, TypedOpKind::Value(name) if name == "b"));
        }
        other => panic!("{:?}", other),
    }
}

#[test]
fn inner_bindings_hide_outer_ones_and_end_with_their_body() {
    let (checker, _) = check("1 [x] ( true [x] ( x ) x )", false);
    assert!(checker.diagnostics.is_empty());
    assert_eq!(stack(&checker), vec!["bool", "int"]);
    assert_eq!(errors("1 [x] ( ) x"), vec!["no such identifier `x` in scope"]);
}

#[test]
fn bindings_come_before_functions() {
    assert_eq!(effects("fn x ( true ) 1 [x] ( x )"), vec!["[ -- ]", "[ -- int]", "[ -- ]"]);
}

#[test]
fn bindings_in_blocks_take_block_inputs() {
    assert_eq!(effects("fn sq ( [x] ( x x * ) ) 3 sq")[2], "[int -- int]");
    assert_eq!(effects("( [a b] ( b a ) )")[0], "[ -- fn [<1> <0> -- <0> <1>]]");
}

#[test]
fn blocks_leave_the_stack_alone() {
    let (checker, _) = check("[1] ( 1 + )", false);
    assert!(checker.diagnostics.is_empty());
    assert_eq!(stack(&checker), vec!["[int]", "fn [int -- int]"]);
}

#[test]
fn polymorphic_blocks_keep_their_variables() {
    assert_eq!(effects("( dup )"), vec!["[ -- fn [<0> -- <0> <0>]]"]);
    assert_eq!(effects("( . )"), vec!["[ -- fn [<0> -- <0>]]"]);
}

#[test]
fn emitted_effects_are_erased() {
    let (_, typed) = check("1 dup pop pop", true);
    assert_eq!(typed.iter().map(effect).collect::<Vec<_>>(), vec!["[ -- int]", "[int -- int int]", "[int -- ]", "[int -- ]"]);
    let (_, typed) = check("[] pop", true);
    assert_eq!(effect(&typed[0]), "[ -- [<0>]]");
}

#[test]
fn ops_inside_blocks_are_erased_when_emitted() {
    let (_, typed) = check("1 true if ( print 2 ) pop", false);
    match &typed[2].kind {
        TypedOpKind::If { body, else_body: None } => {
            assert_eq!(effect(&body[0]), "[<0> -- ]");
        }
        other => panic!("{:?}", other),
    }
    let (_, typed) = check("( true print )", false);
    match &typed[0].kind {
        TypedOpKind::PushBlock(body) => assert_eq!(effect(&body[1]), "[bool -- ]"),
        other => panic!("{:?}", other),
    }
}

#[test]
fn erase_follows_chains() {
    let mut checker = TypeChecker::new(false);
    let a = checker.create_generic();
    let b = checker.create_generic();
    assert_eq!((a, b), (0, 1));
    assert!(checker.erase(&TypeKind::Generic(a)).is_none());
    assert!(checker.erase(&TypeKind::List(Box::new(TypeKind::Generic(a)))).is_none());
    let span = Span { offset: 0, length: 0 };
    let block = TypeKind::Block { ins: vec![TypeKind::Generic(b)], outs: vec![] };
    checker.expect_type(&block, &TypeKind::Generic(a), span);
    assert_eq!(checker.erase(&TypeKind::Generic(a)).unwrap().to_text(), "fn [<1> -- ]");
    checker.expect_type(&TypeKind::Generic(b), &TypeKind::List(Box::new(TypeKind::Int)), span);
    assert_eq!(checker.erase(&TypeKind::Generic(a)).unwrap().to_text(), "fn [[int] -- ]");
    assert_eq!(checker.erase(&TypeKind::Generic(b)).unwrap().to_text(), "[int]");
    assert!(checker.diagnostics.is_empty());
    assert!(checker.erase(&TypeKind::Generic(7)).is_none());
}

#[test]
fn erase_is_idempotent() {
    let (checker, _) = check("[1] ( dup ) [] ( . ) 1 true", false);
    for (t, _) in &checker.type_stack {
        if let Some(once) = checker.erase(t) {
            let twice = checker.erase(&once).unwrap();
            assert!(twice.same(&once));
        }
    }
    for slot in checker.erasures.iter().flatten() {
        let once = checker.erase(slot).unwrap();
        assert!(checker.erase(&once).unwrap().same(&once));
    }
}

#[test]
fn of_two_free_variables_the_expected_is_bound_to_the_found() {
    let mut checker = TypeChecker::new(false);
    let a = checker.create_generic();
    let b = checker.create_generic();
    let span = Span { offset: 0, length: 0 };
    checker.expect_type(&TypeKind::Generic(a), &TypeKind::Generic(b), span);
    assert!(checker.erasures[a].is_none());
    assert!(checker.erasures[b].as_ref().unwrap().same(&TypeKind::Generic(a)));
    assert!(checker.erase(&TypeKind::Generic(b)).is_none());
    let block = TypeKind::Block { ins: vec![TypeKind::Generic(b)], outs: vec![] };
    assert_eq!(checker.erase(&block).unwrap().to_text(), "fn [<0> -- ]");
    checker.expect_type(&TypeKind::Int, &TypeKind::Generic(b), span);
    assert_eq!(checker.erase(&TypeKind::Generic(a)).unwrap().to_text(), "int");
    assert_eq!(checker.erase(&TypeKind::Generic(b)).unwrap().to_text(), "int");
    checker.expect_type(&TypeKind::Generic(a), &TypeKind::Bool, span);
    assert_eq!(messages(&checker), vec!["Expected bool but got int"]);
}

#[test]
fn a_variable_unified_with_itself_stays_free() {
    let mut checker = TypeChecker::new(false);
    let a = checker.create_generic();
    let b = checker.create_generic();
    let span = Span { offset: 0, length: 0 };
    checker.expect_type(&TypeKind::Generic(a), &TypeKind::Generic(a), span);
    checker.expect_type(&TypeKind::Generic(a), &TypeKind::Generic(b), span);
    checker.expect_type(&TypeKind::Generic(b), &TypeKind::Generic(a), span);
    checker.expect_type(&TypeKind::Generic(a), &TypeKind::Generic(b), span);
    assert!(checker.erasures[a].is_none());
    assert!(checker.erasures[b].as_ref().unwrap().same(&TypeKind::Generic(a)));
    assert!(checker.diagnostics.is_empty());
}

#[test]
fn a_free_variable_is_not_bound_to_a_list_of_unknown_elements() {
    let mut checker = TypeChecker::new(false);
    let a = checker.create_generic();
    let b = checker.create_generic();
    let span = Span { offset: 0, length: 0 };
    let list = TypeKind::List(Box::new(TypeKind::Generic(b)));
    checker.expect_type(&list, &TypeKind::Generic(a), span);
    checker.expect_type(&TypeKind::Generic(a), &list, span);
    assert!(checker.erasures[a].is_none());
    assert!(checker.erasures[b].is_none());
    assert!(checker.diagnostics.is_empty());
}

#[test]
fn variables_of_blocks_are_told_apart_no_longer_once_unified() {
    assert_eq!(effects("( swap swap )"), vec!["[ -- fn [<0> <1> -- <0> <1>]]"]);
    assert_eq!(errors("1 true true if ( swap swap ) pop pop"), Vec::<String>::new());
    assert_eq!(effects("( dup print )"), vec!["[ -- fn [<0> -- <0>]]"]);
    assert_eq!(effects("[1] ( dup print ) map")[2], "[[int] fn [int -- int] -- [int]]");
    assert_eq!(effects("[1] ( . ) map")[2], "[[int] fn [int -- int] -- [int]]");
}

#[test]
fn a_variable_is_not_bound_to_a_type_that_names_it() {
    let mut checker = TypeChecker::new(false);
    let a = checker.create_generic();
    let span = Span { offset: 1, length: 2 };
    let block = TypeKind::Block { ins: vec![TypeKind::Generic(a)], outs: vec![] };
    checker.expect_type(&block, &TypeKind::Generic(a), span);
    assert!(checker.erasures[a].is_none());
    assert_eq!(messages(&checker), vec!["Expected <0> but got fn [<0> -- ]"]);
    assert_eq!(checker.diagnostics[0].span, span);
}

#[test]
fn stack_dump_writes_a_line_for_each_entry() {
    let (checker, typed) = check("1 [true] ???", false);
    assert!(checker.diagnostics.is_empty());
    assert_eq!(
        checker.dump,
        vec![
            "int defined at Span { offset: 0, length: 1 }",
            "[bool] defined at Span { offset: 2, length: 6 }",
        ]
    );
    assert!(matches!(typed[2].kind, TypedOpKind::DumpStack));
    assert_eq!(checker.type_stack.len(), 2);
}

#[test]
fn pop_type_and_resolve_type_stack() {
    let mut checker = TypeChecker::new(false);
    let span = Span { offset: 5, length: 1 };
    assert!(checker.pop_type(span).is_none());
    assert_eq!(messages(&checker), vec!["expected value but stack was empty"]);
    let op = TypedOp { kind: TypedOpKind::PushInt(1), ins: vec![], outs: vec![TypeKind::Int, TypeKind::Bool] };
    checker.resolve_type_stack(span, &op);
    assert_eq!(stack(&checker), vec!["int", "bool"]);
    let (top, at) = checker.pop_type(span).unwrap();
    assert!(top.same(&TypeKind::Bool));
    assert_eq!(at, span);
    checker.in_block = true;
    checker.type_stack.clear();
    let (fresh, _) = checker.pop_type(span).unwrap();
    assert!(fresh.same(&TypeKind::Generic(0)));
    assert_eq!(checker.block_ins.len(), 1);
}

#[test]
fn check_op_symmetrical_compares_sides() {
    let mut checker = TypeChecker::new(false);
    let span = Span { offset: 0, length: 1 };
    let op = |ins, outs| TypedOp { kind: TypedOpKind::PushBlock(vec![]), ins, outs };
    checker.check_op_symmetrical(span, &op(vec![TypeKind::Int], vec![TypeKind::Int]));
    assert!(checker.diagnostics.is_empty());
    checker.check_op_symmetrical(span, &op(vec![TypeKind::Int, TypeKind::Bool], vec![TypeKind::Bool, TypeKind::Int]));
    assert_eq!(
        messages(&checker),
        vec![
            "expected symmetrical function, but got [int bool -- bool int]",
            "expected symmetrical function, but got [int bool -- bool int]",
        ]
    );
}

#[test]
fn type_check_block_gives_the_effect_of_the_body() {
    let mut checker = TypeChecker::new(false);
    let block = checker.type_check_block(&ops_of("1 + dup"));
    assert_eq!(effect(&block), "[int -- int int]");
    assert!(checker.type_stack.is_empty());
    assert!(!checker.in_block);
    assert!(matches!(&block.kind, TypedOpKind::PushBlock(body) if body.len() == 3));
}

#[test]
fn checker_duplicate_is_a_checkpoint() {
    let (mut checker, _) = check("1 fn f ( 2 ) [true]", false);
    let checkpoint = checker.duplicate();
    checker.type_check(&ops_of("+ +"));
    assert!(!checker.diagnostics.is_empty());
    assert!(checkpoint.diagnostics.is_empty());
    assert_eq!(stack(&checkpoint), vec!["int", "[bool]"]);
    assert_eq!(checkpoint.functions.len(), 1);
    assert_eq!(checkpoint.erasures.len(), 0);
}
