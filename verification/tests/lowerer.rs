use do_lang::lexer::Lexer;
use do_lang::lowering_model::LowerError;
use do_lang::lowerer::ByteCodeInstruction as I;
use do_lang::lowerer::{Lowerer, StackFrame};
use do_lang::parser::Parser;
use do_lang::typechecker::{TypeChecker, TypeKind, TypedOp, TypedOpKind};

fn typed(source: &str) -> Vec<TypedOp> {
    let mut lexer = Lexer::new();
    let tokens = lexer.lex(source);
    let mut parser = Parser::new();
    let ops = parser.parse(&tokens);
    assert!(parser.diagnostics.is_empty());
    let mut checker = TypeChecker::new(false);
    let typed = checker.type_check(&ops);
    assert!(checker.diagnostics.is_empty(), "{:?}", checker.diagnostics);
    typed
}

fn lower(source: &str) -> (Lowerer, Vec<(String, StackFrame)>) {
    let mut lowerer = Lowerer::new();
    let frames = lowerer.lower(&typed(source)).unwrap();
    (lowerer, frames)
}

fn main_code(source: &str) -> Vec<I> {
    let (_, frames) = lower(source);
    let (name, frame) = frames.last().unwrap();
    assert_eq!(name, "main");
    frame.instructions.clone()
}

fn bare(kind: TypedOpKind) -> TypedOp {
    TypedOp { kind, ins: vec![], outs: vec![] }
}

#[test]
fn new_lowerer_is_empty() {
    let lowerer = Lowerer::new();
    assert_eq!(lowerer.next_label, 0);
    assert_eq!(lowerer.locals_count, 0);
    assert_eq!(lowerer.max_locals, 0);
    assert!(lowerer.constant_pool.is_empty());
    assert!(lowerer.fns_to_emit.is_empty());
}

#[test]
fn empty_program_is_an_empty_main() {
    let (_, frames) = lower("");
    assert_eq!(frames.len(), 1);
    assert_eq!(frames[0].0, "main");
    assert!(frames[0].1.instructions.is_empty());
    assert_eq!(frames[0].1.max_locals, 0);
}

#[test]
fn primitives_are_single_instructions() {
    assert_eq!(
        main_code("1 2 + 3 - 4 * 5 / 6 % pop"),
        vec![
            I::Push(1), I::Push(2), I::Add, I::Push(3), I::Sub, I::Push(4), I::Mul, I::Push(5),
            I::Div, I::Push(6), I::Mod, I::Pop,
        ]
    );
    assert_eq!(
        main_code("1 2 < 1 2 <= 1 2 > 1 2 >= 1 2 ="),
        vec![
            I::Push(1), I::Push(2), I::Lt, I::Push(1), I::Push(2), I::LtEq, I::Push(1),
            I::Push(2), I::Gt, I::Push(1), I::Push(2), I::GtEq, I::Push(1), I::Push(2), I::Eq,
        ]
    );
    assert_eq!(
        main_code("1 2 swap over rot dup ."),
        vec![I::Push(1), I::Push(2), I::Swap, I::Over, I::Rot, I::Dup]
    );
    assert_eq!(main_code("true false"), vec![I::Push(1), I::Push(0)]);
    assert_eq!(main_code("true !"), vec![I::Push(1), I::Push(0), I::Eq]);
    assert_eq!(main_code("[1] len"), vec![I::Push(1), I::Push(1), I::NewList, I::ListLen]);
}

#[test]
fn integers_become_words() {
    let code = |v: i64| {
        let mut lowerer = Lowerer::new();
        lowerer.lower_op(&bare(TypedOpKind::PushInt(v))).unwrap()
    };
    assert_eq!(code(0), vec![I::Push(0)]);
    assert_eq!(code(i64::MAX), vec![I::Push(i64::MAX as usize)]);
    assert_eq!(code(-1), vec![I::Push(usize::MAX)]);
    assert_eq!(code(-2), vec![I::Push(usize::MAX - 1)]);
}

#[test]
fn print_goes_by_the_type() {
    assert_eq!(main_code("1 print"), vec![I::Push(1), I::Print]);
    assert_eq!(main_code("true print"), vec![I::Push(1), I::PrintBool]);
    assert_eq!(main_code("[2] print"), vec![I::Push(2), I::Push(1), I::NewList, I::PrintList]);
    assert_eq!(main_code("(1) print"), vec![I::PushBlock { index: 0 }, I::Print]);
}

#[test]
fn lists_push_their_elements_last_first() {
    assert_eq!(
        main_code("[1 2 3]"),
        vec![I::Push(3), I::Push(2), I::Push(1), I::Push(3), I::NewList]
    );
    assert_eq!(
        main_code("[[1] [2 3]]"),
        vec![
            I::Push(3), I::Push(2), I::Push(2), I::NewList, I::Push(1), I::Push(1), I::NewList,
            I::Push(2), I::NewList,
        ]
    );
}

#[test]
fn blocks_become_functions() {
    let (lowerer, frames) = lower("(1 +) (2)");
    assert_eq!(lowerer.constant_pool, vec!["block_0", "block_1"]);
    let names: Vec<&str> = frames.iter().map(|(n, _)| n.as_str()).collect();
    assert_eq!(names, vec!["block_0", "block_1", "main"]);
    assert_eq!(frames[0].1.instructions, vec![I::Push(1), I::Add, I::Return]);
    assert_eq!(frames[1].1.instructions, vec![I::Push(2), I::Return]);
    assert_eq!(
        frames[2].1.instructions,
        vec![I::PushBlock { index: 0 }, I::PushBlock { index: 1 }]
    );
}

#[test]
fn nested_blocks_get_slots_of_their_own() {
    let (lowerer, frames) = lower("( ( 1 ) )");
    assert_eq!(lowerer.constant_pool, vec!["block_0", "block_1"]);
    let code = |name: &str| {
        frames.iter().find(|(n, _)| n == name).unwrap().1.instructions.clone()
    };
    assert_eq!(code("block_1"), vec![I::Push(1), I::Return]);
    assert_eq!(code("block_0"), vec![I::PushBlock { index: 1 }, I::Return]);
    assert_eq!(code("main"), vec![I::PushBlock { index: 0 }]);
}

#[test]
fn functions_are_called_by_their_slot() {
    let (lowerer, frames) = lower("fn one ( 1 ) fn sq ( dup * ) one sq");
    assert_eq!(lowerer.constant_pool, vec!["one", "sq"]);
    assert_eq!(frames[0].0, "one");
    assert_eq!(frames[0].1.instructions, vec![I::Push(1), I::Return]);
    assert_eq!(frames[1].1.instructions, vec![I::Dup, I::Mul, I::Return]);
    assert_eq!(
        frames[2].1.instructions,
        vec![I::CallStatic { index: 0 }, I::CallStatic { index: 1 }]
    );
}

#[test]
fn a_function_defined_again_keeps_one_body() {
    let (lowerer, frames) = lower("fn f ( 1 ) fn f ( 2 ) f");
    assert_eq!(lowerer.constant_pool, vec!["f", "f"]);
    assert_eq!(frames.len(), 2);
    assert_eq!(frames[0].1.instructions, vec![I::Push(2), I::Return]);
    assert_eq!(frames[1].1.instructions, vec![I::CallStatic { index: 0 }]);
}

#[test]
fn do_calls_what_is_on_the_stack() {
    assert_eq!(main_code("(1 print) do"), vec![I::PushBlock { index: 0 }, I::CallDynamic]);
}

#[test]
fn map_is_a_loop() {
    let code = main_code("[1] (1 +) map");
    assert_eq!(
        code[4..],
        vec![
            I::Store { index: 0 },
            I::Store { index: 1 },
            I::Load { index: 1 },
            I::ListLen,
            I::Store { index: 2 },
            I::Label(0),
            I::Load { index: 2 },
            I::Push(0),
            I::Gt,
            I::JumpIfFalse { label: 1 },
            I::Load { index: 2 },
            I::Dec,
            I::Store { index: 2 },
            I::Load { index: 1 },
            I::Load { index: 2 },
            I::ListGet,
            I::Load { index: 0 },
            I::CallDynamic,
            I::Jump { label: 0 },
            I::Label(1),
            I::Load { index: 1 },
            I::ListLen,
            I::NewList,
        ]
    );
}

#[test]
fn filter_counts_what_it_keeps() {
    let code = main_code("[1] (0 =) filter");
    assert_eq!(code.len(), 4 + 31);
    assert_eq!(code[4], I::Store { index: 0 });
    assert_eq!(code[9], I::Push(0));
    assert_eq!(code[10], I::Store { index: 3 });
    assert_eq!(code[24], I::JumpIfFalse { label: 0 });
    assert_eq!(code[28..31], vec![I::Load { index: 3 }, I::Inc, I::Store { index: 3 }]);
    assert_eq!(code[32..], vec![I::Label(1), I::Load { index: 3 }, I::NewList]);
}

#[test]
fn fold_carries_an_accumulator() {
    let code = main_code("[1] 0 (+) fold");
    assert_eq!(code.len(), 5 + 24);
    assert_eq!(
        code[5..8],
        vec![I::Store { index: 0 }, I::Store { index: 3 }, I::Store { index: 1 }]
    );
    assert_eq!(
        code[22..26],
        vec![I::Load { index: 3 }, I::Load { index: 0 }, I::CallDynamic, I::Store { index: 3 }]
    );
    assert_eq!(code[27..], vec![I::Label(1), I::Load { index: 3 }]);
}

#[test]
fn foreach_counts_up() {
    let code = main_code("[1] (print) foreach");
    assert_eq!(
        code[4..],
        vec![
            I::Store { index: 0 },
            I::Store { index: 1 },
            I::Push(0),
            I::Store { index: 2 },
            I::Label(0),
            I::Load { index: 2 },
            I::Load { index: 1 },
            I::ListLen,
            I::Lt,
            I::JumpIfFalse { label: 1 },
            I::Load { index: 1 },
            I::Load { index: 2 },
            I::ListGet,
            I::Load { index: 0 },
            I::CallDynamic,
            I::Load { index: 2 },
            I::Inc,
            I::Store { index: 2 },
            I::Jump { label: 0 },
            I::Label(1),
        ]
    );
}

#[test]
fn dup_copies_a_list() {
    let code = main_code("[[true]] dup");
    assert_eq!(
        code[5..],
        vec![
            I::Store { index: 0 },
            I::Load { index: 0 },
            I::ListLen,
            I::Store { index: 1 },
            I::Label(0),
            I::Load { index: 1 },
            I::Push(0),
            I::Gt,
            I::JumpIfFalse { label: 1 },
            I::Load { index: 1 },
            I::Dec,
            I::Store { index: 1 },
            I::Load { index: 0 },
            I::Load { index: 1 },
            I::ListGet,
            I::Jump { label: 0 },
            I::Label(1),
            I::Load { index: 0 },
            I::ListLen,
            I::NewList,
            I::Load { index: 0 },
            I::Swap,
        ]
    );
    let mut lowerer = Lowerer::new();
    let direct = lowerer.duplicate_list().unwrap();
    assert_eq!(direct, code[5..]);
    assert_eq!((lowerer.next_label, lowerer.locals_count), (2, 2));
}

#[test]
fn if_jumps_over_its_body() {
    assert_eq!(
        main_code("true if ( 1 print )"),
        vec![I::Push(1), I::JumpIfFalse { label: 0 }, I::Push(1), I::Print, I::Label(0)]
    );
    assert_eq!(
        main_code("true if ( 1 print ) else ( 2 print )"),
        vec![
            I::Push(1),
            I::JumpIfFalse { label: 1 },
            I::Push(1),
            I::Print,
            I::Jump { label: 0 },
            I::Label(1),
            I::Push(2),
            I::Print,
            I::Label(0),
        ]
    );
}

#[test]
fn bindings_use_local_slots() {
    let (lowerer, frames) = lower("1 2 [a b] ( a b ) 3 [c] ( c )");
    assert_eq!(
        frames[0].1.instructions,
        vec![
            I::Push(1),
            I::Push(2),
            I::Store { index: 0 },
            I::Store { index: 1 },
            I::Load { index: 1 },
            I::Load { index: 0 },
            I::Push(3),
            I::Store { index: 0 },
            I::Load { index: 0 },
        ]
    );
    assert_eq!(frames[0].1.max_locals, 2);
    assert_eq!(lowerer.locals_count, 0);
    assert!(lowerer.bindings.is_empty());
}

#[test]
fn every_frame_has_the_largest_number_of_locals() {
    let (_, frames) = lower("fn f ( 1 ) [1] (1 +) map");
    for (_, frame) in &frames {
        assert_eq!(frame.max_locals, 3);
    }
}

#[test]
fn labels_and_locals_are_handed_out_in_order() {
    let mut lowerer = Lowerer::new();
    assert_eq!(lowerer.next_label(), Ok(0));
    assert_eq!(lowerer.next_label(), Ok(1));
    assert_eq!(lowerer.next_local(), Ok(0));
    assert_eq!(lowerer.next_local(), Ok(1));
    assert_eq!(lowerer.max_locals, 2);
    lowerer.next_label = usize::MAX;
    assert_eq!(lowerer.next_label(), Err(LowerError::Exhausted));
    assert_eq!(lowerer.next_label, usize::MAX);
    lowerer.locals_count = usize::MAX;
    assert_eq!(lowerer.next_local(), Err(LowerError::Exhausted));
}

#[test]
fn labels_go_on_from_program_to_program() {
    let mut lowerer = Lowerer::new();
    lowerer.lower(&typed("true if ( )")).unwrap();
    let frames = lowerer.lower(&typed("true if ( )")).unwrap();
    assert_eq!(
        frames[0].1.instructions,
        vec![I::Push(1), I::JumpIfFalse { label: 1 }, I::Label(1)]
    );
}

#[test]
fn what_has_no_bytecode_is_refused() {
    for kind in [
        TypedOpKind::And,
        TypedOpKind::Or,
        TypedOpKind::Concat,
        TypedOpKind::Head,
        TypedOpKind::Tail,
        TypedOpKind::Push,
        TypedOpKind::DumpStack,
    ] {
        let mut lowerer = Lowerer::new();
        assert_eq!(lowerer.lower(&vec![bare(kind)]).err(), Some(LowerError::Unsupported));
    }
    let odd = TypedOpKind::DefineFunction { name: "f".to_string(), block: Box::new(bare(TypedOpKind::Pop)) };
    assert_eq!(Lowerer::new().lower(&vec![bare(odd)]).err(), Some(LowerError::Unsupported));
}

#[test]
fn unknown_names_are_refused() {
    let call = bare(TypedOpKind::Call("nothing".to_string()));
    assert_eq!(Lowerer::new().lower(&vec![call]).err(), Some(LowerError::UnknownFunction));
    let value = bare(TypedOpKind::Value("nothing".to_string()));
    assert_eq!(Lowerer::new().lower(&vec![value]).err(), Some(LowerError::UnknownBinding));
    let recursive = TypedOpKind::DefineFunction {
        name: "f".to_string(),
        block: Box::new(bare(TypedOpKind::PushBlock(vec![bare(TypedOpKind::Call("f".to_string()))]))),
    };
    assert_eq!(Lowerer::new().lower(&vec![bare(recursive)]).err(), Some(LowerError::UnknownFunction));
}

#[test]
fn dup_and_print_need_an_input() {
    assert_eq!(Lowerer::new().lower(&vec![bare(TypedOpKind::Dup)]).err(), Some(LowerError::MissingInput));
    assert_eq!(Lowerer::new().lower(&vec![bare(TypedOpKind::Print)]).err(), Some(LowerError::MissingInput));
    let dup = TypedOp { kind: TypedOpKind::Dup, ins: vec![TypeKind::Generic(0)], outs: vec![] };
    assert_eq!(Lowerer::new().lower_op(&dup), Ok(vec![I::Dup]));
}

#[test]
fn errors_inside_are_errors_of_the_whole() {
    let inner = || bare(TypedOpKind::And);
    let list = bare(TypedOpKind::PushList(vec![inner()]));
    let block = bare(TypedOpKind::PushBlock(vec![inner()]));
    let branch = bare(TypedOpKind::If { body: vec![], else_body: Some(vec![inner()]) });
    let binding = bare(TypedOpKind::Binding { bindings: vec![], body: vec![inner()] });
    for op in [list, block, branch, binding] {
        assert_eq!(Lowerer::new().lower(&vec![op]).err(), Some(LowerError::Unsupported));
    }
}

#[test]
fn lowerer_duplicate_is_a_checkpoint() {
    let (mut lowerer, _) = lower("fn f ( 1 ) (2) true if ( )");
    let copy = lowerer.duplicate();
    lowerer.lower(&typed("fn g ( 3 )")).unwrap();
    assert_eq!(copy.constant_pool, vec!["f", "block_1"]);
    assert_eq!(copy.fns_to_emit.len(), 2);
    assert_eq!(copy.next_label, 1);
    assert_eq!(lowerer.constant_pool.len(), 3);
}
