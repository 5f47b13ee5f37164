use do_lang::emitter::FasmEmitter;
use do_lang::lowerer::ByteCodeInstruction as I;
use do_lang::lowerer::StackFrame;

fn lines_of(op: I, constants: &[&str]) -> Vec<String> {
    let mut emitter = FasmEmitter::new();
    let constants: Vec<String> = constants.iter().map(|c| c.to_string()).collect();
    emitter.emit_op(&op, &constants);
    emitter.lines
}

#[test]
fn new_emitter_is_empty() {
    let emitter = FasmEmitter::new();
    assert_eq!(emitter.labels, 0);
    assert!(emitter.lines.is_empty());
}

#[test]
fn every_instruction_is_named_in_a_comment() {
    let cases = vec![
        (I::Push(5), "Push(5)"),
        (I::Pop, "Pop"),
        (I::NewList, "NewList"),
        (I::PushBlock { index: 2 }, "PushBlock { index: 2 }"),
        (I::Load { index: 0 }, "Load { index: 0 }"),
        (I::Store { index: 10 }, "Store { index: 10 }"),
        (I::Label(3), "Label(3)"),
        (I::CallStatic { index: 1 }, "CallStatic { index: 1 }"),
        (I::CallDynamic, "CallDynamic"),
        (I::Jump { label: 4 }, "Jump { label: 4 }"),
        (I::JumpIfFalse { label: 4 }, "JumpIfFalse { label: 4 }"),
        (I::PrintBool, "PrintBool"),
        (I::Return, "Return"),
    ];
    for (op, name) in cases {
        assert_eq!(format!("{:?}", op), name);
        assert_eq!(lines_of(op, &["a", "b", "c"])[0], format!("; --- {} ---", name));
    }
}

#[test]
fn instructions_with_operands() {
    assert_eq!(lines_of(I::Push(42), &[])[1..], ["\tpush 42"]);
    assert_eq!(lines_of(I::Load { index: 3 }, &[])[1..], ["\tmov rax, [rbp - 24]", "\tpush rax"]);
    assert_eq!(lines_of(I::Store { index: 0 }, &[])[1..], ["\tpop rax", "\tmov [rbp - 0], rax"]);
    assert_eq!(
        lines_of(I::Load { index: usize::MAX }, &[])[1],
        format!("\tmov rax, [rbp - {}]", usize::MAX as u128 * 8)
    );
    assert_eq!(lines_of(I::Label(7), &[])[1..], [".label_7:"]);
    assert_eq!(lines_of(I::Jump { label: 7 }, &[])[1..], ["\tjmp .label_7"]);
    assert_eq!(
        lines_of(I::JumpIfFalse { label: 12 }, &[])[1..],
        ["\tpop rax", "\ttest rax, rax", "\tjz .label_12"]
    );
}

#[test]
fn calls_go_to_names_of_the_pool() {
    assert_eq!(lines_of(I::CallStatic { index: 1 }, &["sq", "cube"])[1..], ["\tcall cube"]);
    assert_eq!(lines_of(I::CallStatic { index: 2 }, &["sq", "cube"])[1..], ["\tcall block_2"]);
    assert_eq!(
        lines_of(I::PushBlock { index: 0 }, &["block_0"])[1..],
        ["\tlea rax, [block_0]", "\tpush rax"]
    );
    assert_eq!(lines_of(I::CallDynamic, &[])[1..], ["\tpop rax", "\tcall rax"]);
}

#[test]
fn simple_instructions() {
    assert_eq!(lines_of(I::Pop, &[])[1..], ["\tpop rax"]);
    assert_eq!(
        lines_of(I::Add, &[])[1..],
        ["\tpop rax", "\tpop rbx", "\tadd rax, rbx", "\tpush rax"]
    );
    assert_eq!(
        lines_of(I::Sub, &[])[1..],
        ["\tpop rax", "\tpop rbx", "\tsub rbx, rax", "\tpush rbx"]
    );
    assert_eq!(
        lines_of(I::Lt, &[])[1..],
        ["\tmov rcx, 0", "\tmov rdx, 1", "\tpop rax", "\tpop rbx", "\tcmp rax, rbx", "\tcmova rcx, rdx", "\tpush rcx"]
    );
    assert_eq!(lines_of(I::Print, &[])[1..], ["\tpop rcx", "\tcall print_intln"]);
    assert_eq!(lines_of(I::PrintList, &[])[1..], ["\tpop rcx", "\tcall print_list"]);
    assert_eq!(lines_of(I::Return, &[])[1..], ["\tret"]);
}

#[test]
fn each_list_has_labels_of_its_own() {
    let mut emitter = FasmEmitter::new();
    emitter.emit_op(&I::NewList, &vec![]);
    emitter.emit_op(&I::NewList, &vec![]);
    assert_eq!(emitter.labels, 2);
    let labels: Vec<&String> = emitter.lines.iter().filter(|l| l.ends_with(':')).collect();
    assert_eq!(labels, [".loop_0:", ".end_0:", ".loop_1:", ".end_1:"]);
    assert!(emitter.lines.contains(&"\tjge .end_1".to_string()));
    assert!(emitter.lines.contains(&"\tjmp .loop_1".to_string()));
    assert_eq!(emitter.lines.len(), 2 * 21);
}

#[test]
fn a_whole_program() {
    let program = vec![
        ("block_0".to_string(), StackFrame { instructions: vec![I::Push(1), I::Return], max_locals: 3 }),
        ("main".to_string(), StackFrame { instructions: vec![I::PushBlock { index: 0 }, I::CallDynamic], max_locals: 3 }),
    ];
    let mut emitter = FasmEmitter::new();
    emitter.emit(&program, &vec!["block_0".to_string()]);
    let lines = emitter.lines;
    assert_eq!(lines[0], "format PE64 console");
    assert_eq!(lines[1], "entry main");
    assert_eq!(lines[7], "print_intln:");
    assert_eq!(lines[14], "print_int:");
    assert_eq!(lines[21], "print_list:");
    let at = lines.iter().position(|l| l == "block_0:").unwrap();
    assert_eq!(at, 7 + 7 + 7 + 37);
    assert_eq!(
        lines[at..at + 17],
        [
            "block_0:",
            "\tpush rbx",
            "\tpush rcx",
            "; --- Push(1) ---",
            "\tpush 1",
            "\tpop rax",
            "\tpop rbx",
            "; --- Return ---",
            "\tret",
            "main:",
            "push rbp",
            "mov rbp, rsp",
            "sub rsp, 24",
            "sub rsp, 8 ; align the stack to 16 bytes (Windows ABI requirement)",
            "; --- PushBlock { index: 0 } ---",
            "\tlea rax, [block_0]",
            "\tpush rax",
        ]
    );
    assert_eq!(
        lines[at + 17..at + 24],
        [
            "; --- CallDynamic ---",
            "\tpop rax",
            "\tcall rax",
            "; --- return ---",
            "\txor ecx, ecx",
            "\tcall [ExitProcess]",
            "",
        ]
    );
    assert_eq!(lines[at + 24], "section '.data' data readable writeable");
    assert_eq!(lines.last().unwrap(), "import msvcrt, printf, 'printf', malloc, 'malloc'");
    assert_eq!(lines.len(), at + 23 + 14);
}
