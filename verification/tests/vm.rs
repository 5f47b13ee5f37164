use do_lang::bytecode_interpreter::BytecodeInterpreter;
use do_lang::lowerer::ByteCodeInstruction as I;
use do_lang::lowerer::StackFrame;
use do_lang::machine_model::VmError;

fn program(code: Vec<I>) -> Vec<(String, StackFrame)> {
    vec![("main".to_string(), StackFrame { instructions: code, max_locals: 0 })]
}

fn run(code: Vec<I>) -> (BytecodeInterpreter, Result<(), VmError>) {
    let mut vm = BytecodeInterpreter::new();
    let result = vm.interpret(&program(code), &vec![], 10_000);
    (vm, result)
}

fn stack_after(code: Vec<I>) -> Vec<usize> {
    let (vm, result) = run(code);
    assert_eq!(result, Ok(()));
    vm.stack
}

fn error_of(code: Vec<I>) -> VmError {
    run(code).1.unwrap_err()
}

fn pushes(values: &[usize]) -> Vec<I> {
    values.iter().map(|v| I::Push(*v)).collect()
}

fn with(values: &[usize], then: &[I]) -> Vec<I> {
    let mut code = pushes(values);
    code.extend_from_slice(then);
    code
}

#[test]
fn new_machine() {
    let vm = BytecodeInterpreter::new();
    assert_eq!(vm.pc, 0);
    assert_eq!(vm.rsp, 0);
    assert!(vm.rom.is_empty() && vm.stack.is_empty() && vm.heap.is_empty());
    assert!(vm.labels.is_empty() && vm.output.is_empty());
    assert_eq!(vm.locals, vec![0; 8]);
}

#[test]
fn allocate_reserves_zeroed_words() {
    let mut vm = BytecodeInterpreter::new();
    assert_eq!(vm.allocate(3), 0);
    assert_eq!(vm.allocate(0), 3);
    assert_eq!(vm.allocate(2), 3);
    assert_eq!(vm.heap, vec![0; 5]);
}

#[test]
fn stack_instructions() {
    assert_eq!(stack_after(with(&[1, 2], &[I::Pop])), vec![1]);
    assert_eq!(stack_after(vec![I::Pop]), Vec::<usize>::new());
    assert_eq!(stack_after(with(&[1, 2], &[I::Dup])), vec![1, 2, 2]);
    assert_eq!(stack_after(with(&[1, 2], &[I::Swap])), vec![2, 1]);
    assert_eq!(stack_after(with(&[1, 2], &[I::Over])), vec![1, 2, 1]);
    assert_eq!(stack_after(with(&[1, 2, 3], &[I::Rot])), vec![2, 3, 1]);
    assert_eq!(stack_after(with(&[9, 1, 2, 3], &[I::Rot])), vec![9, 2, 3, 1]);
    assert_eq!(stack_after(with(&[5], &[I::Inc])), vec![6]);
    assert_eq!(stack_after(with(&[5], &[I::Dec])), vec![4]);
    assert_eq!(stack_after(vec![I::PushBlock { index: 7 }, I::Label(3)]), vec![7]);
}

#[test]
fn dup_then_pop_changes_nothing() {
    for values in [vec![1usize], vec![4, 5, 6]] {
        let (vm, result) = run(with(&values, &[I::Dup, I::Pop]));
        assert_eq!(result, Ok(()));
        assert_eq!(vm.stack, values);
        assert!(vm.heap.is_empty());
    }
}

#[test]
fn arithmetic() {
    assert_eq!(stack_after(with(&[7, 2], &[I::Add])), vec![9]);
    assert_eq!(stack_after(with(&[7, 2], &[I::Sub])), vec![5]);
    assert_eq!(stack_after(with(&[7, 2], &[I::Mul])), vec![14]);
    assert_eq!(stack_after(with(&[7, 2], &[I::Div])), vec![3]);
    assert_eq!(stack_after(with(&[7, 2], &[I::Mod])), vec![1]);
}

#[test]
fn arithmetic_wraps_around() {
    assert_eq!(stack_after(with(&[usize::MAX, 1], &[I::Add])), vec![0]);
    assert_eq!(stack_after(with(&[usize::MAX, usize::MAX], &[I::Add])), vec![usize::MAX - 1]);
    assert_eq!(stack_after(with(&[2, 3], &[I::Sub])), vec![usize::MAX]);
    assert_eq!(stack_after(with(&[usize::MAX, 2], &[I::Mul])), vec![usize::MAX - 1]);
    assert_eq!(stack_after(with(&[usize::MAX], &[I::Inc])), vec![0]);
    assert_eq!(stack_after(with(&[0], &[I::Dec])), vec![usize::MAX]);
}

#[test]
fn comparisons() {
    assert_eq!(stack_after(with(&[2, 1], &[I::Gt])), vec![1]);
    assert_eq!(stack_after(with(&[1, 2], &[I::Gt])), vec![0]);
    assert_eq!(stack_after(with(&[1, 1], &[I::Gt])), vec![0]);
    assert_eq!(stack_after(with(&[1, 2], &[I::Lt])), vec![1]);
    assert_eq!(stack_after(with(&[2, 2], &[I::Lt])), vec![0]);
    assert_eq!(stack_after(with(&[2, 2], &[I::GtEq])), vec![1]);
    assert_eq!(stack_after(with(&[1, 2], &[I::GtEq])), vec![0]);
    assert_eq!(stack_after(with(&[2, 2], &[I::LtEq])), vec![1]);
    assert_eq!(stack_after(with(&[3, 2], &[I::LtEq])), vec![0]);
    assert_eq!(stack_after(with(&[3, 3], &[I::Eq])), vec![1]);
    assert_eq!(stack_after(with(&[3, 4], &[I::Eq])), vec![0]);
}

#[test]
fn division_by_zero_stops_the_machine() {
    let (vm, result) = run(with(&[7, 0], &[I::Div, I::Push(1)]));
    assert_eq!(result, Err(VmError::DivisionByZero));
    assert_eq!(vm.stack, vec![7, 0]);
    assert_eq!(vm.pc, 4);
    assert_eq!(error_of(with(&[7, 0], &[I::Mod])), VmError::DivisionByZero);
}

#[test]
fn stack_underflow_stops_the_machine() {
    for instruction in [
        I::Dup, I::Swap, I::Over, I::Rot, I::Inc, I::Dec, I::Add, I::Sub, I::Mul, I::Div, I::Mod,
        I::Gt, I::Lt, I::GtEq, I::LtEq, I::Eq, I::NewList, I::ListLen, I::ListGet, I::Print,
        I::PrintBool, I::PrintList, I::CallDynamic, I::Store { index: 0 },
        I::JumpIfFalse { label: 0 },
    ] {
        assert_eq!(error_of(vec![instruction]), VmError::StackUnderflow, "{:?}", instruction);
    }
    for instruction in [I::Swap, I::Over, I::Add, I::Eq, I::ListGet] {
        assert_eq!(error_of(with(&[1], &[instruction])), VmError::StackUnderflow);
    }
    assert_eq!(error_of(with(&[1, 2], &[I::Rot])), VmError::StackUnderflow);
    assert_eq!(error_of(with(&[1, 2, 3], &[I::NewList])), VmError::StackUnderflow);
}

#[test]
fn new_list_lays_out_length_and_elements() {
    let (vm, result) = run(with(&[9, 30, 20, 10, 3], &[I::NewList]));
    assert_eq!(result, Ok(()));
    assert_eq!(vm.stack, vec![9, 0]);
    assert_eq!(vm.heap, vec![3, 10, 20, 30]);
    let (vm, _) = run(with(&[0, 5, 1], &[I::NewList]));
    assert_eq!(vm.stack, vec![0, 0]);
    assert_eq!(vm.heap, vec![1, 5]);
    let (vm, _) = run(vec![I::Push(0), I::NewList, I::Push(7), I::Push(1), I::NewList]);
    assert_eq!(vm.stack, vec![0, 1]);
    assert_eq!(vm.heap, vec![0, 1, 7]);
}

#[test]
fn list_length_and_elements_are_read_back() {
    let make = &[30usize, 20, 10, 3];
    assert_eq!(stack_after(with(make, &[I::NewList, I::ListLen])), vec![3]);
    for (index, element) in [(0usize, 10usize), (1, 20), (2, 30)] {
        let code = with(make, &[I::NewList, I::Push(index), I::ListGet]);
        assert_eq!(stack_after(code), vec![element]);
    }
}

#[test]
fn bad_addresses_stop_the_machine() {
    assert_eq!(error_of(with(&[0], &[I::ListLen])), VmError::BadAddress);
    assert_eq!(error_of(with(&[0, 0], &[I::ListGet])), VmError::BadAddress);
    assert_eq!(error_of(with(&[5, 1, 0, 0], &[I::NewList, I::Pop, I::ListGet])), VmError::BadAddress);
    assert_eq!(
        error_of(with(&[5, 1], &[I::NewList, I::Push(1), I::ListGet])),
        VmError::BadAddress
    );
    assert_eq!(
        error_of(with(&[5, 1], &[I::NewList, I::Push(usize::MAX), I::ListGet])),
        VmError::BadAddress
    );
    assert_eq!(error_of(with(&[3], &[I::PrintList])), VmError::BadAddress);
    assert_eq!(error_of(with(&[5, 1, 1], &[I::NewList, I::Pop, I::PrintList])), VmError::BadAddress);
}

#[test]
fn printing() {
    let (vm, _) = run(with(&[0, 42, usize::MAX], &[I::Print, I::Print, I::Print]));
    assert_eq!(vm.output, vec![usize::MAX.to_string(), "42".to_string(), "0".to_string()]);
    let (vm, _) = run(with(&[0, 1, 2], &[I::PrintBool, I::PrintBool, I::PrintBool]));
    assert_eq!(vm.output, vec!["true", "true", "false"]);
    let (vm, _) = run(with(&[30, 20, 10, 3], &[I::NewList, I::PrintList]));
    assert_eq!(vm.output, vec!["[10 20 30]"]);
    assert!(vm.stack.is_empty());
    let (vm, _) = run(with(&[0], &[I::NewList, I::PrintList]));
    assert_eq!(vm.output, vec!["[]"]);
    let (vm, _) = run(with(&[7, 1], &[I::NewList, I::PrintList]));
    assert_eq!(vm.output, vec!["[7]"]);
}

#[test]
fn locals() {
    assert_eq!(stack_after(vec![I::Load { index: 0 }, I::Load { index: 7 }]), vec![0, 0]);
    assert_eq!(
        stack_after(with(&[5], &[I::Store { index: 2 }, I::Load { index: 2 }, I::Load { index: 1 }])),
        vec![5, 0]
    );
    let (vm, result) = run(with(&[5, 6], &[I::Store { index: 8 }, I::Store { index: 9 }]));
    assert_eq!(result, Ok(()));
    assert_eq!(vm.locals.len(), 10);
    assert_eq!(vm.locals[8..], [6, 5]);
    assert_eq!(error_of(vec![I::Load { index: 8 }]), VmError::BadLocal);
    let (vm, result) = run(with(&[5], &[I::Store { index: 9 }]));
    assert_eq!(result, Err(VmError::BadLocal));
    assert_eq!(vm.stack, vec![5]);
}

#[test]
fn frames_say_how_many_locals_they_need() {
    let mut vm = BytecodeInterpreter::new();
    let frames = vec![(
        "main".to_string(),
        StackFrame { instructions: vec![I::Load { index: 11 }], max_locals: 12 },
    )];
    assert_eq!(vm.interpret(&frames, &vec![], 10), Ok(()));
    assert_eq!(vm.locals, vec![0; 12]);
    assert_eq!(vm.stack, vec![0]);
}

#[test]
fn jumps() {
    let code = vec![I::Jump { label: 4 }, I::Push(1), I::Label(4), I::Push(2)];
    assert_eq!(stack_after(code), vec![2]);
    let code = vec![I::Push(0), I::JumpIfFalse { label: 0 }, I::Push(1), I::Label(0), I::Push(2)];
    assert_eq!(stack_after(code), vec![2]);
    let code = vec![I::Push(1), I::JumpIfFalse { label: 0 }, I::Push(1), I::Label(0), I::Push(2)];
    assert_eq!(stack_after(code), vec![1, 2]);
    let code = vec![I::Push(9), I::JumpIfFalse { label: 5 }, I::Push(2)];
    assert_eq!(stack_after(code), vec![2]);
}

#[test]
fn unknown_labels_stop_the_machine() {
    let (vm, result) = run(vec![I::Jump { label: 0 }]);
    assert_eq!(result, Err(VmError::BadLabel));
    assert_eq!(vm.pc, 0);
    let (vm, result) = run(vec![I::Push(0), I::JumpIfFalse { label: 3 }]);
    assert_eq!(result, Err(VmError::BadLabel));
    assert_eq!(vm.stack, vec![0]);
}

#[test]
fn labels_give_code_offsets() {
    let mut vm = BytecodeInterpreter::new();
    let functions = vm.load(&program(vec![I::Push(1), I::Label(7), I::Pop, I::Label(2)]));
    assert_eq!(vm.labels, vec![(7, 2), (2, 5)]);
    assert_eq!(vm.rom, vec![0x01, 1, 0x1A, 7, 0x02, 0x1A, 2]);
    assert_eq!(functions, vec![("main".to_string(), 0)]);
    assert_eq!(vm.pc, 0);
}

#[test]
fn calls_and_returns() {
    let frames = vec![
        ("twice".to_string(), StackFrame { instructions: vec![I::Dup, I::Add, I::Return], max_locals: 0 }),
        (
            "main".to_string(),
            StackFrame {
                instructions: vec![I::Push(4), I::CallStatic { index: 0 }, I::Push(0), I::CallDynamic, I::Print],
                max_locals: 0,
            },
        ),
    ];
    let mut vm = BytecodeInterpreter::new();
    assert_eq!(vm.interpret(&frames, &vec!["twice".to_string()], 100), Ok(()));
    assert_eq!(vm.output, vec!["16"]);
    assert_eq!(vm.rsp, 0);
    assert_eq!(vm.pc, vm.rom.len());
}

#[test]
fn unknown_functions_stop_the_machine() {
    let constants = vec!["nothing".to_string()];
    let mut vm = BytecodeInterpreter::new();
    let result = vm.interpret(&program(vec![I::CallStatic { index: 0 }]), &constants, 10);
    assert_eq!(result, Err(VmError::BadFunction));
    let mut vm = BytecodeInterpreter::new();
    let result = vm.interpret(&program(vec![I::CallStatic { index: 1 }]), &constants, 10);
    assert_eq!(result, Err(VmError::BadFunction));
    let mut vm = BytecodeInterpreter::new();
    let result = vm.interpret(&program(vec![I::Push(3), I::CallDynamic]), &constants, 10);
    assert_eq!(result, Err(VmError::BadFunction));
    assert_eq!(vm.stack, vec![3]);
}

#[test]
fn words_that_are_no_instruction_stop_the_machine() {
    let mut vm = BytecodeInterpreter::new();
    vm.rom = vec![0x01, 5, 0x00];
    assert_eq!(vm.run(&vec![], &vec![], 10), Err(VmError::BadInstruction));
    assert_eq!(vm.stack, vec![5]);
    assert_eq!(vm.pc, 2);
    let mut vm = BytecodeInterpreter::new();
    vm.rom = vec![0x01];
    assert_eq!(vm.step(&vec![], &vec![]), Err(VmError::BadInstruction));
}

#[test]
fn the_step_limit_stops_a_loop() {
    let code = vec![I::Label(0), I::Push(1), I::Jump { label: 0 }];
    let mut vm = BytecodeInterpreter::new();
    assert_eq!(vm.interpret(&program(code), &vec![], 30), Err(VmError::StepLimit));
    assert_eq!(vm.stack, vec![1; 10]);
    let functions = Vec::new();
    assert_eq!(vm.run(&vec![], &functions, 3), Err(VmError::StepLimit));
    assert_eq!(vm.stack, vec![1; 11]);
}

#[test]
fn no_steps_are_needed_at_the_end_of_the_code() {
    let mut vm = BytecodeInterpreter::new();
    assert_eq!(vm.interpret(&program(vec![]), &vec![], 0), Ok(()));
    assert_eq!(vm.interpret(&program(vec![I::Pop]), &vec![], 0), Err(VmError::StepLimit));
    assert_eq!(vm.run(&vec![], &vec![], 1), Ok(()));
}

#[test]
fn programs_are_loaded_one_after_the_other() {
    let mut vm = BytecodeInterpreter::new();
    assert_eq!(vm.interpret(&program(vec![I::Push(1)]), &vec![], 10), Ok(()));
    assert_eq!(vm.interpret(&program(vec![I::Push(2), I::Add]), &vec![], 10), Ok(()));
    assert_eq!(vm.stack, vec![3]);
    assert_eq!(vm.rom, vec![0x01, 1, 0x01, 2, 0x0E]);
}

#[test]
fn interpret_op_executes_one_instruction() {
    let mut vm = BytecodeInterpreter::new();
    assert_eq!(vm.interpret_op(&I::Push(3), &vec![], &vec![]), Ok(()));
    assert_eq!(vm.interpret_op(&I::Dup, &vec![], &vec![]), Ok(()));
    assert_eq!(vm.interpret_op(&I::Mul, &vec![], &vec![]), Ok(()));
    assert_eq!(vm.stack, vec![9]);
    assert_eq!(vm.interpret_op(&I::Add, &vec![], &vec![]), Err(VmError::StackUnderflow));
    assert_eq!(vm.stack, vec![9]);
    vm.pc = 5;
    vm.rsp = 0;
    let functions = vec![("f".to_string(), 40)];
    assert_eq!(vm.interpret_op(&I::CallStatic { index: 0 }, &vec!["f".to_string()], &functions), Ok(()));
    assert_eq!((vm.pc, vm.rsp), (40, 5));
    assert_eq!(vm.interpret_op(&I::Return, &vec![], &vec![]), Ok(()));
    assert_eq!((vm.pc, vm.rsp), (5, 0));
}
