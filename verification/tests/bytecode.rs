use do_lang::bytecode::ByteCodeInstruction;
use do_lang::bytecode::ByteCodeInstruction as I;

fn every_instruction(operand: usize) -> Vec<(I, usize)> {
    vec![
        (I::Push(operand), 0x01),
        (I::Pop, 0x02),
        (I::NewList, 0x03),
        (I::ListLen, 0x04),
        (I::ListGet, 0x05),
        (I::PushBlock { index: operand }, 0x07),
        (I::Load { index: operand }, 0x08),
        (I::Store { index: operand }, 0x09),
        (I::Dup, 0x0A),
        (I::Over, 0x0B),
        (I::Rot, 0x0C),
        (I::Swap, 0x0D),
        (I::Add, 0x0E),
        (I::Sub, 0x0F),
        (I::Mul, 0x10),
        (I::Div, 0x11),
        (I::Mod, 0x12),
        (I::Gt, 0x13),
        (I::Lt, 0x14),
        (I::GtEq, 0x15),
        (I::LtEq, 0x16),
        (I::Eq, 0x17),
        (I::Print, 0x18),
        (I::PrintList, 0x19),
        (I::Label(operand), 0x1A),
        (I::CallStatic { index: operand }, 0x1B),
        (I::CallDynamic, 0x1C),
        (I::Jump { label: operand }, 0x1D),
        (I::JumpIfFalse { label: operand }, 0x1E),
        (I::Return, 0x1F),
        (I::Inc, 0x20),
        (I::Dec, 0x21),
        (I::PrintBool, 0x22),
    ]
}

#[test]
fn opcodes_are_those_of_the_table() {
    for (instruction, opcode) in every_instruction(7) {
        assert_eq!(instruction.get_opcode(), opcode, "{:?}", instruction);
        assert_eq!(instruction.to_binary()[0], opcode);
    }
}

#[test]
fn widths_are_those_of_the_table() {
    let wide = [0x01, 0x07, 0x08, 0x09, 0x1A, 0x1B, 0x1D, 0x1E];
    for (instruction, opcode) in every_instruction(9) {
        let expected = if wide.contains(&opcode) { 2 } else { 1 };
        assert_eq!(instruction.to_binary().len(), expected, "{:?}", instruction);
        assert_eq!(instruction.operand().is_some(), expected == 2);
    }
}

#[test]
fn encoding_holds_the_operand() {
    assert_eq!(I::Push(42).to_binary(), vec![0x01, 42]);
    assert_eq!(I::Store { index: 3 }.to_binary(), vec![0x09, 3]);
    assert_eq!(I::Jump { label: usize::MAX }.to_binary(), vec![0x1D, usize::MAX]);
    assert_eq!(I::Return.to_binary(), vec![0x1F]);
}

#[test]
fn decode_gives_back_what_was_encoded() {
    for operand in [0usize, 1, 12345, usize::MAX] {
        for (instruction, _) in every_instruction(operand) {
            let words = instruction.to_binary();
            let (decoded, width) = ByteCodeInstruction::decode(words[0], &words[1..]);
            assert_eq!(decoded, instruction);
            assert_eq!(width, words.len());
        }
    }
}

#[test]
fn decode_ignores_what_follows() {
    let (decoded, width) = ByteCodeInstruction::decode(0x0E, &[1, 2, 3]);
    assert_eq!((decoded, width), (I::Add, 1));
    let (decoded, width) = ByteCodeInstruction::decode(0x08, &[5, 0x0E]);
    assert_eq!((decoded, width), (I::Load { index: 5 }, 2));
}

#[test]
fn decode_at_finds_each_instruction_of_a_stream() {
    let program = vec![I::Push(2), I::Push(3), I::Add, I::Label(0), I::Print];
    let mut code = Vec::new();
    for instruction in &program {
        code.extend(instruction.to_binary());
    }
    let mut at = 0;
    let mut found = Vec::new();
    while at < code.len() {
        let (instruction, width) = ByteCodeInstruction::decode_at(&code, at).unwrap();
        found.push(instruction);
        at += width;
    }
    assert_eq!(found, program);
    assert_eq!(at, code.len());
}

#[test]
fn decode_at_refuses_what_is_no_instruction() {
    assert_eq!(ByteCodeInstruction::decode_at(&vec![], 0), None);
    assert_eq!(ByteCodeInstruction::decode_at(&vec![0x02], 1), None);
    assert_eq!(ByteCodeInstruction::decode_at(&vec![0x00], 0), None);
    assert_eq!(ByteCodeInstruction::decode_at(&vec![0x06], 0), None);
    assert_eq!(ByteCodeInstruction::decode_at(&vec![0x23], 0), None);
    assert_eq!(ByteCodeInstruction::decode_at(&vec![usize::MAX], 0), None);
    assert_eq!(ByteCodeInstruction::decode_at(&vec![0x01], 0), None);
    assert_eq!(ByteCodeInstruction::decode_at(&vec![0x02, 0x1D], 1), None);
    assert_eq!(ByteCodeInstruction::decode_at(&vec![0x01, 9], 0), Some((I::Push(9), 2)));
}
