//! The instruction set of the stack machine and its encoding as words.

use vstd::prelude::*;

verus! {

/// One instruction of the stack machine.
///
/// Instructions with an operand occupy two words when encoded, the others one.
#[derive(Clone, Copy, Debug, PartialEq, Eq, Structural, PartialOrd, Ord)]
pub enum ByteCodeInstruction {
    /// Pushes a literal word.
    Push(usize),
    /// Discards the top of the stack.
    Pop,
    /// Pops a length `n`, then `n` values, and pushes a pointer to a new list of them.
    NewList,
    /// Pops a list pointer and pushes the list's length.
    ListLen,
    /// Pops an index and a list pointer and pushes that element.
    ListGet,
    /// Pushes the constant-pool index of a compiled block.
    PushBlock { index: usize },
    /// Pushes the value of a local slot.
    Load { index: usize },
    /// Pops a value into a local slot.
    Store { index: usize },
    Dup,
    Over,
    Rot,
    Swap,
    Inc,
    Dec,
    Add,
    Sub,
    Mul,
    Div,
    Mod,
    Gt,
    Lt,
    GtEq,
    LtEq,
    Eq,
    Print,
    PrintBool,
    PrintList,
    /// Marks a jump target; does nothing when executed.
    Label(usize),
    /// Calls the function at a constant-pool index.
    CallStatic { index: usize },
    /// Pops a constant-pool index and calls that function.
    CallDynamic,
    Jump { label: usize },
    /// Pops a word and jumps when it is zero.
    JumpIfFalse { label: usize },
    Return,
}

/// The opcode word of an instruction.
pub open spec fn opcode_of(i: ByteCodeInstruction) -> usize {
    match i {
        ByteCodeInstruction::Push(_) => 0x01,
        ByteCodeInstruction::Pop => 0x02,
        ByteCodeInstruction::NewList => 0x03,
        ByteCodeInstruction::ListLen => 0x04,
        ByteCodeInstruction::ListGet => 0x05,
        ByteCodeInstruction::PushBlock { .. } => 0x07,
        ByteCodeInstruction::Load { .. } => 0x08,
        ByteCodeInstruction::Store { .. } => 0x09,
        ByteCodeInstruction::Dup => 0x0A,
        ByteCodeInstruction::Over => 0x0B,
        ByteCodeInstruction::Rot => 0x0C,
        ByteCodeInstruction::Swap => 0x0D,
        ByteCodeInstruction::Add => 0x0E,
        ByteCodeInstruction::Sub => 0x0F,
        ByteCodeInstruction::Mul => 0x10,
        ByteCodeInstruction::Div => 0x11,
        ByteCodeInstruction::Mod => 0x12,
        ByteCodeInstruction::Gt => 0x13,
        ByteCodeInstruction::Lt => 0x14,
        ByteCodeInstruction::GtEq => 0x15,
        ByteCodeInstruction::LtEq => 0x16,
        ByteCodeInstruction::Eq => 0x17,
        ByteCodeInstruction::Print => 0x18,
        ByteCodeInstruction::PrintList => 0x19,
        ByteCodeInstruction::Label(_) => 0x1A,
        ByteCodeInstruction::CallStatic { .. } => 0x1B,
        ByteCodeInstruction::CallDynamic => 0x1C,
        ByteCodeInstruction::Jump { .. } => 0x1D,
        ByteCodeInstruction::JumpIfFalse { .. } => 0x1E,
        ByteCodeInstruction::Return => 0x1F,
        ByteCodeInstruction::Inc => 0x20,
        ByteCodeInstruction::Dec => 0x21,
        ByteCodeInstruction::PrintBool => 0x22,
    }
}

/// The operand word of an instruction, if it has one.
pub open spec fn operand_of(i: ByteCodeInstruction) -> Option<usize> {
    match i {
        ByteCodeInstruction::Push(value) => Some(value),
        ByteCodeInstruction::PushBlock { index } => Some(index),
        ByteCodeInstruction::Load { index } => Some(index),
        ByteCodeInstruction::Store { index } => Some(index),
        ByteCodeInstruction::Label(label) => Some(label),
        ByteCodeInstruction::CallStatic { index } => Some(index),
        ByteCodeInstruction::Jump { label } => Some(label),
        ByteCodeInstruction::JumpIfFalse { label } => Some(label),
        _ => None,
    }
}

/// The words an instruction is encoded as: its opcode, then its operand if any.
pub open spec fn encoding(i: ByteCodeInstruction) -> Seq<usize> {
    match operand_of(i) {
        Some(word) => seq![opcode_of(i), word],
        None => seq![opcode_of(i)],
    }
}

/// The number of words an instruction occupies.
pub open spec fn width_of(i: ByteCodeInstruction) -> nat {
    if operand_of(i) is Some { 2 } else { 1 }
}

/// Whether an opcode word is followed by an operand word.
pub open spec fn takes_operand(opcode: usize) -> bool {
    opcode == 0x01 || opcode == 0x07 || opcode == 0x08 || opcode == 0x09 || opcode == 0x1A
        || opcode == 0x1B || opcode == 0x1D || opcode == 0x1E
}

/// Whether a word is the opcode of some instruction.
pub open spec fn is_opcode(opcode: usize) -> bool {
    1 <= opcode <= 0x22 && opcode != 0x06
}

/// The instruction with the given opcode and, where it takes one, operand.
pub open spec fn instruction_for(opcode: usize, operand: usize) -> ByteCodeInstruction {
    if opcode == 0x01 {
        ByteCodeInstruction::Push(operand)
    } else if opcode == 0x02 {
        ByteCodeInstruction::Pop
    } else if opcode == 0x03 {
        ByteCodeInstruction::NewList
    } else if opcode == 0x04 {
        ByteCodeInstruction::ListLen
    } else if opcode == 0x05 {
        ByteCodeInstruction::ListGet
    } else if opcode == 0x07 {
        ByteCodeInstruction::PushBlock { index: operand }
    } else if opcode == 0x08 {
        ByteCodeInstruction::Load { index: operand }
    } else if opcode == 0x09 {
        ByteCodeInstruction::Store { index: operand }
    } else if opcode == 0x0A {
        ByteCodeInstruction::Dup
    } else if opcode == 0x0B {
        ByteCodeInstruction::Over
    } else if opcode == 0x0C {
        ByteCodeInstruction::Rot
    } else if opcode == 0x0D {
        ByteCodeInstruction::Swap
    } else if opcode == 0x0E {
        ByteCodeInstruction::Add
    } else if opcode == 0x0F {
        ByteCodeInstruction::Sub
    } else if opcode == 0x10 {
        ByteCodeInstruction::Mul
    } else if opcode == 0x11 {
        ByteCodeInstruction::Div
    } else if opcode == 0x12 {
        ByteCodeInstruction::Mod
    } else if opcode == 0x13 {
        ByteCodeInstruction::Gt
    } else if opcode == 0x14 {
        ByteCodeInstruction::Lt
    } else if opcode == 0x15 {
        ByteCodeInstruction::GtEq
    } else if opcode == 0x16 {
        ByteCodeInstruction::LtEq
    } else if opcode == 0x17 {
        ByteCodeInstruction::Eq
    } else if opcode == 0x18 {
        ByteCodeInstruction::Print
    } else if opcode == 0x19 {
        ByteCodeInstruction::PrintList
    } else if opcode == 0x1A {
        ByteCodeInstruction::Label(operand)
    } else if opcode == 0x1B {
        ByteCodeInstruction::CallStatic { index: operand }
    } else if opcode == 0x1C {
        ByteCodeInstruction::CallDynamic
    } else if opcode == 0x1D {
        ByteCodeInstruction::Jump { label: operand }
    } else if opcode == 0x1E {
        ByteCodeInstruction::JumpIfFalse { label: operand }
    } else if opcode == 0x1F {
        ByteCodeInstruction::Return
    } else if opcode == 0x20 {
        ByteCodeInstruction::Inc
    } else if opcode == 0x21 {
        ByteCodeInstruction::Dec
    } else {
        ByteCodeInstruction::PrintBool
    }
}

/// Whether `opcode` followed by the words `arguments` starts with a whole instruction.
pub open spec fn decodable(opcode: usize, arguments: Seq<usize>) -> bool {
    is_opcode(opcode) && (takes_operand(opcode) ==> arguments.len() >= 1)
}

/// The instruction that `opcode` followed by `arguments` starts with, and its width.
pub open spec fn decoding(opcode: usize, arguments: Seq<usize>) -> (ByteCodeInstruction, usize) {
    if takes_operand(opcode) {
        (instruction_for(opcode, arguments[0]), 2)
    } else {
        (instruction_for(opcode, 0), 1)
    }
}

/// The instruction that starts at position `at` of `code`, and its width; `None` where
/// `at` is past the end, the word there is no opcode, or the operand is missing.
pub open spec fn decoding_at(code: Seq<usize>, at: int) -> Option<(ByteCodeInstruction, usize)> {
    if 0 <= at < code.len() && decodable(code[at], code.subrange(at + 1, code.len() as int)) {
        Some(decoding(code[at], code.subrange(at + 1, code.len() as int)))
    } else {
        None
    }
}

impl ByteCodeInstruction {
    /// The opcode word of this instruction.
    pub fn get_opcode(&self) -> (opcode: usize)
        ensures
            opcode == opcode_of(*self),
            is_opcode(opcode),
            takes_operand(opcode) == (operand_of(*self) is Some),
    {
        match self {
            ByteCodeInstruction::Push(_) => 0x01,
            ByteCodeInstruction::Pop => 0x02,
            ByteCodeInstruction::NewList => 0x03,
            ByteCodeInstruction::ListLen => 0x04,
            ByteCodeInstruction::ListGet => 0x05,
            ByteCodeInstruction::PushBlock { .. } => 0x07,
            ByteCodeInstruction::Load { .. } => 0x08,
            ByteCodeInstruction::Store { .. } => 0x09,
            ByteCodeInstruction::Dup => 0x0A,
            ByteCodeInstruction::Over => 0x0B,
            ByteCodeInstruction::Rot => 0x0C,
            ByteCodeInstruction::Swap => 0x0D,
            ByteCodeInstruction::Add => 0x0E,
            ByteCodeInstruction::Sub => 0x0F,
            ByteCodeInstruction::Mul => 0x10,
            ByteCodeInstruction::Div => 0x11,
            ByteCodeInstruction::Mod => 0x12,
            ByteCodeInstruction::Gt => 0x13,
            ByteCodeInstruction::Lt => 0x14,
            ByteCodeInstruction::GtEq => 0x15,
            ByteCodeInstruction::LtEq => 0x16,
            ByteCodeInstruction::Eq => 0x17,
            ByteCodeInstruction::Print => 0x18,
            ByteCodeInstruction::PrintList => 0x19,
            ByteCodeInstruction::Label(_) => 0x1A,
            ByteCodeInstruction::CallStatic { .. } => 0x1B,
            ByteCodeInstruction::CallDynamic => 0x1C,
            ByteCodeInstruction::Jump { .. } => 0x1D,
            ByteCodeInstruction::JumpIfFalse { .. } => 0x1E,
            ByteCodeInstruction::Return => 0x1F,
            ByteCodeInstruction::Inc => 0x20,
            ByteCodeInstruction::Dec => 0x21,
            ByteCodeInstruction::PrintBool => 0x22,
        }
    }

    /// The operand word of this instruction, if it has one.
    pub fn operand(&self) -> (word: Option<usize>)
        ensures
            word == operand_of(*self),
    {
        match self {
            ByteCodeInstruction::Push(value) => Some(*value),
            ByteCodeInstruction::PushBlock { index } => Some(*index),
            ByteCodeInstruction::Load { index } => Some(*index),
            ByteCodeInstruction::Store { index } => Some(*index),
            ByteCodeInstruction::Label(label) => Some(*label),
            ByteCodeInstruction::CallStatic { index } => Some(*index),
            ByteCodeInstruction::Jump { label } => Some(*label),
            ByteCodeInstruction::JumpIfFalse { label } => Some(*label),
            _ => None,
        }
    }

    /// Encodes this instruction as one or two words.
    pub fn to_binary(&self) -> (words: Vec<usize>)
        ensures
            words@ == encoding(*self),
            words@.len() == width_of(*self),
    {
        let opcode = self.get_opcode();
        let mut words: Vec<usize> = Vec::new();
        words.push(opcode);
        match self.operand() {
            Some(word) => {
                words.push(word);
                assert(words@ =~= encoding(*self));
            },
            None => {
                assert(words@ =~= encoding(*self));
            },
        }
        words
    }

    /// Decodes the instruction that `opcode` followed by `arguments` starts with,
    /// and says how many words it occupies.
    pub fn decode(opcode: usize, arguments: &[usize]) -> (r: (ByteCodeInstruction, usize))
        requires
            decodable(opcode, arguments@),
        ensures
            r == decoding(opcode, arguments@),
            opcode_of(r.0) == opcode,
            r.1 == width_of(r.0),
    {
        let operand: usize = if opcode == 0x01 || opcode == 0x07 || opcode == 0x08 || opcode == 0x09
            || opcode == 0x1A || opcode == 0x1B || opcode == 0x1D || opcode == 0x1E {
            arguments[0]
        } else {
            0
        };
        let instruction = Self::from_parts(opcode, operand);
        let width: usize = if instruction.operand().is_some() { 2 } else { 1 };
        (instruction, width)
    }

    /// The instruction with the given opcode and operand.
    fn from_parts(opcode: usize, operand: usize) -> (r: ByteCodeInstruction)
        requires
            is_opcode(opcode),
        ensures
            r == instruction_for(opcode, operand),
            opcode_of(r) == opcode,
            takes_operand(opcode) ==> operand_of(r) == Some(operand),
            !takes_operand(opcode) ==> operand_of(r) is None,
    {
        if opcode == 0x01 {
            ByteCodeInstruction::Push(operand)
        } else if opcode == 0x02 {
            ByteCodeInstruction::Pop
        } else if opcode == 0x03 {
            ByteCodeInstruction::NewList
        } else if opcode == 0x04 {
            ByteCodeInstruction::ListLen
        } else if opcode == 0x05 {
            ByteCodeInstruction::ListGet
        } else if opcode == 0x07 {
            ByteCodeInstruction::PushBlock { index: operand }
        } else if opcode == 0x08 {
            ByteCodeInstruction::Load { index: operand }
        } else if opcode == 0x09 {
            ByteCodeInstruction::Store { index: operand }
        } else if opcode == 0x0A {
            ByteCodeInstruction::Dup
        } else if opcode == 0x0B {
            ByteCodeInstruction::Over
        } else if opcode == 0x0C {
            ByteCodeInstruction::Rot
        } else if opcode == 0x0D {
            ByteCodeInstruction::Swap
        } else if opcode == 0x0E {
            ByteCodeInstruction::Add
        } else if opcode == 0x0F {
            ByteCodeInstruction::Sub
        } else if opcode == 0x10 {
            ByteCodeInstruction::Mul
        } else if opcode == 0x11 {
            ByteCodeInstruction::Div
        } else if opcode == 0x12 {
            ByteCodeInstruction::Mod
        } else if opcode == 0x13 {
            ByteCodeInstruction::Gt
        } else if opcode == 0x14 {
            ByteCodeInstruction::Lt
        } else if opcode == 0x15 {
            ByteCodeInstruction::GtEq
        } else if opcode == 0x16 {
            ByteCodeInstruction::LtEq
        } else if opcode == 0x17 {
            ByteCodeInstruction::Eq
        } else if opcode == 0x18 {
            ByteCodeInstruction::Print
        } else if opcode == 0x19 {
            ByteCodeInstruction::PrintList
        } else if opcode == 0x1A {
            ByteCodeInstruction::Label(operand)
        } else if opcode == 0x1B {
            ByteCodeInstruction::CallStatic { index: operand }
        } else if opcode == 0x1C {
            ByteCodeInstruction::CallDynamic
        } else if opcode == 0x1D {
            ByteCodeInstruction::Jump { label: operand }
        } else if opcode == 0x1E {
            ByteCodeInstruction::JumpIfFalse { label: operand }
        } else if opcode == 0x1F {
            ByteCodeInstruction::Return
        } else if opcode == 0x20 {
            ByteCodeInstruction::Inc
        } else if opcode == 0x21 {
            ByteCodeInstruction::Dec
        } else {
            ByteCodeInstruction::PrintBool
        }
    }

    /// Decodes the instruction that starts at position `at` of `code`, after testing
    /// that a whole instruction stands there.
    pub fn decode_at(code: &Vec<usize>, at: usize) -> (r: Option<(ByteCodeInstruction, usize)>)
        ensures
            r == decoding_at(code@, at as int),
            r matches Some(found) ==> found.1 == width_of(found.0) && at + found.1 <= code@.len()
                && encoding(found.0) == code@.subrange(at as int, at + found.1),
    {
        if at >= code.len() {
            return None;
        }
        let opcode = code[at];
        if opcode < 1 || opcode > 0x22 || opcode == 0x06 {
            return None;
        }
        let ghost rest = code@.subrange(at + 1, code@.len() as int);
        let needs = opcode == 0x01 || opcode == 0x07 || opcode == 0x08 || opcode == 0x09
            || opcode == 0x1A || opcode == 0x1B || opcode == 0x1D || opcode == 0x1E;
        if needs {
            if at + 1 >= code.len() {
                assert(rest.len() == 0);
                return None;
            }
            let operand = code[at + 1];
            assert(rest[0] == operand);
            let instruction = Self::from_parts(opcode, operand);
            assert(encoding(instruction) =~= code@.subrange(at as int, at + 2));
            Some((instruction, 2))
        } else {
            let instruction = Self::from_parts(opcode, 0);
            assert(encoding(instruction) =~= code@.subrange(at as int, at + 1));
            Some((instruction, 1))
        }
    }
}

/// Decoding the words of an encoded instruction gives the instruction back,
/// together with the number of words it was encoded as.
pub proof fn lemma_decode_encode(i: ByteCodeInstruction)
    ensures
        decodable(encoding(i)[0], encoding(i).subrange(1, encoding(i).len() as int)),
        decoding(encoding(i)[0], encoding(i).subrange(1, encoding(i).len() as int)) == (
            i,
            encoding(i).len() as usize,
        ),
{
}

/// An encoded instruction that stands at position `at` of a code sequence is the one
/// that is decoded there, whatever follows it.
pub proof fn lemma_decode_at_encoded(code: Seq<usize>, at: int, i: ByteCodeInstruction)
    requires
        0 <= at,
        at + encoding(i).len() <= code.len(),
        code.subrange(at, at + encoding(i).len()) == encoding(i),
    ensures
        decoding_at(code, at) == Some((i, encoding(i).len() as usize)),
{
    let e = encoding(i);
    assert(code[at] == code.subrange(at, at + e.len())[0]);
    if operand_of(i) is Some {
        assert(code[at + 1] == code.subrange(at, at + e.len())[1]);
        assert(code.subrange(at + 1, code.len() as int)[0] == code[at + 1]);
    }
}

/// Encoding the instruction that was decoded from valid words gives those words back.
pub proof fn lemma_encode_decode(opcode: usize, arguments: Seq<usize>)
    requires
        decodable(opcode, arguments),
    ensures
        encoding(decoding(opcode, arguments).0) == if takes_operand(opcode) {
            seq![opcode, arguments[0]]
        } else {
            seq![opcode]
        },
{
}

} // verus!
