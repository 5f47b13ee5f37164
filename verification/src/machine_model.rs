//! The mathematical model of the stack machine: the effect of each instruction, of a
//! step and of a run, and how programs are loaded.

use vstd::prelude::*;
use crate::bytecode::{ByteCodeInstruction, decoding_at, encoding};
use crate::lowering_model::FrameModel;
use crate::text::decimal_text;

verus! {

/// Why the machine stopped before the end of the code.
#[derive(Clone, Copy, Debug, PartialEq, Eq, Structural)]
pub enum VmError {
    /// The program counter stands on a word that starts no instruction.
    BadInstruction,
    /// An instruction wanted more values than the operand stack holds.
    StackUnderflow,
    /// A list pointer or an index reaches outside the heap.
    BadAddress,
    /// A local slot was read that was never written, or written beyond the next free slot.
    BadLocal,
    /// A jump names a label that the code does not hold.
    BadLabel,
    /// A call names no function of the program.
    BadFunction,
    DivisionByZero,
    /// The heap cannot grow any further.
    HeapExhausted,
    /// The allowed number of steps was used up before the end of the code was reached.
    StepLimit,
}

/// The mathematical form of the machine.
#[verifier::ext_equal]
pub struct Machine {
    /// The program counter: an index into `rom`.
    pub pc: usize,
    /// The code: the encoded instructions of every program loaded so far.
    pub rom: Seq<usize>,
    /// The operand stack, bottom first.
    pub stack: Seq<usize>,
    /// The heap. A list of `n` elements at pointer `p` is `n` at `heap[p]`, followed
    /// by the elements.
    pub heap: Seq<usize>,
    pub locals: Seq<usize>,
    /// The code offset of each label, in the order the labels were loaded.
    pub labels: Seq<(usize, usize)>,
    /// The return address.
    pub rsp: usize,
    /// The lines printed so far.
    pub output: Seq<Seq<char>>,
}

/// `n` zeros.
pub open spec fn zeros(n: nat) -> Seq<usize> {
    Seq::new(n, |i: int| 0usize)
}

/// The state of a new machine: no code, empty stack and heap, eight local slots.
pub open spec fn initial_machine() -> Machine {
    Machine {
        pc: 0,
        rom: Seq::empty(),
        stack: Seq::empty(),
        heap: Seq::empty(),
        locals: zeros(8),
        labels: Seq::empty(),
        rsp: 0,
        output: Seq::empty(),
    }
}

/// The offset that the latest of the first `n` entries of `table` gives to `key`.
pub open spec fn offset_of(table: Seq<(usize, usize)>, key: usize, n: nat) -> Option<usize>
    decreases n,
{
    if n == 0 || n > table.len() {
        None
    } else if table[n - 1].0 == key {
        Some(table[n - 1].1)
    } else {
        offset_of(table, key, (n - 1) as nat)
    }
}

/// The code offset that the latest of the first `n` entries of `functions` gives to `name`.
pub open spec fn address_of(functions: Seq<(Seq<char>, usize)>, name: Seq<char>, n: nat) -> Option<
    usize,
>
    decreases n,
{
    if n == 0 || n > functions.len() {
        None
    } else if functions[n - 1].0 == name {
        Some(functions[n - 1].1)
    } else {
        address_of(functions, name, (n - 1) as nat)
    }
}

/// The code offset of the function that slot `index` of the constant pool names.
pub open spec fn call_target(
    constants: Seq<Seq<char>>,
    functions: Seq<(Seq<char>, usize)>,
    index: usize,
) -> Option<usize> {
    if index < constants.len() {
        address_of(functions, constants[index as int], functions.len())
    } else {
        None
    }
}

/// The word that stands for a truth value.
pub open spec fn truth(b: bool) -> usize {
    if b {
        1
    } else {
        0
    }
}

/// What an instruction with two operands leaves for the operands `b`, pushed first,
/// and `a`, pushed last. Addition, subtraction and multiplication wrap around;
/// division and remainder are those of unsigned words; comparisons leave one or zero.
pub open spec fn binary_result(i: ByteCodeInstruction, b: usize, a: usize) -> Option<usize> {
    match i {
        ByteCodeInstruction::Add => Some(b.wrapping_add(a)),
        ByteCodeInstruction::Sub => Some(b.wrapping_sub(a)),
        ByteCodeInstruction::Mul => Some(b.wrapping_mul(a)),
        ByteCodeInstruction::Div => if a == 0 {
            None
        } else {
            Some((b / a) as usize)
        },
        ByteCodeInstruction::Mod => if a == 0 {
            None
        } else {
            Some((b % a) as usize)
        },
        ByteCodeInstruction::Gt => Some(truth(b > a)),
        ByteCodeInstruction::Lt => Some(truth(b < a)),
        ByteCodeInstruction::GtEq => Some(truth(b >= a)),
        ByteCodeInstruction::LtEq => Some(truth(b <= a)),
        ByteCodeInstruction::Eq => Some(truth(b == a)),
        _ => None,
    }
}

/// Whether an instruction takes two operands and leaves one result.
pub open spec fn is_binary(i: ByteCodeInstruction) -> bool {
    i is Add || i is Sub || i is Mul || i is Div || i is Mod || i is Gt || i is Lt || i is GtEq
        || i is LtEq || i is Eq
}

/// The decimal texts of the first `n` words of `words`, separated by single spaces.
pub open spec fn words_text(words: Seq<usize>, n: nat) -> Seq<char>
    decreases n,
{
    if n == 0 || n > words.len() {
        Seq::empty()
    } else if n == 1 {
        decimal_text(words[0] as nat)
    } else {
        words_text(words, (n - 1) as nat) + " "@ + decimal_text(words[n - 1] as nat)
    }
}

/// The line that printing the list `elements` writes.
pub open spec fn list_line(elements: Seq<usize>) -> Seq<char> {
    "["@ + words_text(elements, elements.len()) + "]"@
}

/// The line that printing a truth value writes.
pub open spec fn bool_line(word: usize) -> Seq<char> {
    if word > 0 {
        "true"@
    } else {
        "false"@
    }
}

/// The elements of the list at pointer `ptr` of `heap`, where a whole list stands there.
pub open spec fn list_at(heap: Seq<usize>, ptr: usize) -> Option<Seq<usize>> {
    if ptr < heap.len() && ptr + 1 + heap[ptr as int] <= heap.len() {
        Some(heap.subrange(ptr + 1, ptr + 1 + heap[ptr as int]))
    } else {
        None
    }
}

/// The `n` values below the top of `stack`, the topmost first.
pub open spec fn popped(stack: Seq<usize>, n: nat) -> Seq<usize> {
    Seq::new(n, |i: int| stack[stack.len() - 2 - i])
}

/// The effect of one decoded instruction on a machine whose program counter already
/// stands behind it.
pub open spec fn execute(
    m: Machine,
    i: ByteCodeInstruction,
    constants: Seq<Seq<char>>,
    functions: Seq<(Seq<char>, usize)>,
) -> Result<Machine, VmError> {
    let n = m.stack.len() as int;
    match i {
        ByteCodeInstruction::Push(value) => Ok(Machine { stack: m.stack.push(value), ..m }),
        ByteCodeInstruction::PushBlock { index } => Ok(Machine { stack: m.stack.push(index), ..m }),
        ByteCodeInstruction::Label(_) => Ok(m),
        ByteCodeInstruction::Pop => if n >= 1 {
            Ok(Machine { stack: m.stack.take(n - 1), ..m })
        } else {
            Ok(m)
        },
        ByteCodeInstruction::Dup => if n >= 1 {
            Ok(Machine { stack: m.stack.push(m.stack[n - 1]), ..m })
        } else {
            Err(VmError::StackUnderflow)
        },
        ByteCodeInstruction::Swap => if n >= 2 {
            Ok(
                Machine {
                    stack: m.stack.take(n - 2).push(m.stack[n - 1]).push(m.stack[n - 2]),
                    ..m
                },
            )
        } else {
            Err(VmError::StackUnderflow)
        },
        ByteCodeInstruction::Over => if n >= 2 {
            Ok(Machine { stack: m.stack.push(m.stack[n - 2]), ..m })
        } else {
            Err(VmError::StackUnderflow)
        },
        ByteCodeInstruction::Rot => if n >= 3 {
            Ok(
                Machine {
                    stack: m.stack.take(n - 3).push(m.stack[n - 2]).push(m.stack[n - 1]).push(
                        m.stack[n - 3],
                    ),
                    ..m
                },
            )
        } else {
            Err(VmError::StackUnderflow)
        },
        ByteCodeInstruction::Inc => if n >= 1 {
            Ok(Machine { stack: m.stack.take(n - 1).push(m.stack[n - 1].wrapping_add(1)), ..m })
        } else {
            Err(VmError::StackUnderflow)
        },
        ByteCodeInstruction::Dec => if n >= 1 {
            Ok(Machine { stack: m.stack.take(n - 1).push(m.stack[n - 1].wrapping_sub(1)), ..m })
        } else {
            Err(VmError::StackUnderflow)
        },
        ByteCodeInstruction::NewList => if n < 1 || n - 1 < m.stack[n - 1] {
            Err(VmError::StackUnderflow)
        } else if m.heap.len() + m.stack[n - 1] + 1 > usize::MAX {
            Err(VmError::HeapExhausted)
        } else {
            let length = m.stack[n - 1];
            Ok(
                Machine {
                    stack: m.stack.take(n - 1 - length).push(m.heap.len() as usize),
                    heap: m.heap.push(length) + popped(m.stack, length as nat),
                    ..m
                },
            )
        },
        ByteCodeInstruction::ListLen => if n < 1 {
            Err(VmError::StackUnderflow)
        } else if m.stack[n - 1] >= m.heap.len() {
            Err(VmError::BadAddress)
        } else {
            Ok(Machine { stack: m.stack.take(n - 1).push(m.heap[m.stack[n - 1] as int]), ..m })
        },
        ByteCodeInstruction::ListGet => if n < 2 {
            Err(VmError::StackUnderflow)
        } else if m.stack[n - 2] + m.stack[n - 1] + 1 >= m.heap.len() {
            Err(VmError::BadAddress)
        } else {
            Ok(
                Machine {
                    stack: m.stack.take(n - 2).push(m.heap[m.stack[n - 2] + m.stack[n - 1] + 1]),
                    ..m
                },
            )
        },
        ByteCodeInstruction::Print => if n >= 1 {
            Ok(
                Machine {
                    stack: m.stack.take(n - 1),
                    output: m.output.push(decimal_text(m.stack[n - 1] as nat)),
                    ..m
                },
            )
        } else {
            Err(VmError::StackUnderflow)
        },
        ByteCodeInstruction::PrintBool => if n >= 1 {
            Ok(
                Machine {
                    stack: m.stack.take(n - 1),
                    output: m.output.push(bool_line(m.stack[n - 1])),
                    ..m
                },
            )
        } else {
            Err(VmError::StackUnderflow)
        },
        ByteCodeInstruction::PrintList => if n < 1 {
            Err(VmError::StackUnderflow)
        } else {
            match list_at(m.heap, m.stack[n - 1]) {
                Some(elements) => Ok(
                    Machine {
                        stack: m.stack.take(n - 1),
                        output: m.output.push(list_line(elements)),
                        ..m
                    },
                ),
                None => Err(VmError::BadAddress),
            }
        },
        ByteCodeInstruction::CallStatic { index } => match call_target(constants, functions, index) {
            Some(address) => Ok(Machine { pc: address, rsp: m.pc, ..m }),
            None => Err(VmError::BadFunction),
        },
        ByteCodeInstruction::CallDynamic => if n < 1 {
            Err(VmError::StackUnderflow)
        } else {
            match call_target(constants, functions, m.stack[n - 1]) {
                Some(address) => Ok(
                    Machine { pc: address, rsp: m.pc, stack: m.stack.take(n - 1), ..m },
                ),
                None => Err(VmError::BadFunction),
            }
        },
        ByteCodeInstruction::Return => Ok(Machine { pc: m.rsp, rsp: 0, ..m }),
        ByteCodeInstruction::Store { index } => if n < 1 {
            Err(VmError::StackUnderflow)
        } else if index < m.locals.len() {
            Ok(
                Machine {
                    stack: m.stack.take(n - 1),
                    locals: m.locals.update(index as int, m.stack[n - 1]),
                    ..m
                },
            )
        } else if index == m.locals.len() {
            Ok(Machine { stack: m.stack.take(n - 1), locals: m.locals.push(m.stack[n - 1]), ..m })
        } else {
            Err(VmError::BadLocal)
        },
        ByteCodeInstruction::Load { index } => if index < m.locals.len() {
            Ok(Machine { stack: m.stack.push(m.locals[index as int]), ..m })
        } else {
            Err(VmError::BadLocal)
        },
        ByteCodeInstruction::Jump { label } => match offset_of(m.labels, label, m.labels.len()) {
            Some(target) => Ok(Machine { pc: target, ..m }),
            None => Err(VmError::BadLabel),
        },
        ByteCodeInstruction::JumpIfFalse { label } => if n < 1 {
            Err(VmError::StackUnderflow)
        } else if m.stack[n - 1] != 0 {
            Ok(Machine { stack: m.stack.take(n - 1), ..m })
        } else {
            match offset_of(m.labels, label, m.labels.len()) {
                Some(target) => Ok(Machine { pc: target, stack: m.stack.take(n - 1), ..m }),
                None => Err(VmError::BadLabel),
            }
        },
        _ => if n < 2 {
            Err(VmError::StackUnderflow)
        } else {
            match binary_result(i, m.stack[n - 2], m.stack[n - 1]) {
                Some(word) => Ok(Machine { stack: m.stack.take(n - 2).push(word), ..m }),
                None => Err(VmError::DivisionByZero),
            }
        },
    }
}

/// One step of the machine: the instruction at the program counter is decoded, the
/// program counter moves behind it, and the instruction is executed.
pub open spec fn step(m: Machine, constants: Seq<Seq<char>>, functions: Seq<(Seq<char>, usize)>)
    -> Result<Machine, VmError> {
    match decoding_at(m.rom, m.pc as int) {
        Some((i, width)) => execute(
            Machine { pc: (m.pc + width) as usize, ..m },
            i,
            constants,
            functions,
        ),
        None => Err(VmError::BadInstruction),
    }
}

/// Running the machine for at most `fuel` steps: the state it stops in and why it
/// stopped there, `None` where the program counter reached the end of the code.
/// A step that fails leaves the machine as it was before that step.
pub open spec fn run(
    m: Machine,
    constants: Seq<Seq<char>>,
    functions: Seq<(Seq<char>, usize)>,
    fuel: nat,
) -> (Machine, Option<VmError>)
    decreases fuel,
{
    if m.pc >= m.rom.len() {
        (m, None)
    } else if fuel == 0 {
        (m, Some(VmError::StepLimit))
    } else {
        match step(m, constants, functions) {
            Ok(next) => run(next, constants, functions, (fuel - 1) as nat),
            Err(e) => (m, Some(e)),
        }
    }
}

/// Loading the instructions of `code` from position `from` on: each is encoded at the
/// end of the code, and a label is entered in the label table with the offset it
/// stands at.
pub open spec fn load_code(m: Machine, code: Seq<ByteCodeInstruction>, from: nat) -> Machine
    decreases code.len() - from,
{
    if from >= code.len() {
        m
    } else {
        let i = code[from as int];
        let labels = match i {
            ByteCodeInstruction::Label(label) => m.labels.push((label, m.rom.len() as usize)),
            _ => m.labels,
        };
        load_code(Machine { labels, rom: m.rom + encoding(i), ..m }, code, from + 1)
    }
}

/// `locals` with zeros added at its end until it has `n` slots.
pub open spec fn grown(locals: Seq<usize>, n: usize) -> Seq<usize> {
    if locals.len() < n {
        locals + zeros((n - locals.len()) as nat)
    } else {
        locals
    }
}

/// Loading the frames of `program` from position `from` on: the offset each starts at
/// is entered in the function table under the frame's name, the program counter is set
/// to the start of a frame named `main`, the local slots grow to what the frame needs,
/// and the frame's code is loaded.
pub open spec fn load_frames(
    m: Machine,
    functions: Seq<(Seq<char>, usize)>,
    program: Seq<(Seq<char>, FrameModel)>,
    from: nat,
) -> (Machine, Seq<(Seq<char>, usize)>)
    decreases program.len() - from,
{
    if from >= program.len() {
        (m, functions)
    } else {
        let (name, frame) = program[from as int];
        let start = m.rom.len() as usize;
        let entered = Machine {
            pc: if name == "main"@ {
                start
            } else {
                m.pc
            },
            locals: grown(m.locals, frame.max_locals),
            ..m
        };
        load_frames(
            load_code(entered, frame.instructions, 0),
            functions.push((name, start)),
            program,
            from + 1,
        )
    }
}

/// Loading `program` and running it for at most `fuel` steps.
pub open spec fn interpret_program(
    m: Machine,
    program: Seq<(Seq<char>, FrameModel)>,
    constants: Seq<Seq<char>>,
    fuel: nat,
) -> (Machine, Option<VmError>) {
    let (loaded, functions) = load_frames(m, Seq::empty(), program, 0);
    run(loaded, constants, functions, fuel)
}

} // verus!
