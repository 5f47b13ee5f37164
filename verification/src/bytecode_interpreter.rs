//! The stack machine that executes bytecode.

use vstd::prelude::*;
use vstd::string::*;
use crate::bytecode::ByteCodeInstruction;
use crate::lowerer::{StackFrame, program_of, slots_of};
use crate::text::{decimal_string, push_decimal};
use crate::typed_op::names_of;
use crate::machine_model::{
    Machine, VmError, address_of, binary_result, call_target, execute, grown, initial_machine,
    interpret_program, is_binary, list_at, list_line, load_code, load_frames, offset_of, popped,
    run, step, truth, words_text, zeros,
};

verus! {

/// The stack machine that executes bytecode.
///
/// It holds the code of every program loaded so far, the operand stack, the heap, the
/// local slots, the label table and one return address. What the program prints is
/// collected in `output`, one line each.
pub struct BytecodeInterpreter {
    pub pc: usize,
    pub rom: Vec<usize>,
    pub stack: Vec<usize>,
    pub heap: Vec<usize>,
    pub locals: Vec<usize>,
    pub labels: Vec<(usize, usize)>,
    pub rsp: usize,
    pub output: Vec<String>,
}

impl View for BytecodeInterpreter {
    type V = Machine;

    open spec fn view(&self) -> Machine {
        Machine {
            pc: self.pc,
            rom: self.rom@,
            stack: self.stack@,
            heap: self.heap@,
            locals: self.locals@,
            labels: self.labels@,
            rsp: self.rsp,
            output: names_of(self.output@),
        }
    }
}

/// Whether `r`, with the machine in state `after`, is what `wanted` asks for of a
/// machine that was in state `before`: the wanted state, or the wanted error with the
/// machine unchanged.
pub open spec fn stepped(
    r: Result<(), VmError>,
    before: Machine,
    after: Machine,
    wanted: Result<Machine, VmError>,
) -> bool {
    match wanted {
        Ok(m) => r is Ok && after == m,
        Err(e) => r is Err && r->Err_0 == e && after == before,
    }
}

/// The error that a result holds, if any.
pub open spec fn failure(r: Result<(), VmError>) -> Option<VmError> {
    match r {
        Ok(_) => None,
        Err(e) => Some(e),
    }
}

/// The word that stands for a truth value.
fn truth_word(b: bool) -> (r: usize)
    ensures
        r == truth(b),
{
    if b {
        1
    } else {
        0
    }
}

/// The code offset that the latest entry of `functions` gives to `name`.
fn function_address(functions: &Vec<(String, usize)>, name: &String) -> (r: Option<usize>)
    ensures
        r == address_of(slots_of(functions@), name@, functions@.len()),
{
    let mut n: usize = functions.len();
    while n > 0
        invariant
            n <= functions.len(),
            address_of(slots_of(functions@), name@, functions@.len()) == address_of(
                slots_of(functions@),
                name@,
                n as nat,
            ),
        decreases n,
    {
        if functions[n - 1].0.eq(name) {
            return Some(functions[n - 1].1);
        }
        n -= 1;
    }
    None
}

/// The code offset of the function that slot `index` of the constant pool names.
fn target_of(constants: &Vec<String>, functions: &Vec<(String, usize)>, index: usize) -> (r:
    Option<usize>)
    ensures
        r == call_target(names_of(constants@), slots_of(functions@), index),
{
    if index < constants.len() {
        function_address(functions, &constants[index])
    } else {
        None
    }
}

/// The line that printing the list at pointer `ptr` writes, where a whole list stands there.
fn list_string(heap: &Vec<usize>, ptr: usize) -> (r: Option<String>)
    ensures
        match list_at(heap@, ptr) {
            Some(elements) => r is Some && r->0@ == list_line(elements),
            None => r is None,
        },
{
    if ptr >= heap.len() {
        return None;
    }
    let length: usize = heap[ptr];
    if length > heap.len() - ptr - 1 {
        return None;
    }
    let ghost elements = heap@.subrange(ptr + 1, ptr + 1 + length);
    let mut line = String::from_str("[");
    let mut i: usize = 0;
    assert(line@ =~= "["@ + words_text(elements, 0));
    while i < length
        invariant
            i <= length,
            ptr + 1 + length <= heap.len(),
            elements == heap@.subrange(ptr + 1, ptr + 1 + length),
            line@ == "["@ + words_text(elements, i as nat),
        decreases length - i,
    {
        if i > 0 {
            line.append(" ");
        }
        push_decimal(&mut line, heap[ptr + 1 + i]);
        i += 1;
        assert(line@ =~= "["@ + words_text(elements, i as nat));
    }
    line.append("]");
    Some(line)
}

/// The offset that the latest entry of `labels` gives to `label`.
fn label_offset(labels: &Vec<(usize, usize)>, label: usize) -> (r: Option<usize>)
    ensures
        r == offset_of(labels@, label, labels@.len()),
{
    let mut n: usize = labels.len();
    while n > 0
        invariant
            n <= labels.len(),
            offset_of(labels@, label, labels@.len()) == offset_of(labels@, label, n as nat),
        decreases n,
    {
        if labels[n - 1].0 == label {
            return Some(labels[n - 1].1);
        }
        n -= 1;
    }
    None
}

impl BytecodeInterpreter {
    /// A machine with no code, an empty stack and heap, and eight local slots.
    pub fn new() -> (r: BytecodeInterpreter)
        ensures
            r@ == initial_machine(),
    {
        let mut locals: Vec<usize> = Vec::new();
        let mut k: usize = 0;
        while k < 8
            invariant
                k <= 8,
                locals@ == zeros(k as nat),
            decreases 8 - k,
        {
            locals.push(0);
            k += 1;
            assert(locals@ =~= zeros(k as nat));
        }
        let r = BytecodeInterpreter {
            pc: 0,
            rom: Vec::new(),
            stack: Vec::new(),
            heap: Vec::new(),
            locals,
            labels: Vec::new(),
            rsp: 0,
            output: Vec::new(),
        };
        assert(r@ =~~= initial_machine());
        r
    }

    /// Reserves `size` zeroed words at the end of the heap and returns the offset of
    /// the first.
    pub fn allocate(&mut self, size: usize) -> (index: usize)
        ensures
            index == old(self)@.heap.len(),
            final(self)@ == (Machine { heap: old(self)@.heap + zeros(size as nat), ..old(self)@ }),
    {
        let index: usize = self.heap.len();
        let mut k: usize = 0;
        assert(self.heap@ =~= old(self)@.heap + zeros(0));
        while k < size
            invariant
                k <= size,
                self@ == (Machine { heap: old(self)@.heap + zeros(k as nat), ..old(self)@ }),
            decreases size - k,
        {
            self.heap.push(0);
            k += 1;
            assert(self.heap@ =~= old(self)@.heap + zeros(k as nat));
        }
        index
    }

    /// Removes the top of the operand stack.
    fn drop_top(&mut self) -> (word: usize)
        requires
            old(self)@.stack.len() >= 1,
        ensures
            word == old(self)@.stack.last(),
            final(self)@ == (Machine {
                stack: old(self)@.stack.take(old(self)@.stack.len() - 1),
                ..old(self)@
            }),
    {
        let word = match self.stack.pop() {
            Some(w) => w,
            None => 0,
        };
        assert(self.stack@ =~= old(self)@.stack.take(old(self)@.stack.len() - 1));
        word
    }

    /// Appends a line to the output.
    fn print_line(&mut self, line: String)
        ensures
            final(self)@ == (Machine { output: old(self)@.output.push(line@), ..old(self)@ }),
    {
        self.output.push(line);
        assert(names_of(self.output@) =~= old(self)@.output.push(line@));
    }

    /// Executes an instruction that takes two operands and leaves one result.
    fn execute_binary(
        &mut self,
        opcode: &ByteCodeInstruction,
        constants: &Vec<String>,
        functions: &Vec<(String, usize)>,
    ) -> (r: Result<(), VmError>)
        requires
            is_binary(*opcode),
        ensures
            stepped(
                r,
                old(self)@,
                final(self)@,
                execute(old(self)@, *opcode, names_of(constants@), slots_of(functions@)),
            ),
    {
        let n: usize = self.stack.len();
        if n < 2 {
            return Err(VmError::StackUnderflow);
        }
        let a: usize = self.stack[n - 1];
        let b: usize = self.stack[n - 2];
        let word: usize = match opcode {
            ByteCodeInstruction::Add => b.wrapping_add(a),
            ByteCodeInstruction::Sub => b.wrapping_sub(a),
            ByteCodeInstruction::Mul => b.wrapping_mul(a),
            ByteCodeInstruction::Div => {
                if a == 0 {
                    return Err(VmError::DivisionByZero);
                }
                b / a
            },
            ByteCodeInstruction::Mod => {
                if a == 0 {
                    return Err(VmError::DivisionByZero);
                }
                b % a
            },
            ByteCodeInstruction::Gt => truth_word(b > a),
            ByteCodeInstruction::Lt => truth_word(b < a),
            ByteCodeInstruction::GtEq => truth_word(b >= a),
            ByteCodeInstruction::LtEq => truth_word(b <= a),
            _ => truth_word(b == a),
        };
        assert(binary_result(*opcode, b, a) == Some(word));
        self.drop_top();
        self.drop_top();
        self.stack.push(word);
        assert(self.stack@ =~= old(self)@.stack.take(n - 2).push(word));
        Ok(())
    }

    /// Executes an instruction that only rearranges or changes the top of the stack.
    fn execute_shuffle(
        &mut self,
        opcode: &ByteCodeInstruction,
        constants: &Vec<String>,
        functions: &Vec<(String, usize)>,
    ) -> (r: Result<(), VmError>)
        requires
            *opcode is Pop || *opcode is Dup || *opcode is Swap || *opcode is Over || *opcode is Rot
                || *opcode is Inc || *opcode is Dec,
        ensures
            stepped(
                r,
                old(self)@,
                final(self)@,
                execute(old(self)@, *opcode, names_of(constants@), slots_of(functions@)),
            ),
    {
        let n: usize = self.stack.len();
        match opcode {
            ByteCodeInstruction::Pop => {
                if n >= 1 {
                    self.drop_top();
                }
                Ok(())
            },
            ByteCodeInstruction::Dup => {
                if n < 1 {
                    return Err(VmError::StackUnderflow);
                }
                let a: usize = self.stack[n - 1];
                self.stack.push(a);
                Ok(())
            },
            ByteCodeInstruction::Swap => {
                if n < 2 {
                    return Err(VmError::StackUnderflow);
                }
                let a: usize = self.drop_top();
                let b: usize = self.drop_top();
                self.stack.push(a);
                self.stack.push(b);
                assert(self.stack@ =~= old(self)@.stack.take(n - 2).push(a).push(b));
                Ok(())
            },
            ByteCodeInstruction::Over => {
                if n < 2 {
                    return Err(VmError::StackUnderflow);
                }
                let b: usize = self.stack[n - 2];
                self.stack.push(b);
                Ok(())
            },
            ByteCodeInstruction::Rot => {
                if n < 3 {
                    return Err(VmError::StackUnderflow);
                }
                let a: usize = self.drop_top();
                let b: usize = self.drop_top();
                let c: usize = self.drop_top();
                self.stack.push(b);
                self.stack.push(a);
                self.stack.push(c);
                assert(self.stack@ =~= old(self)@.stack.take(n - 3).push(b).push(a).push(c));
                Ok(())
            },
            ByteCodeInstruction::Inc => {
                if n < 1 {
                    return Err(VmError::StackUnderflow);
                }
                let a: usize = self.drop_top();
                self.stack.push(a.wrapping_add(1));
                Ok(())
            },
            _ => {
                if n < 1 {
                    return Err(VmError::StackUnderflow);
                }
                let a: usize = self.drop_top();
                self.stack.push(a.wrapping_sub(1));
                Ok(())
            },
        }
    }

    /// Executes an instruction that reads or makes a list.
    fn execute_list(
        &mut self,
        opcode: &ByteCodeInstruction,
        constants: &Vec<String>,
        functions: &Vec<(String, usize)>,
    ) -> (r: Result<(), VmError>)
        requires
            *opcode is NewList || *opcode is ListLen || *opcode is ListGet,
        ensures
            stepped(
                r,
                old(self)@,
                final(self)@,
                execute(old(self)@, *opcode, names_of(constants@), slots_of(functions@)),
            ),
    {
        let n: usize = self.stack.len();
        match opcode {
            ByteCodeInstruction::NewList => {
                if n < 1 {
                    return Err(VmError::StackUnderflow);
                }
                let length: usize = self.stack[n - 1];
                if n - 1 < length {
                    return Err(VmError::StackUnderflow);
                }
                if self.heap.len() > usize::MAX - length - 1 {
                    return Err(VmError::HeapExhausted);
                }
                let ptr: usize = self.heap.len();
                self.drop_top();
                self.heap.push(length);
                let mut i: usize = 0;
                assert(self.heap@ =~= old(self)@.heap.push(length) + popped(old(self)@.stack, 0));
                while i < length
                    invariant
                        i <= length,
                        length <= n - 1,
                        n == old(self)@.stack.len(),
                        self@ == (Machine {
                            stack: old(self)@.stack.take(n - 1 - i),
                            heap: old(self)@.heap.push(length) + popped(old(self)@.stack, i as nat),
                            ..old(self)@
                        }),
                    decreases length - i,
                {
                    let element: usize = self.drop_top();
                    self.heap.push(element);
                    i += 1;
                    assert(self.stack@ =~= old(self)@.stack.take(n - 1 - i));
                    assert(self.heap@ =~= old(self)@.heap.push(length) + popped(
                        old(self)@.stack,
                        i as nat,
                    ));
                }
                self.stack.push(ptr);
                Ok(())
            },
            ByteCodeInstruction::ListLen => {
                if n < 1 {
                    return Err(VmError::StackUnderflow);
                }
                let ptr: usize = self.stack[n - 1];
                if ptr >= self.heap.len() {
                    return Err(VmError::BadAddress);
                }
                let length: usize = self.heap[ptr];
                self.drop_top();
                self.stack.push(length);
                Ok(())
            },
            _ => {
                if n < 2 {
                    return Err(VmError::StackUnderflow);
                }
                let index: usize = self.stack[n - 1];
                let ptr: usize = self.stack[n - 2];
                if ptr >= self.heap.len() || index >= self.heap.len() - ptr - 1 {
                    return Err(VmError::BadAddress);
                }
                let element: usize = self.heap[ptr + index + 1];
                self.drop_top();
                self.drop_top();
                self.stack.push(element);
                assert(self.stack@ =~= old(self)@.stack.take(n - 2).push(element));
                Ok(())
            },
        }
    }

    /// Executes an instruction that prints the top of the stack.
    fn execute_print(
        &mut self,
        opcode: &ByteCodeInstruction,
        constants: &Vec<String>,
        functions: &Vec<(String, usize)>,
    ) -> (r: Result<(), VmError>)
        requires
            *opcode is Print || *opcode is PrintBool || *opcode is PrintList,
        ensures
            stepped(
                r,
                old(self)@,
                final(self)@,
                execute(old(self)@, *opcode, names_of(constants@), slots_of(functions@)),
            ),
    {
        let n: usize = self.stack.len();
        if n < 1 {
            return Err(VmError::StackUnderflow);
        }
        let word: usize = self.stack[n - 1];
        match opcode {
            ByteCodeInstruction::Print => {
                self.drop_top();
                self.print_line(decimal_string(word));
                Ok(())
            },
            ByteCodeInstruction::PrintBool => {
                self.drop_top();
                if word > 0 {
                    self.print_line(String::from_str("true"));
                } else {
                    self.print_line(String::from_str("false"));
                }
                Ok(())
            },
            _ => {
                match list_string(&self.heap, word) {
                    Some(line) => {
                        self.drop_top();
                        self.print_line(line);
                        Ok(())
                    },
                    None => Err(VmError::BadAddress),
                }
            },
        }
    }

    /// Executes an instruction that moves the program counter.
    fn execute_control(
        &mut self,
        opcode: &ByteCodeInstruction,
        constants: &Vec<String>,
        functions: &Vec<(String, usize)>,
    ) -> (r: Result<(), VmError>)
        requires
            *opcode is CallStatic || *opcode is CallDynamic || *opcode is Return || *opcode is Jump
                || *opcode is JumpIfFalse,
        ensures
            stepped(
                r,
                old(self)@,
                final(self)@,
                execute(old(self)@, *opcode, names_of(constants@), slots_of(functions@)),
            ),
    {
        let n: usize = self.stack.len();
        match opcode {
            ByteCodeInstruction::CallStatic { index } => {
                match target_of(constants, functions, *index) {
                    Some(address) => {
                        self.rsp = self.pc;
                        self.pc = address;
                        Ok(())
                    },
                    None => Err(VmError::BadFunction),
                }
            },
            ByteCodeInstruction::CallDynamic => {
                if n < 1 {
                    return Err(VmError::StackUnderflow);
                }
                match target_of(constants, functions, self.stack[n - 1]) {
                    Some(address) => {
                        self.drop_top();
                        self.rsp = self.pc;
                        self.pc = address;
                        Ok(())
                    },
                    None => Err(VmError::BadFunction),
                }
            },
            ByteCodeInstruction::Return => {
                self.pc = self.rsp;
                self.rsp = 0;
                Ok(())
            },
            ByteCodeInstruction::Jump { label } => {
                match label_offset(&self.labels, *label) {
                    Some(target) => {
                        self.pc = target;
                        Ok(())
                    },
                    None => Err(VmError::BadLabel),
                }
            },
            ByteCodeInstruction::JumpIfFalse { label } => {
                if n < 1 {
                    return Err(VmError::StackUnderflow);
                }
                if self.stack[n - 1] != 0 {
                    self.drop_top();
                    return Ok(());
                }
                match label_offset(&self.labels, *label) {
                    Some(target) => {
                        self.drop_top();
                        self.pc = target;
                        Ok(())
                    },
                    None => Err(VmError::BadLabel),
                }
            },
            _ => Ok(()),
        }
    }

    /// Executes one decoded instruction; the program counter already stands behind it.
    pub fn interpret_op(
        &mut self,
        opcode: &ByteCodeInstruction,
        constants: &Vec<String>,
        functions: &Vec<(String, usize)>,
    ) -> (r: Result<(), VmError>)
        ensures
            stepped(
                r,
                old(self)@,
                final(self)@,
                execute(old(self)@, *opcode, names_of(constants@), slots_of(functions@)),
            ),
    {
        match opcode {
            ByteCodeInstruction::Push(value) => {
                self.stack.push(*value);
                Ok(())
            },
            ByteCodeInstruction::PushBlock { index } => {
                self.stack.push(*index);
                Ok(())
            },
            ByteCodeInstruction::Label(_) => Ok(()),
            ByteCodeInstruction::Pop
            | ByteCodeInstruction::Dup
            | ByteCodeInstruction::Swap
            | ByteCodeInstruction::Over
            | ByteCodeInstruction::Rot
            | ByteCodeInstruction::Inc
            | ByteCodeInstruction::Dec => self.execute_shuffle(opcode, constants, functions),
            ByteCodeInstruction::NewList
            | ByteCodeInstruction::ListLen
            | ByteCodeInstruction::ListGet => self.execute_list(opcode, constants, functions),
            ByteCodeInstruction::Print
            | ByteCodeInstruction::PrintBool
            | ByteCodeInstruction::PrintList => self.execute_print(opcode, constants, functions),
            ByteCodeInstruction::CallStatic { .. }
            | ByteCodeInstruction::CallDynamic
            | ByteCodeInstruction::Return
            | ByteCodeInstruction::Jump { .. }
            | ByteCodeInstruction::JumpIfFalse { .. } => self.execute_control(
                opcode,
                constants,
                functions,
            ),
            ByteCodeInstruction::Store { index } => {
                let n: usize = self.stack.len();
                if n < 1 {
                    return Err(VmError::StackUnderflow);
                }
                if *index < self.locals.len() {
                    let word: usize = self.drop_top();
                    self.locals[*index] = word;
                    Ok(())
                } else if *index == self.locals.len() {
                    let word: usize = self.drop_top();
                    self.locals.push(word);
                    Ok(())
                } else {
                    Err(VmError::BadLocal)
                }
            },
            ByteCodeInstruction::Load { index } => {
                if *index < self.locals.len() {
                    self.stack.push(self.locals[*index]);
                    Ok(())
                } else {
                    Err(VmError::BadLocal)
                }
            },
            _ => self.execute_binary(opcode, constants, functions),
        }
    }

    /// Takes one step: decodes the instruction at the program counter, moves the
    /// program counter behind it and executes it.
    pub fn step(&mut self, constants: &Vec<String>, functions: &Vec<(String, usize)>) -> (r: Result<
        (),
        VmError,
    >)
        ensures
            stepped(
                r,
                old(self)@,
                final(self)@,
                step(old(self)@, names_of(constants@), slots_of(functions@)),
            ),
    {
        match ByteCodeInstruction::decode_at(&self.rom, self.pc) {
            Some((opcode, width)) => {
                let here: usize = self.pc;
                assert(here + width <= self.rom.len());
                self.pc = here + width;
                match self.interpret_op(&opcode, constants, functions) {
                    Ok(()) => Ok(()),
                    Err(e) => {
                        self.pc = here;
                        Err(e)
                    },
                }
            },
            None => Err(VmError::BadInstruction),
        }
    }

    /// Runs until the program counter reaches the end of the code, a step fails, or
    /// `max_steps` steps were taken.
    pub fn run(
        &mut self,
        constants: &Vec<String>,
        functions: &Vec<(String, usize)>,
        max_steps: usize,
    ) -> (r: Result<(), VmError>)
        ensures
            (final(self)@, failure(r)) == run(
                old(self)@,
                names_of(constants@),
                slots_of(functions@),
                max_steps as nat,
            ),
    {
        let ghost start = self@;
        let mut left: usize = max_steps;
        while self.pc < self.rom.len()
            invariant
                start == old(self)@,
                run(start, names_of(constants@), slots_of(functions@), max_steps as nat) == run(
                    self@,
                    names_of(constants@),
                    slots_of(functions@),
                    left as nat,
                ),
            decreases left,
        {
            if left == 0 {
                return Err(VmError::StepLimit);
            }
            match self.step(constants, functions) {
                Ok(()) => {},
                Err(e) => {
                    return Err(e);
                },
            }
            left -= 1;
        }
        Ok(())
    }

    /// Loads the instructions of `code` at the end of the code.
    fn load_instructions(&mut self, code: &Vec<ByteCodeInstruction>)
        ensures
            final(self)@ == load_code(old(self)@, code@, 0),
    {
        let ghost start = self@;
        let mut i: usize = 0;
        while i < code.len()
            invariant
                i <= code.len(),
                load_code(start, code@, 0) == load_code(self@, code@, i as nat),
            decreases code.len() - i,
        {
            match &code[i] {
                ByteCodeInstruction::Label(label) => {
                    self.labels.push((*label, self.rom.len()));
                },
                _ => {},
            }
            let mut words = code[i].to_binary();
            self.rom.append(&mut words);
            i += 1;
        }
    }

    /// Adds zeroed local slots until there are `wanted` of them.
    fn grow_locals(&mut self, wanted: usize)
        ensures
            final(self)@ == (Machine { locals: grown(old(self)@.locals, wanted), ..old(self)@ }),
    {
        let ghost locals = self.locals@;
        assert(locals =~= locals + zeros(0));
        while self.locals.len() < wanted
            invariant
                locals == old(self)@.locals,
                locals.len() <= self.locals@.len(),
                self.locals@.len() <= wanted || self.locals@.len() == locals.len(),
                self@ == (Machine {
                    locals: locals + zeros((self.locals@.len() - locals.len()) as nat),
                    ..old(self)@
                }),
            decreases wanted - self.locals.len(),
        {
            self.locals.push(0);
            assert(self.locals@ =~= locals + zeros((self.locals@.len() - locals.len()) as nat));
        }
        assert(self.locals@ =~= grown(locals, wanted));
    }

    /// Loads the frames of `program` and returns the offset that each starts at.
    pub fn load(&mut self, program: &Vec<(String, StackFrame)>) -> (functions: Vec<(String, usize)>)
        ensures
            (final(self)@, slots_of(functions@)) == load_frames(
                old(self)@,
                Seq::empty(),
                program_of(program@),
                0,
            ),
    {
        let ghost start = self@;
        let main_name = String::from_str("main");
        let mut functions: Vec<(String, usize)> = Vec::new();
        let mut i: usize = 0;
        assert(slots_of(functions@) =~= Seq::<(Seq<char>, usize)>::empty());
        while i < program.len()
            invariant
                i <= program.len(),
                main_name@ == "main"@,
                load_frames(start, Seq::empty(), program_of(program@), 0) == load_frames(
                    self@,
                    slots_of(functions@),
                    program_of(program@),
                    i as nat,
                ),
            decreases program.len() - i,
        {
            let ghost before = slots_of(functions@);
            let offset: usize = self.rom.len();
            functions.push((program[i].0.clone(), offset));
            assert(slots_of(functions@) =~= before.push((program@[i as int].0@, offset)));
            if program[i].0.eq(&main_name) {
                self.pc = offset;
            }
            self.grow_locals(program[i].1.max_locals);
            self.load_instructions(&program[i].1.instructions);
            i += 1;
        }
        functions
    }

    /// Loads `program` and runs it from the start of its frame `main`, for at most
    /// `max_steps` steps. `constants` is the constant pool that calls refer to.
    pub fn interpret(
        &mut self,
        program: &Vec<(String, StackFrame)>,
        constants: &Vec<String>,
        max_steps: usize,
    ) -> (r: Result<(), VmError>)
        ensures
            (final(self)@, failure(r)) == interpret_program(
                old(self)@,
                program_of(program@),
                names_of(constants@),
                max_steps as nat,
            ),
    {
        let functions = self.load(program);
        self.run(constants, &functions, max_steps)
    }
}

} // verus!
