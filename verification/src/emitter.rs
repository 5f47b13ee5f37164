//! The assembly that a lowered program is written as.

use vstd::prelude::*;
use vstd::string::*;
use crate::bytecode::ByteCodeInstruction;
use crate::lowering_model::FrameModel;
use crate::lowerer::{StackFrame, program_of};
use crate::text::{decimal_text, push_decimal, push_wide_decimal};
use crate::typed_op::names_of;

verus! {

/// The lines that every program starts with.
pub open spec fn preamble_lines() -> Seq<Seq<char>> {
    seq![
        "format PE64 console"@,
        "entry main"@,
        ""@,
        "include 'win64a.inc'"@,
        ""@,
        "section '.text' code readable executable"@,
        ""@,
    ]
}

/// The lines of the routine that prints an integer and ends the line.
pub open spec fn print_intln_lines() -> Seq<Seq<char>> {
    seq![
        "print_intln:"@,
        "\tsub rsp, 32; shadow space for Win-x64 ABI"@,
        "\tmov rdx, rcx"@,
        "\tlea rcx, [fmt_intln]"@,
        "\tcall [printf]"@,
        "\tadd rsp, 32; clean shadow space"@,
        "\tret"@,
    ]
}

/// The lines of the routine that prints an integer.
pub open spec fn print_int_lines() -> Seq<Seq<char>> {
    seq![
        "print_int:"@,
        "\tsub rsp, 32; shadow space for Win-x64 ABI"@,
        "\tmov rdx, rcx"@,
        "\tlea rcx, [fmt_int]"@,
        "\tcall [printf]"@,
        "\tadd rsp, 32; clean shadow space"@,
        "\tret"@,
    ]
}

/// The lines of the routine that prints a list.
pub open spec fn print_list_lines() -> Seq<Seq<char>> {
    seq![
        "print_list:"@,
        "\tmov rsi, rcx"@,
        "; print opening '['"@,
        "\tsub rsp, 32"@,
        "\tlea rcx, [fmt_str]"@,
        "\tlea rdx, [lbracket]"@,
        "\tcall [printf]"@,
        "\tadd rsp, 32"@,
        "; prepare loop"@,
        "\tmov r12, 0"@,
        "\tmov r13, [rsi]"@,
        "\tlea r14, [rsi + 8]"@,
        ".loop:"@,
        "; print element"@,
        "\tmov rcx, [r14 + r12*8]"@,
        "\tcall print_int"@,
        "; exit loop if last"@,
        "\tinc r12"@,
        "\tcmp r12, r13"@,
        "\tjge .done"@,
        "; print space"@,
        "\tsub rsp, 32"@,
        "\tlea rcx, [fmt_str]"@,
        "\tlea rdx, [space]"@,
        "\tcall [printf]"@,
        "\tadd rsp, 32"@,
        "\tjmp .loop"@,
        ".done:"@,
        "; print closing ']'"@,
        "\tsub rsp, 32"@,
        "\tlea rcx, [fmt_str]"@,
        "\tlea rdx, [rbracket]"@,
        "\tcall [printf]"@,
        "\tadd rsp, 32"@,
        "\txor ecx, ecx"@,
        "\tret"@,
        ""@,
    ]
}

/// The lines that every program ends with: its data and its imports.
pub open spec fn closing_lines() -> Seq<Seq<char>> {
    seq![
        ""@,
        "section '.data' data readable writeable"@,
        "fmt_intln db \"%lld\",10, 0"@,
        "fmt_int   db \"%lld\",    0"@,
        "fmt_str   db \"%s\",      0"@,
        "lbracket  db \"[\",       0"@,
        "space     db \" \",       0"@,
        "rbracket  db \"]\",10,    0"@,
        ""@,
        "section '.idata' import data readable"@,
        ""@,
        "library kernel32, 'kernel32.dll', msvcrt, 'msvcrt.dll'"@,
        "import kernel32, ExitProcess, 'ExitProcess'"@,
        "import msvcrt, printf, 'printf', malloc, 'malloc'"@,
    ]
}

/// The lines at the end of the frame `main`, which leave the process.
pub open spec fn exit_lines() -> Seq<Seq<char>> {
    seq![
        "; --- return ---"@,
        "\txor ecx, ecx"@,
        "\tcall [ExitProcess]"@,
    ]
}

/// The text that names an instruction in a comment.
pub open spec fn instruction_text(i: ByteCodeInstruction) -> Seq<char> {
    match i {
        ByteCodeInstruction::Push(value) => "Push("@ + decimal_text(value as nat) + ")"@,
        ByteCodeInstruction::Label(label) => "Label("@ + decimal_text(label as nat) + ")"@,
        ByteCodeInstruction::PushBlock { index } => "PushBlock { index: "@ + decimal_text(
            index as nat,
        ) + " }"@,
        ByteCodeInstruction::Load { index } => "Load { index: "@ + decimal_text(index as nat)
            + " }"@,
        ByteCodeInstruction::Store { index } => "Store { index: "@ + decimal_text(index as nat)
            + " }"@,
        ByteCodeInstruction::CallStatic { index } => "CallStatic { index: "@ + decimal_text(
            index as nat,
        ) + " }"@,
        ByteCodeInstruction::Jump { label } => "Jump { label: "@ + decimal_text(label as nat)
            + " }"@,
        ByteCodeInstruction::JumpIfFalse { label } => "JumpIfFalse { label: "@ + decimal_text(
            label as nat,
        ) + " }"@,
        ByteCodeInstruction::Pop => "Pop"@,
        ByteCodeInstruction::NewList => "NewList"@,
        ByteCodeInstruction::ListLen => "ListLen"@,
        ByteCodeInstruction::ListGet => "ListGet"@,
        ByteCodeInstruction::Dup => "Dup"@,
        ByteCodeInstruction::Over => "Over"@,
        ByteCodeInstruction::Rot => "Rot"@,
        ByteCodeInstruction::Swap => "Swap"@,
        ByteCodeInstruction::Inc => "Inc"@,
        ByteCodeInstruction::Dec => "Dec"@,
        ByteCodeInstruction::Add => "Add"@,
        ByteCodeInstruction::Sub => "Sub"@,
        ByteCodeInstruction::Mul => "Mul"@,
        ByteCodeInstruction::Div => "Div"@,
        ByteCodeInstruction::Mod => "Mod"@,
        ByteCodeInstruction::Gt => "Gt"@,
        ByteCodeInstruction::Lt => "Lt"@,
        ByteCodeInstruction::GtEq => "GtEq"@,
        ByteCodeInstruction::LtEq => "LtEq"@,
        ByteCodeInstruction::Eq => "Eq"@,
        ByteCodeInstruction::Print => "Print"@,
        ByteCodeInstruction::PrintBool => "PrintBool"@,
        ByteCodeInstruction::PrintList => "PrintList"@,
        ByteCodeInstruction::CallDynamic => "CallDynamic"@,
        ByteCodeInstruction::Return => "Return"@,
    }
}

/// The comment line that stands before the lines of an instruction.
pub open spec fn comment_line(i: ByteCodeInstruction) -> Seq<char> {
    "; --- "@ + instruction_text(i) + " ---"@
}

/// The name that a call of slot `index` of the constant pool goes to: the name in
/// the slot, and `block_` followed by the index where the pool has no such slot.
pub open spec fn callee_name(constants: Seq<Seq<char>>, index: usize) -> Seq<char> {
    if index < constants.len() {
        constants[index as int]
    } else {
        "block_"@ + decimal_text(index as nat)
    }
}

/// The lines that make a list; `label` numbers the two labels of its loop.
pub open spec fn new_list_lines(label: usize) -> Seq<Seq<char>> {
    seq![
        "\tpop r12"@,
        "\tmov r13, r12"@,
        "\tinc r13"@,
        "\tmov rcx, r13"@,
        "\timul rcx, 8"@,
        "\tsub rsp, 32"@,
        "\tcall [malloc]"@,
        "\tadd rsp, 32"@,
        "\tmov rbx, rax"@,
        "\tmov qword [rbx], r12"@,
        "\tmov rdx, 0"@,
        ".loop_"@ + decimal_text(label as nat) + ":"@,
        "\tcmp rdx, r12"@,
        "\tjge .end_"@ + decimal_text(label as nat),
        "\tpop rax"@,
        "\tinc rdx"@,
        "\tmov qword [rbx + rdx*8], rax"@,
        "\tjmp .loop_"@ + decimal_text(label as nat),
        ".end_"@ + decimal_text(label as nat) + ":"@,
        "\tpush rbx"@,
    ]
}

/// The lines of one instruction, without the comment before them; `label` numbers
/// the labels of the loop that making a list needs.
pub open spec fn instruction_lines(i: ByteCodeInstruction, constants: Seq<Seq<char>>, label: usize)
    -> Seq<Seq<char>> {
    match i {
        ByteCodeInstruction::Push(value) => seq!["\tpush "@ + decimal_text(value as nat)],
        ByteCodeInstruction::NewList => new_list_lines(label),
        ByteCodeInstruction::PushBlock { index } => seq![
            "\tlea rax, ["@ + callee_name(constants, index) + "]"@,
            "\tpush rax"@,
        ],
        ByteCodeInstruction::Load { index } => seq![
            "\tmov rax, [rbp - "@ + decimal_text((index * 8) as nat) + "]"@,
            "\tpush rax"@,
        ],
        ByteCodeInstruction::Store { index } => seq![
            "\tpop rax"@,
            "\tmov [rbp - "@ + decimal_text((index * 8) as nat) + "], rax"@,
        ],
        ByteCodeInstruction::Label(label) => seq![".label_"@ + decimal_text(label as nat) + ":"@],
        ByteCodeInstruction::CallStatic { index } => seq![
            "\tcall "@ + callee_name(constants, index),
        ],
        ByteCodeInstruction::Jump { label } => seq!["\tjmp .label_"@ + decimal_text(label as nat)],
        ByteCodeInstruction::JumpIfFalse { label } => seq![
            "\tpop rax"@,
            "\ttest rax, rax"@,
            "\tjz .label_"@ + decimal_text(label as nat),
        ],
        ByteCodeInstruction::Pop => seq![
            "\tpop rax"@,
        ],
        ByteCodeInstruction::Dup => seq![
            "\tpop rax"@,
            "\tpush rax"@,
            "\tpush rax"@,
        ],
        ByteCodeInstruction::Over => seq![
            "\tpop rax"@,
            "\tpop rbx"@,
            "\tpush rbx"@,
            "\tpush rax"@,
            "\tpush rbx"@,
        ],
        ByteCodeInstruction::Rot => seq![
            "\tpop rax"@,
            "\tpop rbx"@,
            "\tpop rcx"@,
            "\tpush rbx"@,
            "\tpush rax"@,
            "\tpush rcx"@,
        ],
        ByteCodeInstruction::Swap => seq![
            "\tpop rax"@,
            "\tpop rbx"@,
            "\tpush rax"@,
            "\tpush rbx"@,
        ],
        ByteCodeInstruction::Inc => seq![
            "\tpop rax"@,
            "\tinc rax"@,
            "\tpush rax"@,
        ],
        ByteCodeInstruction::Dec => seq![
            "\tpop rax"@,
            "\tdec rax"@,
            "\tpush rax"@,
        ],
        ByteCodeInstruction::Add => seq![
            "\tpop rax"@,
            "\tpop rbx"@,
            "\tadd rax, rbx"@,
            "\tpush rax"@,
        ],
        ByteCodeInstruction::Sub => seq![
            "\tpop rax"@,
            "\tpop rbx"@,
            "\tsub rbx, rax"@,
            "\tpush rbx"@,
        ],
        ByteCodeInstruction::Mul => seq![
            "\tpop rax"@,
            "\tpop rbx"@,
            "\timul rax, rbx"@,
            "\tpush rax"@,
        ],
        ByteCodeInstruction::Div => seq![
            "\tpop rbx"@,
            "\tpop rax"@,
            "\txor rdx, rdx"@,
            "\tdiv rbx"@,
            "\tpush rax"@,
        ],
        ByteCodeInstruction::Mod => seq![
            "\tpop rbx"@,
            "\tpop rax"@,
            "\txor rdx, rdx"@,
            "\tdiv rbx"@,
            "\tpush rdx"@,
        ],
        ByteCodeInstruction::Eq => seq![
            "\tmov rcx, 0"@,
            "\tmov rdx, 1"@,
            "\tpop rax"@,
            "\tpop rbx"@,
            "\tcmp rax, rbx"@,
            "\tcmove rcx, rdx"@,
            "\tpush rcx"@,
        ],
        ByteCodeInstruction::Gt => seq![
            "\tmov rcx, 0"@,
            "\tmov rdx, 1"@,
            "\tpop rax"@,
            "\tpop rbx"@,
            "\tcmp rax, rbx"@,
            "\tcmovb rcx, rdx"@,
            "\tpush rcx"@,
        ],
        ByteCodeInstruction::GtEq => seq![
            "\tmov rcx, 0"@,
            "\tmov rdx, 1"@,
            "\tpop rax"@,
            "\tpop rbx"@,
            "\tcmp rax, rbx"@,
            "\tcmovbe rcx, rdx"@,
            "\tpush rcx"@,
        ],
        ByteCodeInstruction::Lt => seq![
            "\tmov rcx, 0"@,
            "\tmov rdx, 1"@,
            "\tpop rax"@,
            "\tpop rbx"@,
            "\tcmp rax, rbx"@,
            "\tcmova rcx, rdx"@,
            "\tpush rcx"@,
        ],
        ByteCodeInstruction::LtEq => seq![
            "\tmov rcx, 0"@,
            "\tmov rdx, 1"@,
            "\tpop rax"@,
            "\tpop rbx"@,
            "\tcmp rax, rbx"@,
            "\tcmovae rcx, rdx"@,
            "\tpush rcx"@,
        ],
        ByteCodeInstruction::Print => seq![
            "\tpop rcx"@,
            "\tcall print_intln"@,
        ],
        ByteCodeInstruction::PrintBool => seq![
            "\tpop rcx"@,
            "\tcall print_intln"@,
        ],
        ByteCodeInstruction::PrintList => seq![
            "\tpop rcx"@,
            "\tcall print_list"@,
        ],
        ByteCodeInstruction::ListLen => seq![
            "\tpop rax"@,
            "\tmov rax, [rax]"@,
            "\tpush rax"@,
        ],
        ByteCodeInstruction::ListGet => seq![
            "\tpop rax"@,
            "\tinc rax"@,
            "\tpop rbx"@,
            "\tmov rax, [rbx + rax*8]"@,
            "\tpush rax"@,
        ],
        ByteCodeInstruction::CallDynamic => seq![
            "\tpop rax"@,
            "\tcall rax"@,
        ],
        ByteCodeInstruction::Return => seq![
            "\tret"@,
        ],
    }
}

/// The number that labels the loop of the next list after the instruction `i`.
pub open spec fn label_after(i: ByteCodeInstruction, label: usize) -> usize {
    if i is NewList {
        label.wrapping_add(1)
    } else {
        label
    }
}

/// The lines of the instructions of `code` from position `from` on: for each a
/// comment that names it and its lines, a `Return` after the lines that restore the
/// registers that a frame saves.
pub open spec fn code_lines(
    code: Seq<ByteCodeInstruction>,
    from: nat,
    constants: Seq<Seq<char>>,
    label: usize,
) -> Seq<Seq<char>>
    decreases code.len() - from,
{
    if from >= code.len() {
        Seq::empty()
    } else {
        let i = code[from as int];
        let restore: Seq<Seq<char>> = if i is Return {
            seq!["\tpop rax"@, "\tpop rbx"@]
        } else {
            Seq::empty()
        };
        restore + seq![comment_line(i)] + instruction_lines(i, constants, label) + code_lines(
            code,
            from + 1,
            constants,
            label_after(i, label),
        )
    }
}

/// The number that labels the loop of the next list after the instructions of `code`
/// from position `from` on.
pub open spec fn label_after_code(code: Seq<ByteCodeInstruction>, from: nat, label: usize) -> usize
    decreases code.len() - from,
{
    if from >= code.len() {
        label
    } else {
        label_after_code(code, from + 1, label_after(code[from as int], label))
    }
}

/// The lines that a frame starts with: the frame `main` sets up the stack with room
/// for its local slots, any other frame saves two registers.
pub open spec fn entry_lines(name: Seq<char>, frame: FrameModel) -> Seq<Seq<char>> {
    if name == "main"@ {
        seq![
            name + ":"@,
            "push rbp"@,
            "mov rbp, rsp"@,
            "sub rsp, "@ + decimal_text((frame.max_locals * 8) as nat),
            "sub rsp, 8 ; align the stack to 16 bytes (Windows ABI requirement)"@,
        ]
    } else {
        seq![name + ":"@, "\tpush rbx"@, "\tpush rcx"@]
    }
}

/// The lines of one frame: its name, its entry, its instructions and, for the frame
/// `main`, the exit from the process.
pub open spec fn frame_lines(
    name: Seq<char>,
    frame: FrameModel,
    constants: Seq<Seq<char>>,
    label: usize,
) -> Seq<Seq<char>> {
    entry_lines(name, frame) + code_lines(frame.instructions, 0, constants, label) + if name
        == "main"@ {
        exit_lines()
    } else {
        Seq::empty()
    }
}

/// The lines of the frames of `program` from position `from` on.
pub open spec fn frames_lines(
    program: Seq<(Seq<char>, FrameModel)>,
    from: nat,
    constants: Seq<Seq<char>>,
    label: usize,
) -> Seq<Seq<char>>
    decreases program.len() - from,
{
    if from >= program.len() {
        Seq::empty()
    } else {
        let (name, frame) = program[from as int];
        frame_lines(name, frame, constants, label) + frames_lines(
            program,
            from + 1,
            constants,
            label_after_code(frame.instructions, 0, label),
        )
    }
}

/// The number that labels the loop of the next list after the frames of `program`
/// from position `from` on.
pub open spec fn label_after_frames(
    program: Seq<(Seq<char>, FrameModel)>,
    from: nat,
    label: usize,
) -> usize
    decreases program.len() - from,
{
    if from >= program.len() {
        label
    } else {
        label_after_frames(
            program,
            from + 1,
            label_after_code(program[from as int].1.instructions, 0, label),
        )
    }
}

/// The assembly of a program, line by line: the preamble, the printing routines, the
/// frames, and the data and imports.
pub open spec fn assembly_lines(
    program: Seq<(Seq<char>, FrameModel)>,
    constants: Seq<Seq<char>>,
    label: usize,
) -> Seq<Seq<char>> {
    preamble_lines() + print_intln_lines() + print_int_lines() + print_list_lines() + frames_lines(
        program,
        0,
        constants,
        label,
    ) + closing_lines()
}

/// The emitter of assembly for the flat assembler. It collects the lines of the
/// assembly and numbers the labels of the loops that it writes.
pub struct FasmEmitter {
    pub labels: usize,
    pub lines: Vec<String>,
}

impl FasmEmitter {
    /// An emitter that has written nothing.
    pub fn new() -> (r: FasmEmitter)
        ensures
            r.labels == 0,
            names_of(r.lines@) == Seq::<Seq<char>>::empty(),
    {
        let r = FasmEmitter { labels: 0, lines: Vec::new() };
        assert(names_of(r.lines@) =~= Seq::<Seq<char>>::empty());
        r
    }

    /// Appends the line `text`.
    fn line(&mut self, text: &str)
        ensures
            final(self).labels == old(self).labels,
            names_of(final(self).lines@) == names_of(old(self).lines@).push(text@),
    {
        self.lines.push(String::from_str(text));
        assert(names_of(self.lines@) =~= names_of(old(self).lines@).push(text@));
    }

    /// Appends the line `text`.
    fn owned_line(&mut self, text: String)
        ensures
            final(self).labels == old(self).labels,
            names_of(final(self).lines@) == names_of(old(self).lines@).push(text@),
    {
        self.lines.push(text);
        assert(names_of(self.lines@) =~= names_of(old(self).lines@).push(text@));
    }

    /// Appends the line made of `before`, the decimal text of `n`, and `after`.
    fn numbered_line(&mut self, before: &str, n: u128, after: &str)
        ensures
            final(self).labels == old(self).labels,
            names_of(final(self).lines@) == names_of(old(self).lines@).push(
                before@ + decimal_text(n as nat) + after@,
            ),
    {
        let mut text = String::from_str(before);
        push_wide_decimal(&mut text, n);
        text.append(after);
        self.owned_line(text);
    }

    /// Appends the line made of `before`, the name that a call of slot `index` goes
    /// to, and `after`.
    fn callee_line(&mut self, before: &str, constants: &Vec<String>, index: usize, after: &str)
        ensures
            final(self).labels == old(self).labels,
            names_of(final(self).lines@) == names_of(old(self).lines@).push(
                before@ + callee_name(names_of(constants@), index) + after@,
            ),
    {
        let mut text = String::from_str(before);
        if index < constants.len() {
            text.append(constants[index].as_str());
        } else {
            text.append("block_");
            push_decimal(&mut text, index);
        }
        text.append(after);
        assert(text@ =~= before@ + callee_name(names_of(constants@), index) + after@);
        self.owned_line(text);
    }

    /// Appends the lines that every program starts with.
    pub fn emit_preamble(&mut self)
        ensures
            final(self).labels == old(self).labels,
            names_of(final(self).lines@) == names_of(old(self).lines@) + preamble_lines(),
    {
        self.line("format PE64 console");
        self.line("entry main");
        self.line("");
        self.line("include 'win64a.inc'");
        self.line("");
        self.line("section '.text' code readable executable");
        self.line("");
        assert(names_of(self.lines@) =~= names_of(old(self).lines@) + preamble_lines());
    }

    /// Appends the routine that prints an integer and ends the line.
    pub fn emit_print_intln_function(&mut self)
        ensures
            final(self).labels == old(self).labels,
            names_of(final(self).lines@) == names_of(old(self).lines@) + print_intln_lines(),
    {
        self.line("print_intln:");
        self.line("\tsub rsp, 32; shadow space for Win-x64 ABI");
        self.line("\tmov rdx, rcx");
        self.line("\tlea rcx, [fmt_intln]");
        self.line("\tcall [printf]");
        self.line("\tadd rsp, 32; clean shadow space");
        self.line("\tret");
        assert(names_of(self.lines@) =~= names_of(old(self).lines@) + print_intln_lines());
    }

    /// Appends the routine that prints an integer.
    pub fn emit_print_int_function(&mut self)
        ensures
            final(self).labels == old(self).labels,
            names_of(final(self).lines@) == names_of(old(self).lines@) + print_int_lines(),
    {
        self.line("print_int:");
        self.line("\tsub rsp, 32; shadow space for Win-x64 ABI");
        self.line("\tmov rdx, rcx");
        self.line("\tlea rcx, [fmt_int]");
        self.line("\tcall [printf]");
        self.line("\tadd rsp, 32; clean shadow space");
        self.line("\tret");
        assert(names_of(self.lines@) =~= names_of(old(self).lines@) + print_int_lines());
    }

    /// Appends the routine that prints a list.
    pub fn emit_print_list_function(&mut self)
        ensures
            final(self).labels == old(self).labels,
            names_of(final(self).lines@) == names_of(old(self).lines@) + print_list_lines(),
    {
        self.line("print_list:");
        self.line("\tmov rsi, rcx");
        self.line("; print opening '['");
        self.line("\tsub rsp, 32");
        self.line("\tlea rcx, [fmt_str]");
        self.line("\tlea rdx, [lbracket]");
        self.line("\tcall [printf]");
        self.line("\tadd rsp, 32");
        self.line("; prepare loop");
        self.line("\tmov r12, 0");
        self.line("\tmov r13, [rsi]");
        self.line("\tlea r14, [rsi + 8]");
        self.line(".loop:");
        self.line("; print element");
        self.line("\tmov rcx, [r14 + r12*8]");
        self.line("\tcall print_int");
        self.line("; exit loop if last");
        self.line("\tinc r12");
        self.line("\tcmp r12, r13");
        self.line("\tjge .done");
        self.line("; print space");
        self.line("\tsub rsp, 32");
        self.line("\tlea rcx, [fmt_str]");
        self.line("\tlea rdx, [space]");
        self.line("\tcall [printf]");
        self.line("\tadd rsp, 32");
        self.line("\tjmp .loop");
        self.line(".done:");
        self.line("; print closing ']'");
        self.line("\tsub rsp, 32");
        self.line("\tlea rcx, [fmt_str]");
        self.line("\tlea rdx, [rbracket]");
        self.line("\tcall [printf]");
        self.line("\tadd rsp, 32");
        self.line("\txor ecx, ecx");
        self.line("\tret");
        self.line("");
        assert(names_of(self.lines@) =~= names_of(old(self).lines@) + print_list_lines());
    }

    /// Appends the lines that every program ends with.
    pub fn emit_prologue(&mut self)
        ensures
            final(self).labels == old(self).labels,
            names_of(final(self).lines@) == names_of(old(self).lines@) + closing_lines(),
    {
        self.line("");
        self.line("section '.data' data readable writeable");
        self.line("fmt_intln db \"%lld\",10, 0");
        self.line("fmt_int   db \"%lld\",    0");
        self.line("fmt_str   db \"%s\",      0");
        self.line("lbracket  db \"[\",       0");
        self.line("space     db \" \",       0");
        self.line("rbracket  db \"]\",10,    0");
        self.line("");
        self.line("section '.idata' import data readable");
        self.line("");
        self.line("library kernel32, 'kernel32.dll', msvcrt, 'msvcrt.dll'");
        self.line("import kernel32, ExitProcess, 'ExitProcess'");
        self.line("import msvcrt, printf, 'printf', malloc, 'malloc'");
        assert(names_of(self.lines@) =~= names_of(old(self).lines@) + closing_lines());
    }

    /// Appends the lines that leave the process.
    pub fn emit_exit(&mut self)
        ensures
            final(self).labels == old(self).labels,
            names_of(final(self).lines@) == names_of(old(self).lines@) + exit_lines(),
    {
        self.line("; --- return ---");
        self.line("\txor ecx, ecx");
        self.line("\tcall [ExitProcess]");
        assert(names_of(self.lines@) =~= names_of(old(self).lines@) + exit_lines());
    }

    /// Appends the printing routines.
    pub fn emit_helper_functions(&mut self)
        ensures
            final(self).labels == old(self).labels,
            names_of(final(self).lines@) == names_of(old(self).lines@) + print_intln_lines()
                + print_int_lines() + print_list_lines(),
    {
        self.emit_print_intln_function();
        self.emit_print_int_function();
        self.emit_print_list_function();
        assert(names_of(self.lines@) =~= names_of(old(self).lines@) + print_intln_lines()
            + print_int_lines() + print_list_lines());
    }

    /// Appends the comment that names `opcode`.
    fn emit_comment(&mut self, opcode: &ByteCodeInstruction)
        ensures
            final(self).labels == old(self).labels,
            names_of(final(self).lines@) == names_of(old(self).lines@).push(comment_line(*opcode)),
    {
        let mut text = String::from_str("; --- ");
        match opcode {
            ByteCodeInstruction::Push(value) => {
                text.append("Push(");
                push_decimal(&mut text, *value);
                text.append(")");
            },
            ByteCodeInstruction::Label(label) => {
                text.append("Label(");
                push_decimal(&mut text, *label);
                text.append(")");
            },
            ByteCodeInstruction::PushBlock { index } => {
                text.append("PushBlock { index: ");
                push_decimal(&mut text, *index);
                text.append(" }");
            },
            ByteCodeInstruction::Load { index } => {
                text.append("Load { index: ");
                push_decimal(&mut text, *index);
                text.append(" }");
            },
            ByteCodeInstruction::Store { index } => {
                text.append("Store { index: ");
                push_decimal(&mut text, *index);
                text.append(" }");
            },
            ByteCodeInstruction::CallStatic { index } => {
                text.append("CallStatic { index: ");
                push_decimal(&mut text, *index);
                text.append(" }");
            },
            ByteCodeInstruction::Jump { label } => {
                text.append("Jump { label: ");
                push_decimal(&mut text, *label);
                text.append(" }");
            },
            ByteCodeInstruction::JumpIfFalse { label } => {
                text.append("JumpIfFalse { label: ");
                push_decimal(&mut text, *label);
                text.append(" }");
            },
            ByteCodeInstruction::Pop => {
                text.append("Pop");
            },
            ByteCodeInstruction::NewList => {
                text.append("NewList");
            },
            ByteCodeInstruction::ListLen => {
                text.append("ListLen");
            },
            ByteCodeInstruction::ListGet => {
                text.append("ListGet");
            },
            ByteCodeInstruction::Dup => {
                text.append("Dup");
            },
            ByteCodeInstruction::Over => {
                text.append("Over");
            },
            ByteCodeInstruction::Rot => {
                text.append("Rot");
            },
            ByteCodeInstruction::Swap => {
                text.append("Swap");
            },
            ByteCodeInstruction::Inc => {
                text.append("Inc");
            },
            ByteCodeInstruction::Dec => {
                text.append("Dec");
            },
            ByteCodeInstruction::Add => {
                text.append("Add");
            },
            ByteCodeInstruction::Sub => {
                text.append("Sub");
            },
            ByteCodeInstruction::Mul => {
                text.append("Mul");
            },
            ByteCodeInstruction::Div => {
                text.append("Div");
            },
            ByteCodeInstruction::Mod => {
                text.append("Mod");
            },
            ByteCodeInstruction::Gt => {
                text.append("Gt");
            },
            ByteCodeInstruction::Lt => {
                text.append("Lt");
            },
            ByteCodeInstruction::GtEq => {
                text.append("GtEq");
            },
            ByteCodeInstruction::LtEq => {
                text.append("LtEq");
            },
            ByteCodeInstruction::Eq => {
                text.append("Eq");
            },
            ByteCodeInstruction::Print => {
                text.append("Print");
            },
            ByteCodeInstruction::PrintBool => {
                text.append("PrintBool");
            },
            ByteCodeInstruction::PrintList => {
                text.append("PrintList");
            },
            ByteCodeInstruction::CallDynamic => {
                text.append("CallDynamic");
            },
            ByteCodeInstruction::Return => {
                text.append("Return");
            },
        }
        text.append(" ---");
        assert(text@ =~= comment_line(*opcode));
        self.owned_line(text);
    }

    /// Appends the lines that make a list.
    fn emit_new_list(&mut self)
        ensures
            final(self).labels == old(self).labels.wrapping_add(1),
            names_of(final(self).lines@) == names_of(old(self).lines@) + new_list_lines(
                old(self).labels,
            ),
    {
        let label: u128 = self.labels as u128;
        self.line("\tpop r12");
        self.line("\tmov r13, r12");
        self.line("\tinc r13");
        self.line("\tmov rcx, r13");
        self.line("\timul rcx, 8");
        self.line("\tsub rsp, 32");
        self.line("\tcall [malloc]");
        self.line("\tadd rsp, 32");
        self.line("\tmov rbx, rax");
        self.line("\tmov qword [rbx], r12");
        self.line("\tmov rdx, 0");
        self.numbered_line(".loop_", label, ":");
        self.line("\tcmp rdx, r12");
        self.numbered_line("\tjge .end_", label, "");
        self.line("\tpop rax");
        self.line("\tinc rdx");
        self.line("\tmov qword [rbx + rdx*8], rax");
        self.numbered_line("\tjmp .loop_", label, "");
        self.numbered_line(".end_", label, ":");
        self.line("\tpush rbx");
        proof {
            let d = decimal_text(old(self).labels as nat);
            assert("\tjge .end_"@ + d + ""@ =~= "\tjge .end_"@ + d) by {
                reveal_strlit("");
            }
            assert("\tjmp .loop_"@ + d + ""@ =~= "\tjmp .loop_"@ + d) by {
                reveal_strlit("");
            }
            assert(names_of(self.lines@) =~= names_of(old(self).lines@) + new_list_lines(
                old(self).labels,
            ));
        }
        self.labels = self.labels.wrapping_add(1);
    }

    /// Appends the lines of one instruction, after a comment that names it.
    pub fn emit_op(&mut self, opcode: &ByteCodeInstruction, constants: &Vec<String>)
        ensures
            final(self).labels == label_after(*opcode, old(self).labels),
            names_of(final(self).lines@) == names_of(old(self).lines@) + seq![
                comment_line(*opcode),
            ] + instruction_lines(*opcode, names_of(constants@), old(self).labels),
    {
        self.emit_comment(opcode);
        let ghost commented = names_of(self.lines@);
        proof {
            reveal_strlit("");
        }
        match opcode {
            ByteCodeInstruction::Push(value) => {
                self.numbered_line("\tpush ", *value as u128, "");
                assert("\tpush "@ + decimal_text(*value as nat) + ""@ =~= "\tpush "@
                    + decimal_text(*value as nat));
            },
            ByteCodeInstruction::NewList => {
                self.emit_new_list();
            },
            ByteCodeInstruction::PushBlock { index } => {
                self.callee_line("\tlea rax, [", constants, *index, "]");
                self.line("\tpush rax");
            },
            ByteCodeInstruction::Load { index } => {
                self.numbered_line("\tmov rax, [rbp - ", *index as u128 * 8, "]");
                self.line("\tpush rax");
            },
            ByteCodeInstruction::Store { index } => {
                self.line("\tpop rax");
                self.numbered_line("\tmov [rbp - ", *index as u128 * 8, "], rax");
            },
            ByteCodeInstruction::Label(label) => {
                self.numbered_line(".label_", *label as u128, ":");
            },
            ByteCodeInstruction::CallStatic { index } => {
                self.callee_line("\tcall ", constants, *index, "");
                assert("\tcall "@ + callee_name(names_of(constants@), *index) + ""@ =~= "\tcall "@
                    + callee_name(names_of(constants@), *index));
            },
            ByteCodeInstruction::Jump { label } => {
                self.numbered_line("\tjmp .label_", *label as u128, "");
                assert("\tjmp .label_"@ + decimal_text(*label as nat) + ""@ =~= "\tjmp .label_"@
                    + decimal_text(*label as nat));
            },
            ByteCodeInstruction::JumpIfFalse { label } => {
                self.line("\tpop rax");
                self.line("\ttest rax, rax");
                self.numbered_line("\tjz .label_", *label as u128, "");
                assert("\tjz .label_"@ + decimal_text(*label as nat) + ""@ =~= "\tjz .label_"@
                    + decimal_text(*label as nat));
            },
            ByteCodeInstruction::Pop => {
                self.line("\tpop rax");
            },
            ByteCodeInstruction::Dup => {
                self.line("\tpop rax");
                self.line("\tpush rax");
                self.line("\tpush rax");
            },
            ByteCodeInstruction::Over => {
                self.line("\tpop rax");
                self.line("\tpop rbx");
                self.line("\tpush rbx");
                self.line("\tpush rax");
                self.line("\tpush rbx");
            },
            ByteCodeInstruction::Rot => {
                self.line("\tpop rax");
                self.line("\tpop rbx");
                self.line("\tpop rcx");
                self.line("\tpush rbx");
                self.line("\tpush rax");
                self.line("\tpush rcx");
            },
            ByteCodeInstruction::Swap => {
                self.line("\tpop rax");
                self.line("\tpop rbx");
                self.line("\tpush rax");
                self.line("\tpush rbx");
            },
            ByteCodeInstruction::Inc => {
                self.line("\tpop rax");
                self.line("\tinc rax");
                self.line("\tpush rax");
            },
            ByteCodeInstruction::Dec => {
                self.line("\tpop rax");
                self.line("\tdec rax");
                self.line("\tpush rax");
            },
            ByteCodeInstruction::Add => {
                self.line("\tpop rax");
                self.line("\tpop rbx");
                self.line("\tadd rax, rbx");
                self.line("\tpush rax");
            },
            ByteCodeInstruction::Sub => {
                self.line("\tpop rax");
                self.line("\tpop rbx");
                self.line("\tsub rbx, rax");
                self.line("\tpush rbx");
            },
            ByteCodeInstruction::Mul => {
                self.line("\tpop rax");
                self.line("\tpop rbx");
                self.line("\timul rax, rbx");
                self.line("\tpush rax");
            },
            ByteCodeInstruction::Div => {
                self.line("\tpop rbx");
                self.line("\tpop rax");
                self.line("\txor rdx, rdx");
                self.line("\tdiv rbx");
                self.line("\tpush rax");
            },
            ByteCodeInstruction::Mod => {
                self.line("\tpop rbx");
                self.line("\tpop rax");
                self.line("\txor rdx, rdx");
                self.line("\tdiv rbx");
                self.line("\tpush rdx");
            },
            ByteCodeInstruction::Eq => {
                self.line("\tmov rcx, 0");
                self.line("\tmov rdx, 1");
                self.line("\tpop rax");
                self.line("\tpop rbx");
                self.line("\tcmp rax, rbx");
                self.line("\tcmove rcx, rdx");
                self.line("\tpush rcx");
            },
            ByteCodeInstruction::Gt => {
                self.line("\tmov rcx, 0");
                self.line("\tmov rdx, 1");
                self.line("\tpop rax");
                self.line("\tpop rbx");
                self.line("\tcmp rax, rbx");
                self.line("\tcmovb rcx, rdx");
                self.line("\tpush rcx");
            },
            ByteCodeInstruction::GtEq => {
                self.line("\tmov rcx, 0");
                self.line("\tmov rdx, 1");
                self.line("\tpop rax");
                self.line("\tpop rbx");
                self.line("\tcmp rax, rbx");
                self.line("\tcmovbe rcx, rdx");
                self.line("\tpush rcx");
            },
            ByteCodeInstruction::Lt => {
                self.line("\tmov rcx, 0");
                self.line("\tmov rdx, 1");
                self.line("\tpop rax");
                self.line("\tpop rbx");
                self.line("\tcmp rax, rbx");
                self.line("\tcmova rcx, rdx");
                self.line("\tpush rcx");
            },
            ByteCodeInstruction::LtEq => {
                self.line("\tmov rcx, 0");
                self.line("\tmov rdx, 1");
                self.line("\tpop rax");
                self.line("\tpop rbx");
                self.line("\tcmp rax, rbx");
                self.line("\tcmovae rcx, rdx");
                self.line("\tpush rcx");
            },
            ByteCodeInstruction::Print => {
                self.line("\tpop rcx");
                self.line("\tcall print_intln");
            },
            ByteCodeInstruction::PrintBool => {
                self.line("\tpop rcx");
                self.line("\tcall print_intln");
            },
            ByteCodeInstruction::PrintList => {
                self.line("\tpop rcx");
                self.line("\tcall print_list");
            },
            ByteCodeInstruction::ListLen => {
                self.line("\tpop rax");
                self.line("\tmov rax, [rax]");
                self.line("\tpush rax");
            },
            ByteCodeInstruction::ListGet => {
                self.line("\tpop rax");
                self.line("\tinc rax");
                self.line("\tpop rbx");
                self.line("\tmov rax, [rbx + rax*8]");
                self.line("\tpush rax");
            },
            ByteCodeInstruction::CallDynamic => {
                self.line("\tpop rax");
                self.line("\tcall rax");
            },
            ByteCodeInstruction::Return => {
                self.line("\tret");
            },
        }
        assert(names_of(self.lines@) =~= commented + instruction_lines(
            *opcode,
            names_of(constants@),
            old(self).labels,
        ));
    }

    /// Appends the lines of the instructions of `code`.
    fn emit_code(&mut self, code: &Vec<ByteCodeInstruction>, constants: &Vec<String>)
        ensures
            final(self).labels == label_after_code(code@, 0, old(self).labels),
            names_of(final(self).lines@) == names_of(old(self).lines@) + code_lines(
                code@,
                0,
                names_of(constants@),
                old(self).labels,
            ),
    {
        let ghost start = names_of(self.lines@);
        let ghost first = self.labels;
        let ghost pool = names_of(constants@);
        let mut k: usize = 0;
        assert(start =~= start + Seq::<Seq<char>>::empty());
        while k < code.len()
            invariant
                k <= code.len(),
                pool == names_of(constants@),
                label_after_code(code@, 0, first) == label_after_code(code@, k as nat, self.labels),
                start + code_lines(code@, 0, pool, first) == names_of(self.lines@) + code_lines(
                    code@,
                    k as nat,
                    pool,
                    self.labels,
                ),
            decreases code.len() - k,
        {
            let ghost before = names_of(self.lines@);
            let ghost label = self.labels;
            match &code[k] {
                ByteCodeInstruction::Return => {
                    self.line("\tpop rax");
                    self.line("\tpop rbx");
                },
                _ => {},
            }
            self.emit_op(&code[k], constants);
            k += 1;
            assert(before + code_lines(code@, (k - 1) as nat, pool, label) =~= names_of(self.lines@)
                + code_lines(code@, k as nat, pool, self.labels));
        }
        assert(names_of(self.lines@) + Seq::<Seq<char>>::empty() =~= names_of(self.lines@));
    }

    /// Appends the lines of one frame.
    fn emit_frame(&mut self, name: &String, frame: &StackFrame, constants: &Vec<String>)
        ensures
            final(self).labels == label_after_code(frame@.instructions, 0, old(self).labels),
            names_of(final(self).lines@) == names_of(old(self).lines@) + frame_lines(
                name@,
                frame@,
                names_of(constants@),
                old(self).labels,
            ),
    {
        let main_name = String::from_str("main");
        let is_main = name.eq(&main_name);
        let mut header = name.clone();
        header.append(":");
        self.owned_line(header);
        if is_main {
            self.line("push rbp");
            self.line("mov rbp, rsp");
            self.numbered_line("sub rsp, ", frame.max_locals as u128 * 8, "");
            proof {
                reveal_strlit("");
                assert("sub rsp, "@ + decimal_text((frame.max_locals * 8) as nat) + ""@
                    =~= "sub rsp, "@ + decimal_text((frame.max_locals * 8) as nat));
            }
            self.line("sub rsp, 8 ; align the stack to 16 bytes (Windows ABI requirement)");
        } else {
            self.line("\tpush rbx");
            self.line("\tpush rcx");
        }
        assert(names_of(self.lines@) =~= names_of(old(self).lines@) + entry_lines(name@, frame@));
        self.emit_code(&frame.instructions, constants);
        if is_main {
            self.emit_exit();
        }
        assert(names_of(self.lines@) =~= names_of(old(self).lines@) + frame_lines(
            name@,
            frame@,
            names_of(constants@),
            old(self).labels,
        ));
    }

    /// Appends the assembly of `program`, whose calls refer to the constant pool
    /// `constants`.
    pub fn emit(&mut self, program: &Vec<(String, StackFrame)>, constants: &Vec<String>)
        ensures
            final(self).labels == label_after_frames(program_of(program@), 0, old(self).labels),
            names_of(final(self).lines@) == names_of(old(self).lines@) + assembly_lines(
                program_of(program@),
                names_of(constants@),
                old(self).labels,
            ),
    {
        let ghost frames = program_of(program@);
        let ghost pool = names_of(constants@);
        let ghost first = self.labels;
        self.emit_preamble();
        self.emit_helper_functions();
        let ghost start = names_of(self.lines@);
        let mut k: usize = 0;
        assert(start =~= start + Seq::<Seq<char>>::empty());
        while k < program.len()
            invariant
                k <= program.len(),
                frames == program_of(program@),
                pool == names_of(constants@),
                label_after_frames(frames, 0, first) == label_after_frames(
                    frames,
                    k as nat,
                    self.labels,
                ),
                start + frames_lines(frames, 0, pool, first) == names_of(self.lines@)
                    + frames_lines(frames, k as nat, pool, self.labels),
            decreases program.len() - k,
        {
            let ghost before = names_of(self.lines@);
            let ghost label = self.labels;
            self.emit_frame(&program[k].0, &program[k].1, constants);
            k += 1;
            assert(before + frames_lines(frames, (k - 1) as nat, pool, label) =~= names_of(
                self.lines@,
            ) + frames_lines(frames, k as nat, pool, self.labels));
        }
        assert(names_of(self.lines@) + Seq::<Seq<char>>::empty() =~= names_of(self.lines@));
        self.emit_prologue();
        assert(names_of(self.lines@) =~= names_of(old(self).lines@) + assembly_lines(
            frames,
            pool,
            first,
        ));
    }
}

} // verus!
