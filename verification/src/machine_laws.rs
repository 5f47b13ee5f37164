//! What holds of the stack machine: the layout of lists in the heap, the heap only
//! grows, and instructions move the operand stack as the stack effects say.

use vstd::prelude::*;
use crate::bytecode::ByteCodeInstruction;
use crate::checker_model::tabulated_effect;
use crate::lowering_model::{print_instruction, single_instruction};
use crate::ops::OpShape;
use crate::types::Ty;
use crate::machine_model::{Machine, execute, list_at, popped, run, step};

verus! {

/// A list that was just made holds what was pushed for it.
///
/// Where the machine makes a list of the `n` values below the length `n` on top of the
/// stack, the pointer it leaves on the stack is the old end of the heap, the word at
/// the pointer is `n`, and the `n` words behind it are the values, the one that was
/// topmost first. The heap below the pointer is unchanged.
pub proof fn lemma_new_list_layout(
    m: Machine,
    constants: Seq<Seq<char>>,
    functions: Seq<(Seq<char>, usize)>,
)
    requires
        execute(m, ByteCodeInstruction::NewList, constants, functions) is Ok,
    ensures
        ({
            let after = execute(m, ByteCodeInstruction::NewList, constants, functions)->Ok_0;
            let n = m.stack.last();
            let ptr = after.stack.last();
            &&& m.stack.len() >= n + 1
            &&& after.stack.len() == m.stack.len() - n
            &&& after.stack.take(after.stack.len() - 1) == m.stack.take(m.stack.len() - 1 - n)
            &&& ptr == m.heap.len()
            &&& after.heap.len() == m.heap.len() + n + 1
            &&& after.heap.take(m.heap.len() as int) == m.heap
            &&& after.heap[ptr as int] == n
            &&& forall|j: int|
                ptr < j <= ptr + n ==> #[trigger] after.heap[j] == m.stack[m.stack.len() - 1 - (j
                    - ptr)]
            &&& list_at(after.heap, ptr) == Some(popped(m.stack, n as nat))
        }),
{
    let after = execute(m, ByteCodeInstruction::NewList, constants, functions)->Ok_0;
    let n = m.stack.last();
    let ptr = after.stack.last();
    assert(after.heap.take(m.heap.len() as int) =~= m.heap);
    assert(after.stack.take(after.stack.len() - 1) =~= m.stack.take(m.stack.len() - 1 - n));
    assert(after.heap.subrange(ptr + 1, ptr + 1 + n) =~= popped(m.stack, n as nat));
}

/// The length of a list that was just made is the length it was made with.
pub proof fn lemma_new_list_then_len(
    m: Machine,
    constants: Seq<Seq<char>>,
    functions: Seq<(Seq<char>, usize)>,
)
    requires
        execute(m, ByteCodeInstruction::NewList, constants, functions) is Ok,
    ensures
        ({
            let made = execute(m, ByteCodeInstruction::NewList, constants, functions)->Ok_0;
            let asked = execute(made, ByteCodeInstruction::ListLen, constants, functions);
            asked is Ok && asked->Ok_0.stack.last() == m.stack.last() && asked->Ok_0.heap
                == made.heap
        }),
{
}

/// Element `index` of a list that was just made is the value that stood `index`
/// places below the topmost of the values it was made of.
pub proof fn lemma_new_list_then_get(
    m: Machine,
    index: usize,
    constants: Seq<Seq<char>>,
    functions: Seq<(Seq<char>, usize)>,
)
    requires
        execute(m, ByteCodeInstruction::NewList, constants, functions) is Ok,
        index < m.stack.last(),
    ensures
        ({
            let made = execute(m, ByteCodeInstruction::NewList, constants, functions)->Ok_0;
            let asking = Machine { stack: made.stack.push(index), ..made };
            let got = execute(asking, ByteCodeInstruction::ListGet, constants, functions);
            got is Ok && got->Ok_0.stack.last() == m.stack[m.stack.len() - 2 - index]
        }),
{
}

/// Duplicating the top of the stack and popping the copy leaves the machine as it was.
pub proof fn lemma_dup_pop(m: Machine, constants: Seq<Seq<char>>, functions: Seq<(Seq<char>, usize)>)
    requires
        m.stack.len() >= 1,
    ensures
        ({
            let doubled = execute(m, ByteCodeInstruction::Dup, constants, functions);
            doubled is Ok && execute(
                doubled->Ok_0,
                ByteCodeInstruction::Pop,
                constants,
                functions,
            ) == Ok::<Machine, crate::machine_model::VmError>(m)
        }),
{
    let doubled = execute(m, ByteCodeInstruction::Dup, constants, functions)->Ok_0;
    assert(doubled.stack.take(doubled.stack.len() - 1) =~= m.stack);
}

/// Whether the heap `after` is the heap `before` with words added at its end.
pub open spec fn heap_extends(before: Seq<usize>, after: Seq<usize>) -> bool {
    before.len() <= after.len() && after.take(before.len() as int) == before
}

/// An instruction never changes a word of the heap, it only adds words at its end;
/// and it never changes the code or the label table.
pub proof fn lemma_execute_appends(
    m: Machine,
    i: ByteCodeInstruction,
    constants: Seq<Seq<char>>,
    functions: Seq<(Seq<char>, usize)>,
)
    requires
        execute(m, i, constants, functions) is Ok,
    ensures
        heap_extends(m.heap, execute(m, i, constants, functions)->Ok_0.heap),
        execute(m, i, constants, functions)->Ok_0.rom == m.rom,
        execute(m, i, constants, functions)->Ok_0.labels == m.labels,
{
    let after = execute(m, i, constants, functions)->Ok_0;
    assert(after.heap.take(m.heap.len() as int) =~= m.heap);
}

/// Running the machine never changes a word of the heap, it only adds words at its
/// end; and it never changes the code or the label table.
pub proof fn lemma_run_appends(
    m: Machine,
    constants: Seq<Seq<char>>,
    functions: Seq<(Seq<char>, usize)>,
    fuel: nat,
)
    ensures
        heap_extends(m.heap, run(m, constants, functions, fuel).0.heap),
        run(m, constants, functions, fuel).0.rom == m.rom,
        run(m, constants, functions, fuel).0.labels == m.labels,
    decreases fuel,
{
    assert(m.heap.take(m.heap.len() as int) =~= m.heap);
    if m.pc < m.rom.len() && fuel > 0 {
        match step(m, constants, functions) {
            Ok(next) => {
                let (i, width) = crate::bytecode::decoding_at(m.rom, m.pc as int)->0;
                lemma_execute_appends(
                    Machine { pc: (m.pc + width) as usize, ..m },
                    i,
                    constants,
                    functions,
                );
                lemma_run_appends(next, constants, functions, (fuel - 1) as nat);
                let last = run(next, constants, functions, (fuel - 1) as nat).0;
                assert(last.heap.take(m.heap.len() as int) =~= next.heap.take(
                    m.heap.len() as int,
                ));
            },
            Err(_) => {},
        }
    }
}

/// Where the machine runs to the end of the code, its program counter stands at or
/// behind the end of the code.
pub proof fn lemma_run_ends(
    m: Machine,
    constants: Seq<Seq<char>>,
    functions: Seq<(Seq<char>, usize)>,
    fuel: nat,
)
    ensures
        run(m, constants, functions, fuel).1 is None ==> run(m, constants, functions, fuel).0.pc
            >= m.rom.len(),
    decreases fuel,
{
    if m.pc < m.rom.len() && fuel > 0 {
        match step(m, constants, functions) {
            Ok(next) => {
                lemma_run_appends(m, constants, functions, 1);
                let (i, width) = crate::bytecode::decoding_at(m.rom, m.pc as int)->0;
                lemma_execute_appends(
                    Machine { pc: (m.pc + width) as usize, ..m },
                    i,
                    constants,
                    functions,
                );
                lemma_run_ends(next, constants, functions, (fuel - 1) as nat);
            },
            Err(_) => {},
        }
    }
}

/// An operation that is lowered to one instruction changes the depth of the operand
/// stack as its stack effect says: where the stack holds its inputs and the
/// instruction succeeds, the stack is as much deeper afterwards as the operation has
/// more outputs than inputs.
pub proof fn lemma_instruction_follows_effect(
    kind: OpShape,
    g: nat,
    m: Machine,
    constants: Seq<Seq<char>>,
    functions: Seq<(Seq<char>, usize)>,
)
    requires
        tabulated_effect(kind, g) is Some,
        ({
            let (typed, ins, outs, fresh) = tabulated_effect(kind, g)->0;
            &&& single_instruction(typed) is Some
            &&& m.stack.len() >= ins.len()
            &&& execute(m, single_instruction(typed)->0, constants, functions) is Ok
        }),
    ensures
        ({
            let (typed, ins, outs, fresh) = tabulated_effect(kind, g)->0;
            let after = execute(m, single_instruction(typed)->0, constants, functions)->Ok_0;
            after.stack.len() == m.stack.len() - ins.len() + outs.len()
        }),
{
}

/// Printing takes one value from the operand stack, whatever its type is, and writes
/// one line.
pub proof fn lemma_print_takes_one(
    t: Ty,
    m: Machine,
    constants: Seq<Seq<char>>,
    functions: Seq<(Seq<char>, usize)>,
)
    requires
        execute(m, print_instruction(t), constants, functions) is Ok,
    ensures
        ({
            let after = execute(m, print_instruction(t), constants, functions)->Ok_0;
            after.stack.len() == m.stack.len() - 1 && after.output.len() == m.output.len() + 1
        }),
{
}

} // verus!
