//! Code without jumps and calls: the machine runs it one instruction after the other.

use vstd::prelude::*;
use crate::bytecode::{ByteCodeInstruction, decoding_at, encoding, lemma_decode_at_encoded};
use crate::machine_model::{Machine, VmError, execute, load_code, run, step};

verus! {

/// Whether an instruction leaves the program counter alone: it neither jumps nor
/// calls nor returns.
pub open spec fn plain(i: ByteCodeInstruction) -> bool {
    !(i is Jump || i is JumpIfFalse || i is CallStatic || i is CallDynamic || i is Return)
}

/// Whether every instruction of `code` is plain.
pub open spec fn all_plain(code: Seq<ByteCodeInstruction>) -> bool {
    forall|k: int| 0 <= k < code.len() ==> plain(#[trigger] code[k])
}

/// The words that the instructions of `code` from position `from` on are encoded as.
pub open spec fn encoded(code: Seq<ByteCodeInstruction>, from: nat) -> Seq<usize>
    decreases code.len() - from,
{
    if from >= code.len() {
        Seq::empty()
    } else {
        encoding(code[from as int]) + encoded(code, from + 1)
    }
}

/// Executing the instructions of `code` from position `from` on, one after the other:
/// the state after the last, or the error of the first that fails.
pub open spec fn straight(
    m: Machine,
    code: Seq<ByteCodeInstruction>,
    from: nat,
    constants: Seq<Seq<char>>,
    functions: Seq<(Seq<char>, usize)>,
) -> Result<Machine, VmError>
    decreases code.len() - from,
{
    if from >= code.len() {
        Ok(m)
    } else {
        let i = code[from as int];
        match execute(
            Machine { pc: (m.pc + encoding(i).len()) as usize, ..m },
            i,
            constants,
            functions,
        ) {
            Ok(next) => straight(next, code, from + 1, constants, functions),
            Err(e) => Err(e),
        }
    }
}

/// A plain instruction changes neither the program counter nor the code.
pub proof fn lemma_plain_keeps_pc(
    m: Machine,
    i: ByteCodeInstruction,
    constants: Seq<Seq<char>>,
    functions: Seq<(Seq<char>, usize)>,
)
    requires
        plain(i),
    ensures
        execute(m, i, constants, functions) matches Ok(next) ==> next.pc == m.pc && next.rom
            == m.rom,
{
}

/// Executing code from a position on is executing the rest of the code from its
/// start.
pub proof fn lemma_straight_rest(
    m: Machine,
    code: Seq<ByteCodeInstruction>,
    from: nat,
    constants: Seq<Seq<char>>,
    functions: Seq<(Seq<char>, usize)>,
)
    requires
        from <= code.len(),
    ensures
        straight(m, code, from, constants, functions) == straight(
            m,
            code.subrange(from as int, code.len() as int),
            0,
            constants,
            functions,
        ),
    decreases code.len() - from,
{
    let rest = code.subrange(from as int, code.len() as int);
    if from < code.len() {
        let i = code[from as int];
        assert(rest[0] == i);
        match execute(
            Machine { pc: (m.pc + encoding(i).len()) as usize, ..m },
            i,
            constants,
            functions,
        ) {
            Ok(next) => {
                lemma_straight_rest(next, code, from + 1, constants, functions);
                lemma_straight_rest(next, rest, 1, constants, functions);
                assert(rest.subrange(1, rest.len() as int) =~= code.subrange(
                    from + 1 as int,
                    code.len() as int,
                ));
            },
            Err(_) => {},
        }
    }
}

/// Executing two codes one after the other is executing the first and then, where
/// that succeeds, the second.
pub proof fn lemma_straight_concat(
    m: Machine,
    first: Seq<ByteCodeInstruction>,
    second: Seq<ByteCodeInstruction>,
    from: nat,
    constants: Seq<Seq<char>>,
    functions: Seq<(Seq<char>, usize)>,
)
    requires
        from <= first.len(),
    ensures
        straight(m, first + second, from, constants, functions) == match straight(
            m,
            first,
            from,
            constants,
            functions,
        ) {
            Ok(next) => straight(next, second, 0, constants, functions),
            Err(e) => Err(e),
        },
    decreases first.len() - from,
{
    let whole = first + second;
    if from < first.len() {
        let i = first[from as int];
        assert(whole[from as int] == i);
        match execute(
            Machine { pc: (m.pc + encoding(i).len()) as usize, ..m },
            i,
            constants,
            functions,
        ) {
            Ok(next) => {
                lemma_straight_concat(next, first, second, from + 1, constants, functions);
            },
            Err(_) => {},
        }
    } else {
        lemma_straight_rest(m, whole, from, constants, functions);
        assert(whole.subrange(from as int, whole.len() as int) =~= second);
    }
}

/// The encoding of code has at least one word for each instruction.
proof fn lemma_encoded_length(code: Seq<ByteCodeInstruction>, from: nat)
    requires
        from <= code.len(),
    ensures
        encoded(code, from).len() >= code.len() - from,
    decreases code.len() - from,
{
    if from < code.len() {
        lemma_encoded_length(code, from + 1);
    }
}

/// Loading code adds its encoding at the end of the code of the machine and changes
/// nothing but the code and the label table.
pub proof fn lemma_load_code(m: Machine, code: Seq<ByteCodeInstruction>, from: nat)
    requires
        from <= code.len(),
    ensures
        load_code(m, code, from).rom == m.rom + encoded(code, from),
        load_code(m, code, from) == (Machine {
            rom: load_code(m, code, from).rom,
            labels: load_code(m, code, from).labels,
            ..m
        }),
    decreases code.len() - from,
{
    if from < code.len() {
        let i = code[from as int];
        let labels = match i {
            ByteCodeInstruction::Label(label) => m.labels.push((label, m.rom.len() as usize)),
            _ => m.labels,
        };
        let next = Machine { labels, rom: m.rom + encoding(i), ..m };
        lemma_load_code(next, code, from + 1);
        assert(m.rom + encoding(i) + encoded(code, from + 1) =~= m.rom + encoded(code, from));
    } else {
        assert(m.rom + encoded(code, from) =~= m.rom);
    }
}

/// The machine runs plain code one instruction after the other.
///
/// Where the code of the machine ends with the encoding of plain instructions and the
/// program counter stands at their start, running the machine for as many steps as
/// there are instructions executes them in order: it ends in the state after the last,
/// at the end of the code, or with the error of the first instruction that fails.
pub proof fn lemma_run_straight(
    m: Machine,
    code: Seq<ByteCodeInstruction>,
    from: nat,
    constants: Seq<Seq<char>>,
    functions: Seq<(Seq<char>, usize)>,
    fuel: nat,
)
    requires
        all_plain(code),
        from <= code.len(),
        m.rom.len() <= usize::MAX,
        m.pc + encoded(code, from).len() == m.rom.len(),
        m.rom.subrange(m.pc as int, m.rom.len() as int) == encoded(code, from),
        fuel >= code.len() - from,
    ensures
        match straight(m, code, from, constants, functions) {
            Ok(last) => run(m, constants, functions, fuel) == (last, None::<VmError>)
                && last.pc == m.rom.len() && last.rom == m.rom,
            Err(e) => run(m, constants, functions, fuel).1 == Some(e),
        },
    decreases code.len() - from,
{
    if from < code.len() {
        let i = code[from as int];
        let words = encoding(i);
        let rest = encoded(code, from + 1);
        let tail = m.rom.subrange(m.pc as int, m.rom.len() as int);
        assert(tail == words + rest);
        assert(m.rom.subrange(m.pc as int, m.pc + words.len()) =~= words) by {
            assert forall|k: int| 0 <= k < words.len() implies m.rom[m.pc + k] == words[k] by {
                assert(tail[k] == m.rom[m.pc + k]);
            }
        }
        lemma_decode_at_encoded(m.rom, m.pc as int, i);
        assert(decoding_at(m.rom, m.pc as int) == Some((i, words.len() as usize)));
        let entered = Machine { pc: (m.pc + words.len()) as usize, ..m };
        lemma_plain_keeps_pc(entered, i, constants, functions);
        match execute(entered, i, constants, functions) {
            Ok(next) => {
                assert(next.rom.subrange(next.pc as int, next.rom.len() as int) =~= rest) by {
                    assert forall|k: int| 0 <= k < rest.len() implies next.rom[next.pc + k]
                        == rest[k] by {
                        assert(tail[words.len() + k] == m.rom[m.pc + words.len() + k]);
                    }
                }
                lemma_run_straight(next, code, from + 1, constants, functions, (fuel - 1) as nat);
                assert(step(m, constants, functions) == Ok::<Machine, VmError>(next));
            },
            Err(e) => {
                assert(step(m, constants, functions) == Err::<Machine, VmError>(e));
            },
        }
    }
}

} // verus!
