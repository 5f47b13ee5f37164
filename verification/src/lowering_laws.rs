//! What holds of the lowerer whatever program it lowers: every jump of the code it
//! makes goes to a label of that code.

use vstd::prelude::*;
use crate::bytecode::ByteCodeInstruction;
use crate::lowering_model::{
    LowerModel, bind_slots, duplicate_list_code, emitted_position, filter_code, fold_code,
    foreach_code, four_locals_two_labels, fresh_label, fresh_local, initial_lowerer, lower_all,
    lower_backwards, lower_one, lower_program, map_code, three_locals_two_labels,
    two_labels_two_locals, with_code,
};
use crate::typed_op::{TypedKind, TypedModel};

verus! {

/// The label that an instruction jumps to, if it jumps.
pub open spec fn jump_target(i: ByteCodeInstruction) -> Option<usize> {
    match i {
        ByteCodeInstruction::Jump { label } => Some(label),
        ByteCodeInstruction::JumpIfFalse { label } => Some(label),
        _ => None,
    }
}

/// Whether `code` holds the label `label`.
pub open spec fn defines(code: Seq<ByteCodeInstruction>, label: usize) -> bool {
    exists|j: int| 0 <= j < code.len() && #[trigger] code[j] == ByteCodeInstruction::Label(label)
}

/// Whether every jump of `code` goes to a label that `code` holds.
pub open spec fn closed(code: Seq<ByteCodeInstruction>) -> bool {
    forall|k: int|
        0 <= k < code.len() ==> (jump_target(#[trigger] code[k]) matches Some(label) ==> defines(
            code,
            label,
        ))
}

/// Whether every code of the table `emitted` is closed.
pub open spec fn all_closed(emitted: Seq<(Seq<char>, Seq<ByteCodeInstruction>)>) -> bool {
    forall|k: int| 0 <= k < emitted.len() ==> closed((#[trigger] emitted[k]).1)
}

/// Code that holds a label holds it with more code before and behind it.
proof fn lemma_defines_inside(
    before: Seq<ByteCodeInstruction>,
    code: Seq<ByteCodeInstruction>,
    behind: Seq<ByteCodeInstruction>,
    label: usize,
)
    requires
        defines(code, label),
    ensures
        defines(before + code + behind, label),
{
    let j = choose|j: int| 0 <= j < code.len() && #[trigger] code[j] == ByteCodeInstruction::Label(
        label,
    );
    assert((before + code + behind)[before.len() + j] == ByteCodeInstruction::Label(label));
}

/// Closed codes one after the other are closed.
pub proof fn lemma_closed_concat(a: Seq<ByteCodeInstruction>, b: Seq<ByteCodeInstruction>)
    requires
        closed(a),
        closed(b),
    ensures
        closed(a + b),
{
    let whole = a + b;
    assert forall|k: int| 0 <= k < whole.len() implies (jump_target(
        #[trigger] whole[k],
    ) matches Some(label) ==> defines(whole, label)) by {
        match jump_target(whole[k]) {
            Some(label) => {
                if k < a.len() {
                    assert(whole[k] == a[k]);
                    lemma_defines_inside(Seq::empty(), a, b, label);
                    assert(Seq::<ByteCodeInstruction>::empty() + a + b =~= whole);
                } else {
                    assert(whole[k] == b[k - a.len()]);
                    lemma_defines_inside(a, b, Seq::empty(), label);
                    assert(a + b + Seq::<ByteCodeInstruction>::empty() =~= whole);
                }
            },
            None => {},
        }
    }
}

/// Closed code with an instruction that does not jump at its end is closed.
proof fn lemma_closed_push(code: Seq<ByteCodeInstruction>, i: ByteCodeInstruction)
    requires
        closed(code),
        jump_target(i) is None,
    ensures
        closed(code.push(i)),
{
    assert(closed(seq![i]));
    lemma_closed_concat(code, seq![i]);
    assert(code + seq![i] =~= code.push(i));
}

/// Closed code between a jump to a label and that label is closed.
proof fn lemma_closed_guarded(code: Seq<ByteCodeInstruction>, label: usize)
    requires
        closed(code),
    ensures
        closed(
            (seq![ByteCodeInstruction::JumpIfFalse { label }] + code).push(
                ByteCodeInstruction::Label(label),
            ),
        ),
{
    let head = seq![ByteCodeInstruction::JumpIfFalse { label }];
    let whole = (head + code).push(ByteCodeInstruction::Label(label));
    assert forall|k: int| 0 <= k < whole.len() implies (jump_target(
        #[trigger] whole[k],
    ) matches Some(target) ==> defines(whole, target)) by {
        match jump_target(whole[k]) {
            Some(target) => {
                if k == 0 {
                    assert(whole[whole.len() - 1] == ByteCodeInstruction::Label(label));
                } else if k <= code.len() {
                    assert(whole[k] == code[k - 1]);
                    lemma_defines_inside(head, code, seq![ByteCodeInstruction::Label(label)], target);
                    assert(head + code + seq![ByteCodeInstruction::Label(label)] =~= whole);
                }
            },
            None => {},
        }
    }
}

/// Two closed codes as the branches of an `if` with an `else` are closed.
proof fn lemma_closed_branches(
    first: Seq<ByteCodeInstruction>,
    second: Seq<ByteCodeInstruction>,
    other: usize,
    end: usize,
)
    requires
        closed(first),
        closed(second),
    ensures
        closed(
            ((seq![ByteCodeInstruction::JumpIfFalse { label: other }] + first).push(
                ByteCodeInstruction::Jump { label: end },
            ).push(ByteCodeInstruction::Label(other)) + second).push(
                ByteCodeInstruction::Label(end),
            ),
        ),
{
    let head = seq![ByteCodeInstruction::JumpIfFalse { label: other }];
    let middle = seq![
        ByteCodeInstruction::Jump { label: end },
        ByteCodeInstruction::Label(other),
    ];
    let tail = seq![ByteCodeInstruction::Label(end)];
    let whole = ((head + first).push(ByteCodeInstruction::Jump { label: end }).push(
        ByteCodeInstruction::Label(other),
    ) + second).push(ByteCodeInstruction::Label(end));
    assert(whole =~= head + first + middle + second + tail);
    assert(whole[first.len() + 2 as int] == ByteCodeInstruction::Label(other));
    assert(whole[whole.len() - 1] == ByteCodeInstruction::Label(end));
    assert forall|k: int| 0 <= k < whole.len() implies (jump_target(
        #[trigger] whole[k],
    ) matches Some(target) ==> defines(whole, target)) by {
        match jump_target(whole[k]) {
            Some(target) => {
                if 1 <= k <= first.len() {
                    assert(whole[k] == first[k - 1]);
                    lemma_defines_inside(head, first, middle + second + tail, target);
                    assert(head + first + (middle + second + tail) =~= whole);
                } else if first.len() + 3 <= k < whole.len() - 1 {
                    assert(whole[k] == second[k - first.len() - 3]);
                    lemma_defines_inside(head + first + middle, second, tail, target);
                }
            },
            None => {},
        }
    }
}

/// The code of a loop over a list is closed.
proof fn lemma_patterns_closed(a: usize, b: usize, c: usize, d: usize, cond: usize, end: usize)
    ensures
        closed(map_code(a, b, c, cond, end)),
        closed(filter_code(a, b, c, d, cond, end)),
        closed(fold_code(a, b, c, d, cond, end)),
        closed(foreach_code(a, b, c, cond, end)),
        closed(duplicate_list_code(a, b, cond, end)),
{
    let m = map_code(a, b, c, cond, end);
    assert(m[5] == ByteCodeInstruction::Label(cond) && m[19] == ByteCodeInstruction::Label(end));
    let f = filter_code(a, b, c, d, cond, end);
    assert(f[7] == ByteCodeInstruction::Label(cond) && f[28] == ByteCodeInstruction::Label(end));
    let g = fold_code(a, b, c, d, cond, end);
    assert(g[6] == ByteCodeInstruction::Label(cond) && g[22] == ByteCodeInstruction::Label(end));
    let h = foreach_code(a, b, c, cond, end);
    assert(h[4] == ByteCodeInstruction::Label(cond) && h[19] == ByteCodeInstruction::Label(end));
    let l = duplicate_list_code(a, b, cond, end);
    assert(l[4] == ByteCodeInstruction::Label(cond) && l[16] == ByteCodeInstruction::Label(end));
}

/// Entering closed code in a table of closed codes leaves all of them closed.
proof fn lemma_with_code_closed(
    emitted: Seq<(Seq<char>, Seq<ByteCodeInstruction>)>,
    name: Seq<char>,
    code: Seq<ByteCodeInstruction>,
)
    requires
        all_closed(emitted),
        closed(code),
    ensures
        all_closed(with_code(emitted, name, code)),
{
    let after = with_code(emitted, name, code);
    lemma_emitted_position_in_range(emitted, name, 0);
    assert forall|k: int| 0 <= k < after.len() implies closed((#[trigger] after[k]).1) by {
        match emitted_position(emitted, name, 0) {
            Some(at) => {
                if k != at {
                    assert(after[k] == emitted[k]);
                }
            },
            None => {
                if k < emitted.len() {
                    assert(after[k] == emitted[k]);
                }
            },
        }
    }
}

/// The position that a name is found at is a position of the table.
proof fn lemma_emitted_position_in_range(
    emitted: Seq<(Seq<char>, Seq<ByteCodeInstruction>)>,
    name: Seq<char>,
    from: nat,
)
    ensures
        emitted_position(emitted, name, from) matches Some(at) ==> at < emitted.len(),
    decreases emitted.len() - from,
{
    if from < emitted.len() && emitted[from as int].0 != name {
        lemma_emitted_position_in_range(emitted, name, from + 1);
    }
}

/// The stores of a binding are closed code, and binding changes no code.
proof fn lemma_bind_slots_closed(
    s: LowerModel,
    names: Seq<Seq<char>>,
    from: nat,
    code: Seq<ByteCodeInstruction>,
)
    requires
        closed(code),
    ensures
        bind_slots(s, names, from, code) matches Ok(found) ==> closed(found.1) && found.0.emitted
            == s.emitted,
    decreases names.len() - from,
{
    if from < names.len() {
        match fresh_local(s) {
            Ok((s1, slot)) => {
                lemma_closed_push(code, ByteCodeInstruction::Store { index: slot });
                lemma_bind_slots_closed(
                    LowerModel { bindings: s1.bindings.push((names[from as int], slot)), ..s1 },
                    names,
                    from + 1,
                    code.push(ByteCodeInstruction::Store { index: slot }),
                );
            },
            Err(_) => {},
        }
    }
}

/// Lowering one operation gives closed code: every jump in it goes to a label in it.
/// The codes of the blocks and functions that it compiles are closed too.
pub proof fn lemma_lower_one_closed(s: LowerModel, op: TypedModel)
    requires
        all_closed(s.emitted),
    ensures
        lower_one(s, op) matches Ok(found) ==> closed(found.1) && all_closed(found.0.emitted),
    decreases op, 0nat,
{
    match op.kind {
        TypedKind::PushList(elements) => {
            lemma_lower_backwards_closed(s, elements, elements.len(), seq![]);
            match lower_backwards(s, elements, elements.len(), seq![]) {
                Ok((s1, code)) => {
                    lemma_closed_push(code, ByteCodeInstruction::Push(elements.len() as usize));
                    lemma_closed_push(
                        code.push(ByteCodeInstruction::Push(elements.len() as usize)),
                        ByteCodeInstruction::NewList,
                    );
                },
                Err(_) => {},
            }
        },
        TypedKind::PushBlock(body) => {
            let name = crate::lowering_model::block_name(s.pool.len());
            let s0 = LowerModel { pool: s.pool.push(name), ..s };
            lemma_lower_all_closed(s0, body, 0, seq![]);
            match lower_all(s0, body, 0, seq![]) {
                Ok((s1, code)) => {
                    lemma_closed_push(code, ByteCodeInstruction::Return);
                    lemma_with_code_closed(s1.emitted, name, code.push(ByteCodeInstruction::Return));
                },
                Err(_) => {},
            }
        },
        TypedKind::Dup => {
            match two_labels_two_locals(s) {
                Ok((s1, cond, end, list, counter)) => {
                    lemma_patterns_closed(list, counter, 0, 0, cond, end);
                },
                Err(_) => {},
            }
        },
        TypedKind::MapEach => {
            match three_locals_two_labels(s) {
                Ok((s1, a, b, c, cond, end)) => {
                    lemma_patterns_closed(a, b, c, 0, cond, end);
                },
                Err(_) => {},
            }
        },
        TypedKind::Foreach => {
            match three_locals_two_labels(s) {
                Ok((s1, a, b, c, cond, end)) => {
                    lemma_patterns_closed(a, b, c, 0, cond, end);
                },
                Err(_) => {},
            }
        },
        TypedKind::Filter => {
            match four_locals_two_labels(s) {
                Ok((s1, a, b, c, d, cond, end)) => {
                    lemma_patterns_closed(a, b, c, d, cond, end);
                },
                Err(_) => {},
            }
        },
        TypedKind::Fold => {
            match four_locals_two_labels(s) {
                Ok((s1, a, b, c, d, cond, end)) => {
                    lemma_patterns_closed(a, b, c, d, cond, end);
                },
                Err(_) => {},
            }
        },
        TypedKind::DefineFunction { name, block } => {
            match block.kind {
                TypedKind::PushBlock(body) => {
                    lemma_lower_all_closed(s, body, 0, seq![]);
                    match lower_all(s, body, 0, seq![]) {
                        Ok((s1, code)) => {
                            lemma_closed_push(code, ByteCodeInstruction::Return);
                            lemma_with_code_closed(
                                s1.emitted,
                                name,
                                code.push(ByteCodeInstruction::Return),
                            );
                        },
                        Err(_) => {},
                    }
                },
                _ => {},
            }
        },
        TypedKind::Binding { bindings, body } => {
            lemma_bind_slots_closed(s, bindings, 0, seq![]);
            match bind_slots(s, bindings, 0, seq![]) {
                Ok((s1, stores)) => {
                    lemma_lower_all_closed(s1, body, 0, seq![]);
                    match lower_all(s1, body, 0, seq![]) {
                        Ok((s2, body_code)) => {
                            lemma_closed_concat(stores, body_code);
                        },
                        Err(_) => {},
                    }
                },
                Err(_) => {},
            }
        },
        TypedKind::If { body, else_body } => {
            match fresh_label(s) {
                Ok((s1, end)) => {
                    lemma_lower_all_closed(s1, body, 0, seq![]);
                    match lower_all(s1, body, 0, seq![]) {
                        Ok((s2, then_code)) => {
                            match else_body {
                                None => {
                                    lemma_closed_guarded(then_code, end);
                                },
                                Some(other) => {
                                    match fresh_label(s2) {
                                        Ok((s3, else_label)) => {
                                            lemma_lower_all_closed(s3, other, 0, seq![]);
                                            match lower_all(s3, other, 0, seq![]) {
                                                Ok((s4, else_code)) => {
                                                    lemma_closed_branches(
                                                        then_code,
                                                        else_code,
                                                        else_label,
                                                        end,
                                                    );
                                                },
                                                Err(_) => {},
                                            }
                                        },
                                        Err(_) => {},
                                    }
                                },
                            }
                        },
                        Err(_) => {},
                    }
                },
                Err(_) => {},
            }
        },
        _ => {},
    }
}

/// Lowering a sequence of operations after closed code gives closed code.
pub proof fn lemma_lower_all_closed(
    s: LowerModel,
    ops: Seq<TypedModel>,
    from: nat,
    code: Seq<ByteCodeInstruction>,
)
    requires
        all_closed(s.emitted),
        closed(code),
    ensures
        lower_all(s, ops, from, code) matches Ok(found) ==> closed(found.1) && all_closed(
            found.0.emitted,
        ),
    decreases ops, ops.len() - from,
{
    if from < ops.len() {
        lemma_lower_one_closed(s, ops[from as int]);
        match lower_one(s, ops[from as int]) {
            Ok((s1, more)) => {
                lemma_closed_concat(code, more);
                lemma_lower_all_closed(s1, ops, from + 1, code + more);
            },
            Err(_) => {},
        }
    }
}

/// Lowering operations last first after closed code gives closed code.
pub proof fn lemma_lower_backwards_closed(
    s: LowerModel,
    ops: Seq<TypedModel>,
    n: nat,
    code: Seq<ByteCodeInstruction>,
)
    requires
        all_closed(s.emitted),
        closed(code),
    ensures
        lower_backwards(s, ops, n, code) matches Ok(found) ==> closed(found.1) && all_closed(
            found.0.emitted,
        ),
    decreases ops, n,
{
    if n == 0 || n > ops.len() {
    } else {
        lemma_lower_one_closed(s, ops[n - 1]);
        match lower_one(s, ops[n - 1]) {
            Ok((s1, more)) => {
                lemma_closed_concat(code, more);
                lemma_lower_backwards_closed(s1, ops, (n - 1) as nat, code + more);
            },
            Err(_) => {},
        }
    }
}

/// In every frame of a lowered program every jump goes to a label of the frame: a
/// program made by the lowerer never jumps to a label that is missing.
pub proof fn lemma_lower_program_closed(s: LowerModel, ops: Seq<TypedModel>)
    requires
        all_closed(s.emitted),
    ensures
        lower_program(s, ops) matches Ok(found) ==> all_closed(found.0.emitted) && forall|k: int|
            0 <= k < found.1.len() ==> closed((#[trigger] found.1[k]).1.instructions),
{
    lemma_lower_all_closed(s, ops, 0, seq![]);
    match lower_all(s, ops, 0, seq![]) {
        Ok((s1, code)) => {
            lemma_frames_closed(s1.emitted, s1.max_locals, s1.emitted.len());
        },
        Err(_) => {},
    }
}

/// The frames made of closed codes are closed.
proof fn lemma_frames_closed(
    emitted: Seq<(Seq<char>, Seq<ByteCodeInstruction>)>,
    max_locals: usize,
    n: nat,
)
    requires
        all_closed(emitted),
    ensures
        forall|k: int|
            0 <= k < crate::lowering_model::frames_of(emitted, max_locals, n).len() ==> closed(
                (#[trigger] crate::lowering_model::frames_of(emitted, max_locals, n)[k]).1.instructions,
            ),
    decreases n,
{
    if n == 0 || n > emitted.len() {
    } else {
        lemma_frames_closed(emitted, max_locals, (n - 1) as nat);
        let before = crate::lowering_model::frames_of(emitted, max_locals, (n - 1) as nat);
        let after = crate::lowering_model::frames_of(emitted, max_locals, n);
        assert forall|k: int| 0 <= k < after.len() implies closed(
            (#[trigger] after[k]).1.instructions,
        ) by {
            if k < before.len() {
                assert(after[k] == before[k]);
            } else {
                assert(after[k].1.instructions == emitted[n - 1].1);
            }
        }
    }
}

/// A new lowerer has compiled no code.
pub proof fn lemma_initial_closed()
    ensures
        all_closed(initial_lowerer().emitted),
{
}

} // verus!
