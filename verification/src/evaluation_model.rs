//! The mathematical model of the evaluator that walks the operations of a program.

use vstd::prelude::*;
use crate::diagnostic::{DiagnosticModel, error_at};
use crate::ops::{OpModel, OpShape, int_text, ops_text};

verus! {

/// The mathematical form of a value.
pub enum ValueModel {
    Bool(bool),
    Int(i64),
    List(Seq<ValueModel>),
    /// A quotation: the operations of its body.
    Block(Seq<OpModel>),
}

/// Why evaluation stopped.
#[derive(Clone, Copy, Debug, PartialEq, Eq, Structural)]
pub enum EvalError {
    /// An operation wanted more values than the stack holds.
    StackUnderflow,
    /// An operation found a value of a kind that it cannot work on.
    TypeMismatch,
    DivisionByZero,
    /// A name is neither bound nor a function.
    UnknownName,
    /// Calls are nested deeper than allowed.
    DepthLimit,
}

/// The mathematical form of the evaluator.
#[verifier::ext_equal]
pub struct EvalModel {
    /// The value stack, bottom first.
    pub stack: Seq<ValueModel>,
    /// The functions defined so far, oldest first.
    pub functions: Seq<(Seq<char>, Seq<OpModel>)>,
    /// The names bound at this point, outermost first.
    pub bindings: Seq<(Seq<char>, ValueModel)>,
    pub diagnostics: Seq<DiagnosticModel>,
    /// The lines printed so far.
    pub output: Seq<Seq<char>>,
}

/// The state of an evaluator that knows the functions `functions` and nothing else.
pub open spec fn initial_evaluator(functions: Seq<(Seq<char>, Seq<OpModel>)>) -> EvalModel {
    EvalModel {
        stack: Seq::empty(),
        functions,
        bindings: Seq::empty(),
        diagnostics: Seq::empty(),
        output: Seq::empty(),
    }
}

/// What evaluation gives: the state after it, or why it stopped.
pub type Evaluated = Result<EvalModel, EvalError>;

/// The text that a value is printed as.
pub open spec fn value_text(v: ValueModel) -> Seq<char>
    decreases v, 0nat,
{
    match v {
        ValueModel::Bool(b) => if b {
            "true"@
        } else {
            "false"@
        },
        ValueModel::Int(i) => int_text(i),
        ValueModel::List(values) => "["@ + values_text(values, values.len()) + "]"@,
        ValueModel::Block(ops) => "("@ + ops_text(ops, ops.len()) + ")"@,
    }
}

/// The texts of the first `n` of `values`, separated by single spaces.
pub open spec fn values_text(values: Seq<ValueModel>, n: nat) -> Seq<char>
    decreases values, n,
{
    if n == 0 || n > values.len() {
        Seq::empty()
    } else if n == 1 {
        value_text(values[0])
    } else {
        values_text(values, (n - 1) as nat) + " "@ + value_text(values[n - 1])
    }
}

/// The size of an integer without its sign.
pub open spec fn magnitude(v: i64) -> nat {
    if v < 0 {
        (-v) as nat
    } else {
        v as nat
    }
}

/// The integer with the size `size` and the sign that `negative` gives it; the size
/// 2^63 gives the least integer with either sign.
pub open spec fn signed(size: nat, negative: bool) -> i64 {
    if size > i64::MAX {
        i64::MIN
    } else if negative {
        (-(size as int)) as i64
    } else {
        size as i64
    }
}

/// The quotient of two integers, rounded towards zero; it wraps around where it does
/// not fit.
pub open spec fn quotient(a: i64, b: i64) -> i64 {
    signed(magnitude(a) / magnitude(b), (a < 0) != (b < 0))
}

/// The remainder of two integers, with the sign of the first.
pub open spec fn remainder(a: i64, b: i64) -> i64 {
    signed(magnitude(a) % magnitude(b), a < 0)
}

/// What an arithmetic operation gives for the integers `b`, pushed first, and `a`.
/// Addition, subtraction and multiplication wrap around.
pub open spec fn arithmetic(kind: OpShape, b: i64, a: i64) -> Result<i64, EvalError> {
    match kind {
        OpShape::Plus => Ok(b.wrapping_add(a)),
        OpShape::Minus => Ok(b.wrapping_sub(a)),
        OpShape::Multiply => Ok(b.wrapping_mul(a)),
        OpShape::Divide => if a == 0 {
            Err(EvalError::DivisionByZero)
        } else {
            Ok(quotient(b, a))
        },
        OpShape::Modulo => if a == 0 {
            Err(EvalError::DivisionByZero)
        } else {
            Ok(remainder(b, a))
        },
        _ => Err(EvalError::TypeMismatch),
    }
}

/// The number that orders a value among those of its kind: an integer is ordered as
/// it is, `false` comes before `true`. Lists and blocks are not ordered.
pub open spec fn rank_of(v: ValueModel) -> Option<int> {
    match v {
        ValueModel::Int(i) => Some(i as int),
        ValueModel::Bool(b) => Some(
            if b {
                1int
            } else {
                0int
            },
        ),
        _ => None,
    }
}

/// What a comparison gives for the values `b`, pushed first, and `a`: two integers
/// or two truth values can be compared, anything else cannot.
pub open spec fn comparison(kind: OpShape, b: ValueModel, a: ValueModel) -> Result<bool, EvalError> {
    if (b is Int && a is Int) || (b is Bool && a is Bool) {
        let x = rank_of(b)->0;
        let y = rank_of(a)->0;
        match kind {
            OpShape::LessThan => Ok(x < y),
            OpShape::LessThanEquals => Ok(x <= y),
            OpShape::GreaterThan => Ok(x > y),
            OpShape::GreaterThanEquals => Ok(x >= y),
            OpShape::Equals => Ok(x == y),
            _ => Err(EvalError::TypeMismatch),
        }
    } else {
        Err(EvalError::TypeMismatch)
    }
}

/// The value that the innermost binding of `name` among the first `n` of `bindings` gives it.
pub open spec fn bound_value(bindings: Seq<(Seq<char>, ValueModel)>, name: Seq<char>, n: nat)
    -> Option<ValueModel>
    decreases n,
{
    if n == 0 || n > bindings.len() {
        None
    } else if bindings[n - 1].0 == name {
        Some(bindings[n - 1].1)
    } else {
        bound_value(bindings, name, (n - 1) as nat)
    }
}

/// The body of the latest definition of `name` among the first `n` of `functions`.
pub open spec fn function_body(functions: Seq<(Seq<char>, Seq<OpModel>)>, name: Seq<char>, n: nat)
    -> Option<Seq<OpModel>>
    decreases n,
{
    if n == 0 || n > functions.len() {
        None
    } else if functions[n - 1].0 == name {
        Some(functions[n - 1].1)
    } else {
        function_body(functions, name, (n - 1) as nat)
    }
}

/// `s` with `v` pushed.
pub open spec fn pushed(s: EvalModel, v: ValueModel) -> EvalModel {
    EvalModel { stack: s.stack.push(v), ..s }
}

/// `s` without the topmost `n` values.
pub open spec fn dropped(s: EvalModel, n: nat) -> EvalModel {
    EvalModel { stack: s.stack.take(s.stack.len() - n), ..s }
}

/// The value `k` places below the top of the stack.
pub open spec fn top(s: EvalModel, k: nat) -> ValueModel {
    s.stack[s.stack.len() - 1 - k]
}

/// The length of a list as an integer; the greatest integer for a longer list.
pub open spec fn length_of(values: Seq<ValueModel>) -> i64 {
    if values.len() <= i64::MAX {
        values.len() as i64
    } else {
        i64::MAX
    }
}

/// The message for the head of an empty list.
pub open spec fn empty_head_text() -> Seq<char> {
    "Cannot `head` an empty list"@
}

/// An operation that works on the stack alone: the state after it.
pub open spec fn eval_simple(s: EvalModel, op: OpModel) -> Evaluated {
    let n = s.stack.len();
    match op.kind {
        OpShape::PushBool(v) => Ok(pushed(s, ValueModel::Bool(v))),
        OpShape::PushInt(v) => Ok(pushed(s, ValueModel::Int(v))),
        OpShape::PushBlock(body) => Ok(pushed(s, ValueModel::Block(body))),
        OpShape::DumpStack => Ok(s),
        OpShape::Identity => if n < 1 {
            Err(EvalError::StackUnderflow)
        } else {
            Ok(s)
        },
        OpShape::Pop => if n < 1 {
            Err(EvalError::StackUnderflow)
        } else {
            Ok(dropped(s, 1))
        },
        OpShape::Dup => if n < 1 {
            Err(EvalError::StackUnderflow)
        } else {
            Ok(pushed(s, top(s, 0)))
        },
        OpShape::Over => if n < 2 {
            Err(EvalError::StackUnderflow)
        } else {
            Ok(pushed(s, top(s, 1)))
        },
        OpShape::Swap => if n < 2 {
            Err(EvalError::StackUnderflow)
        } else {
            Ok(pushed(pushed(dropped(s, 2), top(s, 0)), top(s, 1)))
        },
        OpShape::Rot => if n < 3 {
            Err(EvalError::StackUnderflow)
        } else {
            Ok(pushed(pushed(pushed(dropped(s, 3), top(s, 1)), top(s, 0)), top(s, 2)))
        },
        OpShape::Print => if n < 1 {
            Err(EvalError::StackUnderflow)
        } else {
            Ok(EvalModel { output: s.output.push(value_text(top(s, 0))), ..dropped(s, 1) })
        },
        OpShape::Not => if n < 1 {
            Err(EvalError::StackUnderflow)
        } else {
            match top(s, 0) {
                ValueModel::Bool(b) => Ok(pushed(dropped(s, 1), ValueModel::Bool(!b))),
                _ => Err(EvalError::TypeMismatch),
            }
        },
        OpShape::And | OpShape::Or => if n < 2 {
            Err(EvalError::StackUnderflow)
        } else {
            match (top(s, 1), top(s, 0)) {
                (ValueModel::Bool(b), ValueModel::Bool(a)) => Ok(
                    pushed(
                        dropped(s, 2),
                        ValueModel::Bool(
                            if op.kind is And {
                                a && b
                            } else {
                                a || b
                            },
                        ),
                    ),
                ),
                _ => Err(EvalError::TypeMismatch),
            }
        },
        OpShape::Plus | OpShape::Minus | OpShape::Multiply | OpShape::Divide | OpShape::Modulo => if n
            < 2 {
            Err(EvalError::StackUnderflow)
        } else {
            match (top(s, 1), top(s, 0)) {
                (ValueModel::Int(b), ValueModel::Int(a)) => match arithmetic(op.kind, b, a) {
                    Ok(v) => Ok(pushed(dropped(s, 2), ValueModel::Int(v))),
                    Err(e) => Err(e),
                },
                _ => Err(EvalError::TypeMismatch),
            }
        },
        OpShape::LessThan
        | OpShape::LessThanEquals
        | OpShape::GreaterThan
        | OpShape::GreaterThanEquals
        | OpShape::Equals => if n < 2 {
            Err(EvalError::StackUnderflow)
        } else {
            match comparison(op.kind, top(s, 1), top(s, 0)) {
                Ok(v) => Ok(pushed(dropped(s, 2), ValueModel::Bool(v))),
                Err(e) => Err(e),
            }
        },
        OpShape::Len => if n < 1 {
            Err(EvalError::StackUnderflow)
        } else {
            match top(s, 0) {
                ValueModel::List(values) => Ok(
                    pushed(dropped(s, 1), ValueModel::Int(length_of(values))),
                ),
                _ => Err(EvalError::TypeMismatch),
            }
        },
        OpShape::Concat => if n < 2 {
            Err(EvalError::StackUnderflow)
        } else {
            match (top(s, 1), top(s, 0)) {
                (ValueModel::List(first), ValueModel::List(second)) => Ok(
                    pushed(dropped(s, 2), ValueModel::List(first + second)),
                ),
                _ => Err(EvalError::TypeMismatch),
            }
        },
        OpShape::Push => if n < 2 {
            Err(EvalError::StackUnderflow)
        } else {
            match top(s, 1) {
                ValueModel::List(values) => Ok(
                    pushed(dropped(s, 2), ValueModel::List(values.push(top(s, 0)))),
                ),
                _ => Err(EvalError::TypeMismatch),
            }
        },
        OpShape::Head => if n < 1 {
            Err(EvalError::StackUnderflow)
        } else {
            match top(s, 0) {
                ValueModel::List(values) => if values.len() == 0 {
                    Ok(
                        EvalModel {
                            diagnostics: s.diagnostics.push(error_at(empty_head_text(), op.span)),
                            ..dropped(s, 1)
                        },
                    )
                } else {
                    Ok(pushed(dropped(s, 1), values[0]))
                },
                _ => Err(EvalError::TypeMismatch),
            }
        },
        OpShape::Tail => if n < 1 {
            Err(EvalError::StackUnderflow)
        } else {
            match top(s, 0) {
                ValueModel::List(values) => Ok(
                    pushed(
                        dropped(s, 1),
                        ValueModel::List(
                            if values.len() == 0 {
                                values
                            } else {
                                values.subrange(1, values.len() as int)
                            },
                        ),
                    ),
                ),
                _ => Err(EvalError::TypeMismatch),
            }
        },
        OpShape::DefineFunction { name, body } => Ok(
            EvalModel { functions: s.functions.push((name, body)), ..s },
        ),
        _ => Err(EvalError::TypeMismatch),
    }
}

/// Whether an operation works on the stack alone.
pub open spec fn is_simple(kind: OpShape) -> bool {
    !(kind is PushList || kind is Identifier || kind is If || kind is Binding || kind is Do
        || kind is MapEach || kind is Filter || kind is Fold || kind is Foreach)
}

/// Calling the block `body` on the state `s`, with `depth` levels of calls allowed.
pub open spec fn call(s: EvalModel, body: Seq<OpModel>, depth: nat) -> Evaluated
    decreases depth, 0nat, body, 0nat,
{
    if depth == 0 {
        Err(EvalError::DepthLimit)
    } else {
        eval_ops(s, body, 0, (depth - 1) as nat)
    }
}

/// Calling the block `body` on a stack of its own that holds `given`: the state after
/// it, in which the stack is that of the call.
pub open spec fn call_apart(s: EvalModel, body: Seq<OpModel>, given: Seq<ValueModel>, depth: nat)
    -> Evaluated
    decreases depth, 0nat, body, 1nat,
{
    call(EvalModel { stack: given, ..s }, body, depth)
}

/// Evaluating one operation, with `depth` levels of calls allowed.
///
/// A list literal is the values that its elements leave on a stack of their own. A
/// name stands for the value it is bound to or calls the function of that name. `do`
/// calls the block on top of the stack. `if` takes a truth value and evaluates its body
/// or the other one. A binding takes one value for each name, the last name first,
/// evaluates its body and forgets the names. `foreach` calls a block on each element
/// of a list, the first element first, on the stack as it stands; `map`, `filter` and
/// `fold` call it on a stack of its own, the last element first.
pub open spec fn eval_op(s: EvalModel, op: OpModel, depth: nat) -> Evaluated
    decreases depth, 2nat, op, 0nat,
{
    let n = s.stack.len();
    match op.kind {
        OpShape::PushList(elements) => match eval_ops(
            EvalModel { stack: Seq::empty(), ..s },
            elements,
            0,
            depth,
        ) {
            Ok(after) => Ok(
                EvalModel { stack: s.stack.push(ValueModel::List(after.stack)), ..after },
            ),
            Err(e) => Err(e),
        },
        OpShape::Identifier(name) => match bound_value(s.bindings, name, s.bindings.len()) {
            Some(v) => Ok(pushed(s, v)),
            None => match function_body(s.functions, name, s.functions.len()) {
                Some(body) => call(s, body, depth),
                None => Err(EvalError::UnknownName),
            },
        },
        OpShape::Do => if n < 1 {
            Err(EvalError::StackUnderflow)
        } else {
            match top(s, 0) {
                ValueModel::Block(body) => call(dropped(s, 1), body, depth),
                _ => Err(EvalError::TypeMismatch),
            }
        },
        OpShape::If { body, else_body } => if n < 1 {
            Err(EvalError::StackUnderflow)
        } else {
            match top(s, 0) {
                ValueModel::Bool(flag) => if flag {
                    eval_ops(dropped(s, 1), body, 0, depth)
                } else {
                    match else_body {
                        Some(other) => eval_ops(dropped(s, 1), other, 0, depth),
                        None => Ok(dropped(s, 1)),
                    }
                },
                _ => Err(EvalError::TypeMismatch),
            }
        },
        OpShape::Binding { bindings, body } => if n < bindings.len() {
            Err(EvalError::StackUnderflow)
        } else {
            let bound = EvalModel {
                bindings: s.bindings + Seq::new(
                    bindings.len(),
                    |k: int| (bindings[bindings.len() - 1 - k].0, top(s, k as nat)),
                ),
                ..dropped(s, bindings.len())
            };
            match eval_ops(bound, body, 0, depth) {
                Ok(after) => Ok(
                    EvalModel {
                        bindings: if s.bindings.len() <= after.bindings.len() {
                            after.bindings.take(s.bindings.len() as int)
                        } else {
                            after.bindings
                        },
                        ..after
                    },
                ),
                Err(e) => Err(e),
            }
        },
        OpShape::Foreach => if n < 2 {
            Err(EvalError::StackUnderflow)
        } else {
            match (top(s, 1), top(s, 0)) {
                (ValueModel::List(values), ValueModel::Block(body)) => each_from(
                    dropped(s, 2),
                    values,
                    0,
                    body,
                    depth,
                ),
                _ => Err(EvalError::TypeMismatch),
            }
        },
        OpShape::MapEach => if n < 2 {
            Err(EvalError::StackUnderflow)
        } else {
            match (top(s, 1), top(s, 0)) {
                (ValueModel::List(values), ValueModel::Block(body)) => match mapped(
                    dropped(s, 2),
                    values,
                    values.len(),
                    body,
                    Seq::empty(),
                    depth,
                ) {
                    Ok((after, results)) => Ok(pushed(after, ValueModel::List(results))),
                    Err(e) => Err(e),
                },
                _ => Err(EvalError::TypeMismatch),
            }
        },
        OpShape::Filter => if n < 2 {
            Err(EvalError::StackUnderflow)
        } else {
            match (top(s, 1), top(s, 0)) {
                (ValueModel::List(values), ValueModel::Block(body)) => match filtered(
                    dropped(s, 2),
                    values,
                    values.len(),
                    body,
                    Seq::empty(),
                    depth,
                ) {
                    Ok((after, results)) => Ok(pushed(after, ValueModel::List(results))),
                    Err(e) => Err(e),
                },
                _ => Err(EvalError::TypeMismatch),
            }
        },
        OpShape::Fold => if n < 3 {
            Err(EvalError::StackUnderflow)
        } else {
            match (top(s, 2), top(s, 0)) {
                (ValueModel::List(values), ValueModel::Block(body)) => match folded(
                    dropped(s, 3),
                    values,
                    values.len(),
                    body,
                    top(s, 1),
                    depth,
                ) {
                    Ok((after, result)) => Ok(pushed(after, result)),
                    Err(e) => Err(e),
                },
                _ => Err(EvalError::TypeMismatch),
            }
        },
        _ => eval_simple(s, op),
    }
}

/// Evaluating the operations of `ops` from position `from` on, in order.
pub open spec fn eval_ops(s: EvalModel, ops: Seq<OpModel>, from: nat, depth: nat) -> Evaluated
    decreases depth, 2nat, ops, ops.len() - from,
{
    if from >= ops.len() {
        Ok(s)
    } else {
        match eval_op(s, ops[from as int], depth) {
            Ok(after) => eval_ops(after, ops, from + 1, depth),
            Err(e) => Err(e),
        }
    }
}

/// Calling `body` on each of `values` from position `from` on, in order, on the stack
/// as it stands with the value pushed.
pub open spec fn each_from(
    s: EvalModel,
    values: Seq<ValueModel>,
    from: nat,
    body: Seq<OpModel>,
    depth: nat,
) -> Evaluated
    decreases depth, 1nat, values, values.len() - from,
{
    if from >= values.len() {
        Ok(s)
    } else {
        match call(pushed(s, values[from as int]), body, depth) {
            Ok(after) => each_from(after, values, from + 1, body, depth),
            Err(e) => Err(e),
        }
    }
}

/// Calling `body` on each of the first `n` of `values`, the last of them first, each
/// on a stack of its own: the state after it and the values that the calls left on
/// top, in the order of `values`, before `done`.
pub open spec fn mapped(
    s: EvalModel,
    values: Seq<ValueModel>,
    n: nat,
    body: Seq<OpModel>,
    done: Seq<ValueModel>,
    depth: nat,
) -> Result<(EvalModel, Seq<ValueModel>), EvalError>
    decreases depth, 1nat, values, n,
{
    if n == 0 || n > values.len() {
        Ok((s, done))
    } else {
        match call_apart(s, body, seq![values[n - 1]], depth) {
            Ok(after) => if after.stack.len() < 1 {
                Err(EvalError::StackUnderflow)
            } else {
                mapped(
                    EvalModel { stack: s.stack, ..after },
                    values,
                    (n - 1) as nat,
                    body,
                    seq![after.stack.last()] + done,
                    depth,
                )
            },
            Err(e) => Err(e),
        }
    }
}

/// Calling `body` on each of the first `n` of `values`, the last of them first, each
/// on a stack of its own: the state after it and the values for which the call left
/// `true` on top, in the order of `values`, before `done`.
pub open spec fn filtered(
    s: EvalModel,
    values: Seq<ValueModel>,
    n: nat,
    body: Seq<OpModel>,
    done: Seq<ValueModel>,
    depth: nat,
) -> Result<(EvalModel, Seq<ValueModel>), EvalError>
    decreases depth, 1nat, values, n,
{
    if n == 0 || n > values.len() {
        Ok((s, done))
    } else {
        match call_apart(s, body, seq![values[n - 1]], depth) {
            Ok(after) => if after.stack.len() < 1 {
                Err(EvalError::StackUnderflow)
            } else {
                match after.stack.last() {
                    ValueModel::Bool(keep) => filtered(
                        EvalModel { stack: s.stack, ..after },
                        values,
                        (n - 1) as nat,
                        body,
                        if keep {
                            seq![values[n - 1]] + done
                        } else {
                            done
                        },
                        depth,
                    ),
                    _ => Err(EvalError::TypeMismatch),
                }
            },
            Err(e) => Err(e),
        }
    }
}

/// Calling `body` on each of the first `n` of `values` and the accumulator, the last
/// value first, each on a stack of its own that holds the value and, above it, the
/// accumulator: the state after it and the last accumulator.
pub open spec fn folded(
    s: EvalModel,
    values: Seq<ValueModel>,
    n: nat,
    body: Seq<OpModel>,
    accumulator: ValueModel,
    depth: nat,
) -> Result<(EvalModel, ValueModel), EvalError>
    decreases depth, 1nat, values, n,
{
    if n == 0 || n > values.len() {
        Ok((s, accumulator))
    } else {
        match call_apart(s, body, seq![values[n - 1], accumulator], depth) {
            Ok(after) => if after.stack.len() < 1 {
                Err(EvalError::StackUnderflow)
            } else {
                folded(
                    EvalModel { stack: s.stack, ..after },
                    values,
                    (n - 1) as nat,
                    body,
                    after.stack.last(),
                    depth,
                )
            },
            Err(e) => Err(e),
        }
    }
}

} // verus!
