//! The evaluator that walks the operations of a program as they were parsed.

use vstd::prelude::*;
use vstd::string::*;
use crate::diagnostic::{Diagnostic, diagnostics_of, push_diagnostic};
use crate::evaluation_model::{
    EvalError, EvalModel, Evaluated, ValueModel, arithmetic, bound_value, call, call_apart,
    comparison, dropped, each_from, eval_op, eval_ops, eval_simple, filtered, folded,
    function_body, initial_evaluator, is_simple, magnitude, mapped, pushed, signed, top,
    value_text, values_text,
};
use crate::ops::{Op, OpKind, OpModel, duplicate_ops, op_models, push_int, write_ops};
use crate::typed_op::names_of;

verus! {

/// A value of the language.
#[derive(Debug)]
pub enum Value {
    Bool(bool),
    Int(i64),
    List(Vec<Value>),
    /// A quotation: the operations of its body.
    Block(Vec<Op>),
}

/// The mathematical form of `v`.
pub open spec fn value_model(v: Value) -> ValueModel
    decreases v, 0nat,
{
    match v {
        Value::Bool(b) => ValueModel::Bool(b),
        Value::Int(i) => ValueModel::Int(i),
        Value::List(values) => ValueModel::List(value_models(values@)),
        Value::Block(ops) => ValueModel::Block(op_models(ops@)),
    }
}

/// The mathematical forms of the values in `values`, in order.
pub open spec fn value_models(values: Seq<Value>) -> Seq<ValueModel>
    decreases values, 1nat,
{
    Seq::new(
        values.len(),
        |i: int|
            if 0 <= i < values.len() {
                value_model(values[i])
            } else {
                ValueModel::Bool(false)
            },
    )
}

impl View for Value {
    type V = ValueModel;

    open spec fn view(&self) -> ValueModel {
        value_model(*self)
    }
}

/// Copies of the values in `values`, in order.
pub fn duplicate_values(values: &Vec<Value>) -> (r: Vec<Value>)
    ensures
        value_models(r@) == value_models(values@),
    decreases values, 0nat,
{
    let mut out: Vec<Value> = Vec::new();
    let mut k: usize = 0;
    while k < values.len()
        invariant
            k <= values.len(),
            out@.len() == k,
            forall|j: int| 0 <= j < k ==> out@[j]@ == values@[j]@,
        decreases values.len() - k,
    {
        out.push(values[k].duplicate());
        k += 1;
    }
    assert(value_models(out@) =~= value_models(values@));
    out
}

/// Appends the texts of the values in `values`, separated by single spaces, to `out`.
pub fn write_values(values: &Vec<Value>, out: &mut String)
    ensures
        final(out)@ == old(out)@ + values_text(value_models(values@), values@.len()),
    decreases values, 0nat,
{
    let mut k: usize = 0;
    assert(out@ =~= old(out)@ + values_text(value_models(values@), 0));
    while k < values.len()
        invariant
            k <= values.len(),
            out@ == old(out)@ + values_text(value_models(values@), k as nat),
        decreases values.len() - k,
    {
        if k > 0 {
            out.append(" ");
        }
        values[k].write_text(out);
        k += 1;
        assert(out@ =~= old(out)@ + values_text(value_models(values@), k as nat));
    }
}

impl Value {
    /// A copy of this value.
    pub fn duplicate(&self) -> (r: Value)
        ensures
            r@ == self@,
        decreases self, 1nat,
    {
        match self {
            Value::Bool(b) => Value::Bool(*b),
            Value::Int(i) => Value::Int(*i),
            Value::List(values) => Value::List(duplicate_values(values)),
            Value::Block(ops) => Value::Block(duplicate_ops(ops)),
        }
    }

    /// The text that this value is printed as.
    pub fn to_text(&self) -> (r: String)
        ensures
            r@ == value_text(self@),
    {
        let mut out = String::new();
        self.write_text(&mut out);
        assert(out@ =~= value_text(self@));
        out
    }

    /// Appends the text that this value is printed as to `out`.
    pub fn write_text(&self, out: &mut String)
        ensures
            final(out)@ == old(out)@ + value_text(self@),
        decreases self, 1nat,
    {
        match self {
            Value::Bool(b) => {
                if *b {
                    out.append("true");
                } else {
                    out.append("false");
                }
            },
            Value::Int(i) => {
                push_int(out, *i);
            },
            Value::List(values) => {
                out.append("[");
                write_values(values, out);
                out.append("]");
            },
            Value::Block(ops) => {
                out.append("(");
                write_ops(ops, out);
                out.append(")");
            },
        }
        assert(out@ =~= old(out)@ + value_text(self@));
    }
}

/// The size of an integer without its sign.
fn magnitude_of(v: i64) -> (r: u64)
    ensures
        r == magnitude(v),
{
    if v == i64::MIN {
        9223372036854775808u64
    } else if v < 0 {
        (-v) as u64
    } else {
        v as u64
    }
}

/// The integer with the size `size` and the sign that `negative` gives it.
fn signed_of(size: u64, negative: bool) -> (r: i64)
    ensures
        r == signed(size as nat, negative),
{
    if size > 9223372036854775807u64 {
        i64::MIN
    } else if negative {
        -(size as i64)
    } else {
        size as i64
    }
}

/// What an arithmetic operation gives for the integers `b`, pushed first, and `a`.
fn compute(kind: &OpKind, b: i64, a: i64) -> (r: Result<i64, EvalError>)
    ensures
        r == arithmetic(crate::ops::op_shape(*kind), b, a),
{
    match kind {
        OpKind::Plus => Ok(b.wrapping_add(a)),
        OpKind::Minus => Ok(b.wrapping_sub(a)),
        OpKind::Multiply => Ok(b.wrapping_mul(a)),
        OpKind::Divide => {
            if a == 0 {
                Err(EvalError::DivisionByZero)
            } else {
                Ok(signed_of(magnitude_of(b) / magnitude_of(a), (b < 0) != (a < 0)))
            }
        },
        OpKind::Modulo => {
            if a == 0 {
                Err(EvalError::DivisionByZero)
            } else {
                Ok(signed_of(magnitude_of(b) % magnitude_of(a), b < 0))
            }
        },
        _ => Err(EvalError::TypeMismatch),
    }
}

/// What a comparison gives for the values `b`, pushed first, and `a`.
fn compare(kind: &OpKind, b: &Value, a: &Value) -> (r: Result<bool, EvalError>)
    ensures
        r == comparison(crate::ops::op_shape(*kind), b@, a@),
{
    let (x, y): (i64, i64) = match (b, a) {
        (Value::Int(x), Value::Int(y)) => (*x, *y),
        (Value::Bool(x), Value::Bool(y)) => (
            if *x {
                1
            } else {
                0
            },
            if *y {
                1
            } else {
                0
            },
        ),
        _ => {
            return Err(EvalError::TypeMismatch);
        },
    };
    match kind {
        OpKind::LessThan => Ok(x < y),
        OpKind::LessThanEquals => Ok(x <= y),
        OpKind::GreaterThan => Ok(x > y),
        OpKind::GreaterThanEquals => Ok(x >= y),
        OpKind::Equals => Ok(x == y),
        _ => Err(EvalError::TypeMismatch),
    }
}

/// The mathematical form of a table of function bodies by name.
pub open spec fn bodies_of(functions: Seq<(String, Vec<Op>)>) -> Seq<(Seq<char>, Seq<OpModel>)> {
    Seq::new(functions.len(), |i: int| (functions[i].0@, op_models(functions[i].1@)))
}

/// The mathematical form of a table of values by name.
pub open spec fn bound_values_of(bindings: Seq<(String, Value)>) -> Seq<(Seq<char>, ValueModel)> {
    Seq::new(bindings.len(), |i: int| (bindings[i].0@, bindings[i].1@))
}

/// The evaluator that walks the operations of a program as they were parsed.
///
/// It holds the value stack, the functions and bound names in scope, the errors it
/// found, and what the program printed, one line each.
pub struct Interpreter {
    pub stack: Vec<Value>,
    pub functions: Vec<(String, Vec<Op>)>,
    pub bindings: Vec<(String, Value)>,
    pub diagnostics: Vec<Diagnostic>,
    pub output: Vec<String>,
}

impl View for Interpreter {
    type V = EvalModel;

    open spec fn view(&self) -> EvalModel {
        EvalModel {
            stack: value_models(self.stack@),
            functions: bodies_of(self.functions@),
            bindings: bound_values_of(self.bindings@),
            diagnostics: diagnostics_of(self.diagnostics@),
            output: names_of(self.output@),
        }
    }
}

/// Whether `r`, with the evaluator in state `after`, is what `wanted` asks for: the
/// wanted state, or the wanted error.
pub open spec fn evaluated_as(r: Result<(), EvalError>, after: EvalModel, wanted: Evaluated) -> bool {
    match wanted {
        Ok(m) => r is Ok && after =~~= m,
        Err(e) => r is Err && r->Err_0 == e,
    }
}

impl Interpreter {
    /// An evaluator that knows no functions.
    pub fn new() -> (r: Interpreter)
        ensures
            r@ == initial_evaluator(Seq::empty()),
    {
        Self::new_sub(Vec::new())
    }

    /// An evaluator that knows the functions `functions`.
    pub fn new_sub(functions: Vec<(String, Vec<Op>)>) -> (r: Interpreter)
        ensures
            r@ == initial_evaluator(bodies_of(functions@)),
    {
        let r = Interpreter {
            stack: Vec::new(),
            functions,
            bindings: Vec::new(),
            diagnostics: Vec::new(),
            output: Vec::new(),
        };
        assert(r@ =~~= initial_evaluator(bodies_of(functions@)));
        r
    }

    /// Removes the top of the stack.
    fn take_top(&mut self) -> (v: Value)
        requires
            old(self)@.stack.len() >= 1,
        ensures
            v@ == top(old(self)@, 0),
            final(self)@ == dropped(old(self)@, 1),
    {
        let ghost before = self.stack@;
        let v = match self.stack.pop() {
            Some(v) => v,
            None => Value::Bool(false),
        };
        assert(value_models(self.stack@) =~= value_models(before).take(before.len() - 1));
        v
    }

    /// Pushes `v`.
    fn put(&mut self, v: Value)
        ensures
            final(self)@ == pushed(old(self)@, v@),
    {
        let ghost before = value_models(self.stack@);
        self.stack.push(v);
        assert(value_models(self.stack@) =~= before.push(v@));
    }

    /// The value that the innermost binding of `name` gives it.
    fn lookup_binding(&self, name: &String) -> (r: Option<Value>)
        ensures
            match r {
                Some(v) => Some(v@),
                None => None,
            } == bound_value(self@.bindings, name@, self@.bindings.len()),
    {
        let mut n: usize = self.bindings.len();
        while n > 0
            invariant
                n <= self.bindings.len(),
                bound_value(self@.bindings, name@, self@.bindings.len()) == bound_value(
                    self@.bindings,
                    name@,
                    n as nat,
                ),
            decreases n,
        {
            if self.bindings[n - 1].0.eq(name) {
                return Some(self.bindings[n - 1].1.duplicate());
            }
            n -= 1;
        }
        None
    }

    /// The body of the latest definition of the function `name`.
    fn lookup_function(&self, name: &String) -> (r: Option<Vec<Op>>)
        ensures
            match r {
                Some(body) => Some(op_models(body@)),
                None => None,
            } == function_body(self@.functions, name@, self@.functions.len()),
    {
        let mut n: usize = self.functions.len();
        while n > 0
            invariant
                n <= self.functions.len(),
                function_body(self@.functions, name@, self@.functions.len()) == function_body(
                    self@.functions,
                    name@,
                    n as nat,
                ),
            decreases n,
        {
            if self.functions[n - 1].0.eq(name) {
                return Some(duplicate_ops(&self.functions[n - 1].1));
            }
            n -= 1;
        }
        None
    }

    /// Evaluates an operation that rearranges the stack, pushes a literal or prints.
    fn interpret_stack_op(&mut self, op: &Op) -> (r: Result<(), EvalError>)
        requires
            op.kind is PushBool || op.kind is PushInt || op.kind is PushBlock || op.kind
                is DumpStack || op.kind is Identity || op.kind is Pop || op.kind is Dup || op.kind
                is Over || op.kind is Swap || op.kind is Rot || op.kind is Print || op.kind
                is DefineFunction,
        ensures
            evaluated_as(r, final(self)@, eval_simple(old(self)@, op@)),
    {
        let n: usize = self.stack.len();
        match &op.kind {
            OpKind::PushBool(v) => {
                self.put(Value::Bool(*v));
            },
            OpKind::PushInt(v) => {
                self.put(Value::Int(*v));
            },
            OpKind::PushBlock(body) => {
                self.put(Value::Block(duplicate_ops(body)));
            },
            OpKind::DumpStack => {},
            OpKind::Identity => {
                if n < 1 {
                    return Err(EvalError::StackUnderflow);
                }
            },
            OpKind::Pop => {
                if n < 1 {
                    return Err(EvalError::StackUnderflow);
                }
                self.take_top();
            },
            OpKind::Dup => {
                if n < 1 {
                    return Err(EvalError::StackUnderflow);
                }
                let copy = self.stack[n - 1].duplicate();
                self.put(copy);
            },
            OpKind::Over => {
                if n < 2 {
                    return Err(EvalError::StackUnderflow);
                }
                let copy = self.stack[n - 2].duplicate();
                self.put(copy);
            },
            OpKind::Swap => {
                if n < 2 {
                    return Err(EvalError::StackUnderflow);
                }
                let a = self.take_top();
                let b = self.take_top();
                self.put(a);
                self.put(b);
                assert(self@.stack =~= pushed(
                    pushed(dropped(old(self)@, 2), top(old(self)@, 0)),
                    top(old(self)@, 1),
                ).stack);
            },
            OpKind::Rot => {
                if n < 3 {
                    return Err(EvalError::StackUnderflow);
                }
                let a = self.take_top();
                let b = self.take_top();
                let c = self.take_top();
                self.put(b);
                self.put(a);
                self.put(c);
                assert(self@.stack =~= pushed(
                    pushed(pushed(dropped(old(self)@, 3), top(old(self)@, 1)), top(old(self)@, 0)),
                    top(old(self)@, 2),
                ).stack);
            },
            OpKind::Print => {
                if n < 1 {
                    return Err(EvalError::StackUnderflow);
                }
                let v = self.take_top();
                let ghost before = names_of(self.output@);
                self.output.push(v.to_text());
                assert(names_of(self.output@) =~= before.push(value_text(v@)));
            },
            OpKind::DefineFunction { name, body } => {
                let ghost before = bodies_of(self.functions@);
                self.functions.push((name.clone(), duplicate_ops(body)));
                assert(bodies_of(self.functions@) =~= before.push((name@, op_models(body@))));
            },
            _ => {},
        }
        Ok(())
    }

    /// Evaluates an operation of arithmetic, comparison or logic.
    fn interpret_calculation(&mut self, op: &Op) -> (r: Result<(), EvalError>)
        requires
            op.kind is Not || op.kind is And || op.kind is Or || op.kind is Plus || op.kind
                is Minus || op.kind is Multiply || op.kind is Divide || op.kind is Modulo
                || op.kind is LessThan || op.kind is LessThanEquals || op.kind is GreaterThan
                || op.kind is GreaterThanEquals || op.kind is Equals,
        ensures
            evaluated_as(r, final(self)@, eval_simple(old(self)@, op@)),
    {
        let n: usize = self.stack.len();
        match &op.kind {
            OpKind::Not => {
                if n < 1 {
                    return Err(EvalError::StackUnderflow);
                }
                match &self.stack[n - 1] {
                    Value::Bool(b) => {
                        let flipped = !*b;
                        self.take_top();
                        self.put(Value::Bool(flipped));
                        Ok(())
                    },
                    _ => Err(EvalError::TypeMismatch),
                }
            },
            OpKind::And | OpKind::Or => {
                if n < 2 {
                    return Err(EvalError::StackUnderflow);
                }
                match (&self.stack[n - 2], &self.stack[n - 1]) {
                    (Value::Bool(b), Value::Bool(a)) => {
                        let both = match &op.kind {
                            OpKind::And => *a && *b,
                            _ => *a || *b,
                        };
                        self.take_top();
                        self.take_top();
                        self.put(Value::Bool(both));
                        assert(self@.stack =~= pushed(
                            dropped(old(self)@, 2),
                            ValueModel::Bool(both),
                        ).stack);
                        Ok(())
                    },
                    _ => Err(EvalError::TypeMismatch),
                }
            },
            OpKind::Plus | OpKind::Minus | OpKind::Multiply | OpKind::Divide | OpKind::Modulo => {
                if n < 2 {
                    return Err(EvalError::StackUnderflow);
                }
                match (&self.stack[n - 2], &self.stack[n - 1]) {
                    (Value::Int(b), Value::Int(a)) => {
                        match compute(&op.kind, *b, *a) {
                            Ok(v) => {
                                self.take_top();
                                self.take_top();
                                self.put(Value::Int(v));
                                assert(self@.stack =~= pushed(
                                    dropped(old(self)@, 2),
                                    ValueModel::Int(v),
                                ).stack);
                                Ok(())
                            },
                            Err(e) => Err(e),
                        }
                    },
                    _ => Err(EvalError::TypeMismatch),
                }
            },
            _ => {
                if n < 2 {
                    return Err(EvalError::StackUnderflow);
                }
                match compare(&op.kind, &self.stack[n - 2], &self.stack[n - 1]) {
                    Ok(v) => {
                        self.take_top();
                        self.take_top();
                        self.put(Value::Bool(v));
                        assert(self@.stack =~= pushed(
                            dropped(old(self)@, 2),
                            ValueModel::Bool(v),
                        ).stack);
                        Ok(())
                    },
                    Err(e) => Err(e),
                }
            },
        }
    }

    /// Evaluates an operation on lists that calls no block.
    fn interpret_list_op(&mut self, op: &Op) -> (r: Result<(), EvalError>)
        requires
            op.kind is Len || op.kind is Concat || op.kind is Push || op.kind is Head || op.kind
                is Tail,
        ensures
            evaluated_as(r, final(self)@, eval_simple(old(self)@, op@)),
    {
        let n: usize = self.stack.len();
        match &op.kind {
            OpKind::Len => {
                if n < 1 {
                    return Err(EvalError::StackUnderflow);
                }
                match &self.stack[n - 1] {
                    Value::List(values) => {
                        assert(top(old(self)@, 0) == ValueModel::List(value_models(values@)));
                        let length: i64 = if values.len() as u64 <= 9223372036854775807u64 {
                            values.len() as i64
                        } else {
                            i64::MAX
                        };
                        self.take_top();
                        self.put(Value::Int(length));
                        Ok(())
                    },
                    _ => Err(EvalError::TypeMismatch),
                }
            },
            OpKind::Concat => {
                if n < 2 {
                    return Err(EvalError::StackUnderflow);
                }
                match (&self.stack[n - 2], &self.stack[n - 1]) {
                    (Value::List(first), Value::List(second)) => {
                        let mut joined = duplicate_values(first);
                        let mut rest = duplicate_values(second);
                        let ghost head = value_models(joined@);
                        let ghost tail = value_models(rest@);
                        joined.append(&mut rest);
                        assert(value_models(joined@) =~= head + tail);
                        self.take_top();
                        self.take_top();
                        self.put(Value::List(joined));
                        assert(self@.stack =~= pushed(
                            dropped(old(self)@, 2),
                            ValueModel::List(head + tail),
                        ).stack);
                        Ok(())
                    },
                    _ => Err(EvalError::TypeMismatch),
                }
            },
            OpKind::Push => {
                if n < 2 {
                    return Err(EvalError::StackUnderflow);
                }
                match &self.stack[n - 2] {
                    Value::List(values) => {
                        let mut longer = duplicate_values(values);
                        let ghost head = value_models(longer@);
                        let last = self.take_top();
                        longer.push(last);
                        assert(value_models(longer@) =~= head.push(last@));
                        self.take_top();
                        self.put(Value::List(longer));
                        assert(self@.stack =~= pushed(
                            dropped(old(self)@, 2),
                            ValueModel::List(head.push(last@)),
                        ).stack);
                        Ok(())
                    },
                    _ => Err(EvalError::TypeMismatch),
                }
            },
            OpKind::Head => {
                if n < 1 {
                    return Err(EvalError::StackUnderflow);
                }
                match &self.stack[n - 1] {
                    Value::List(values) => {
                        assert(top(old(self)@, 0) == ValueModel::List(value_models(values@)));
                        if values.len() == 0 {
                            self.take_top();
                            push_diagnostic(
                                &mut self.diagnostics,
                                Diagnostic::report_error(
                                    String::from_str("Cannot `head` an empty list"),
                                    op.span,
                                ),
                            );
                        } else {
                            let first = values[0].duplicate();
                            assert(first@ == value_models(values@)[0]);
                            self.take_top();
                            self.put(first);
                        }
                        Ok(())
                    },
                    _ => Err(EvalError::TypeMismatch),
                }
            },
            _ => {
                if n < 1 {
                    return Err(EvalError::StackUnderflow);
                }
                match &self.stack[n - 1] {
                    Value::List(values) => {
                        let mut rest: Vec<Value> = Vec::new();
                        let mut k: usize = 1;
                        while k < values.len()
                            invariant
                                1 <= k,
                                values.len() == 0 ==> k == 1,
                                values.len() > 0 ==> k <= values.len(),
                                rest@.len() == k - 1,
                                forall|j: int| 0 <= j < k - 1 ==> rest@[j]@ == values@[j + 1]@,
                            decreases values.len() - k,
                        {
                            rest.push(values[k].duplicate());
                            k += 1;
                        }
                        let ghost wanted = if values@.len() == 0 {
                            value_models(values@)
                        } else {
                            value_models(values@).subrange(1, values@.len() as int)
                        };
                        assert forall|j: int| 0 <= j < rest@.len() implies value_models(rest@)[j]
                            == wanted[j] by {
                            assert(rest@[j]@ == values@[j + 1]@);
                            assert(value_models(values@)[j + 1] == values@[j + 1]@);
                        }
                        assert(value_models(rest@) =~= wanted);
                        self.take_top();
                        self.put(Value::List(rest));
                        Ok(())
                    },
                    _ => Err(EvalError::TypeMismatch),
                }
            },
        }
    }

    /// Evaluates an operation that works on the stack alone.
    fn interpret_simple(&mut self, op: &Op) -> (r: Result<(), EvalError>)
        requires
            is_simple(op@.kind),
        ensures
            evaluated_as(r, final(self)@, eval_simple(old(self)@, op@)),
    {
        match &op.kind {
            OpKind::PushBool(_)
            | OpKind::PushInt(_)
            | OpKind::PushBlock(_)
            | OpKind::DumpStack
            | OpKind::Identity
            | OpKind::Pop
            | OpKind::Dup
            | OpKind::Over
            | OpKind::Swap
            | OpKind::Rot
            | OpKind::Print
            | OpKind::DefineFunction { .. } => self.interpret_stack_op(op),
            OpKind::Len
            | OpKind::Concat
            | OpKind::Push
            | OpKind::Head
            | OpKind::Tail => self.interpret_list_op(op),
            OpKind::Not
            | OpKind::And
            | OpKind::Or
            | OpKind::Plus
            | OpKind::Minus
            | OpKind::Multiply
            | OpKind::Divide
            | OpKind::Modulo
            | OpKind::LessThan
            | OpKind::LessThanEquals
            | OpKind::GreaterThan
            | OpKind::GreaterThanEquals
            | OpKind::Equals => self.interpret_calculation(op),
            _ => Err(EvalError::TypeMismatch),
        }
    }
}

/// Whether `r`, with the evaluator in state `after`, is what `wanted` asks for: the
/// wanted values with the wanted state, or the wanted error.
pub open spec fn collected_as(
    r: Result<Vec<Value>, EvalError>,
    after: EvalModel,
    wanted: Result<(EvalModel, Seq<ValueModel>), EvalError>,
) -> bool {
    match wanted {
        Ok((m, values)) => r is Ok && value_models(r->Ok_0@) =~= values && after =~~= m,
        Err(e) => r is Err && r->Err_0 == e,
    }
}

impl Interpreter {
    /// Evaluates the operations of `ops` in order, with `depth` levels of calls allowed.
    pub fn interpret(&mut self, ops: &Vec<Op>, depth: usize) -> (r: Result<(), EvalError>)
        ensures
            evaluated_as(r, final(self)@, eval_ops(old(self)@, op_models(ops@), 0, depth as nat)),
        decreases depth, 2nat, ops, 0nat,
    {
        let ghost start = self@;
        let mut i: usize = 0;
        while i < ops.len()
            invariant
                i <= ops.len(),
                start == old(self)@,
                eval_ops(start, op_models(ops@), 0, depth as nat) == eval_ops(
                    self@,
                    op_models(ops@),
                    i as nat,
                    depth as nat,
                ),
            decreases ops.len() - i,
        {
            match self.interpret_op(&ops[i], depth) {
                Ok(()) => {},
                Err(e) => {
                    return Err(e);
                },
            }
            i += 1;
        }
        Ok(())
    }

    /// Calls the block `body`, with `depth` levels of calls allowed.
    fn call_block(&mut self, body: &Vec<Op>, depth: usize) -> (r: Result<(), EvalError>)
        ensures
            evaluated_as(r, final(self)@, call(old(self)@, op_models(body@), depth as nat)),
        decreases depth, 0nat, body, 0nat,
    {
        if depth == 0 {
            Err(EvalError::DepthLimit)
        } else {
            self.interpret(body, depth - 1)
        }
    }

    /// Calls the block `body` on a stack of its own that holds `given`, and returns
    /// the stack of the call.
    fn call_on(&mut self, body: &Vec<Op>, given: Vec<Value>, depth: usize) -> (r: Result<
        Vec<Value>,
        EvalError,
    >)
        ensures
            match call_apart(old(self)@, op_models(body@), value_models(given@), depth as nat) {
                Ok(m) => r is Ok && value_models(r->Ok_0@) == m.stack && final(self)@ =~~= (
                EvalModel { stack: old(self)@.stack, ..m }),
                Err(e) => r is Err && r->Err_0 == e,
            },
        decreases depth, 0nat, body, 1nat,
    {
        let mut other = given;
        std::mem::swap(&mut self.stack, &mut other);
        match self.call_block(body, depth) {
            Ok(()) => {
                std::mem::swap(&mut self.stack, &mut other);
                Ok(other)
            },
            Err(e) => Err(e),
        }
    }

    /// Calls `body` on each of `values`, the first first, on the stack as it stands.
    fn run_each(&mut self, values: &Vec<Value>, body: &Vec<Op>, depth: usize) -> (r: Result<
        (),
        EvalError,
    >)
        ensures
            evaluated_as(
                r,
                final(self)@,
                each_from(old(self)@, value_models(values@), 0, op_models(body@), depth as nat),
            ),
        decreases depth, 1nat, values, 0nat,
    {
        let ghost start = self@;
        let mut k: usize = 0;
        while k < values.len()
            invariant
                k <= values.len(),
                start == old(self)@,
                each_from(start, value_models(values@), 0, op_models(body@), depth as nat)
                    == each_from(
                    self@,
                    value_models(values@),
                    k as nat,
                    op_models(body@),
                    depth as nat,
                ),
            decreases values.len() - k,
        {
            self.put(values[k].duplicate());
            match self.call_block(body, depth) {
                Ok(()) => {},
                Err(e) => {
                    return Err(e);
                },
            }
            k += 1;
        }
        Ok(())
    }

    /// Calls `body` on each of `values`, the last first, each on a stack of its own,
    /// and returns what the calls left on top, in the order of `values`.
    fn run_map(&mut self, values: &Vec<Value>, body: &Vec<Op>, depth: usize) -> (r: Result<
        Vec<Value>,
        EvalError,
    >)
        ensures
            collected_as(
                r,
                final(self)@,
                mapped(
                    old(self)@,
                    value_models(values@),
                    values@.len(),
                    op_models(body@),
                    Seq::empty(),
                    depth as nat,
                ),
            ),
        decreases depth, 1nat, values, 0nat,
    {
        let ghost start = self@;
        let ghost list = value_models(values@);
        let ghost block = op_models(body@);
        let mut done: Vec<Value> = Vec::new();
        let mut n: usize = values.len();
        assert(value_models(done@) =~= Seq::<ValueModel>::empty());
        while n > 0
            invariant
                n <= values.len(),
                start == old(self)@,
                list == value_models(values@),
                block == op_models(body@),
                mapped(start, list, list.len(), block, Seq::empty(), depth as nat) == mapped(
                    self@,
                    list,
                    n as nat,
                    block,
                    value_models(done@),
                    depth as nat,
                ),
            decreases n,
        {
            let mut given: Vec<Value> = Vec::new();
            given.push(values[n - 1].duplicate());
            assert(value_models(given@) =~= seq![list[n - 1]]);
            let mut left = match self.call_on(body, given, depth) {
                Ok(left) => left,
                Err(e) => {
                    return Err(e);
                },
            };
            let ghost all = value_models(left@);
            match left.pop() {
                Some(result) => {
                    assert(result@ == all.last());
                    let ghost before = value_models(done@);
                    done.insert(0, result);
                    assert(value_models(done@) =~= seq![result@] + before);
                },
                None => {
                    return Err(EvalError::StackUnderflow);
                },
            }
            n -= 1;
        }
        Ok(done)
    }

    /// Calls `body` on each of `values`, the last first, each on a stack of its own,
    /// and returns the values for which the call left `true` on top.
    fn run_filter(&mut self, values: &Vec<Value>, body: &Vec<Op>, depth: usize) -> (r: Result<
        Vec<Value>,
        EvalError,
    >)
        ensures
            collected_as(
                r,
                final(self)@,
                filtered(
                    old(self)@,
                    value_models(values@),
                    values@.len(),
                    op_models(body@),
                    Seq::empty(),
                    depth as nat,
                ),
            ),
        decreases depth, 1nat, values, 0nat,
    {
        let ghost start = self@;
        let ghost list = value_models(values@);
        let ghost block = op_models(body@);
        let mut done: Vec<Value> = Vec::new();
        let mut n: usize = values.len();
        assert(value_models(done@) =~= Seq::<ValueModel>::empty());
        while n > 0
            invariant
                n <= values.len(),
                start == old(self)@,
                list == value_models(values@),
                block == op_models(body@),
                filtered(start, list, list.len(), block, Seq::empty(), depth as nat) == filtered(
                    self@,
                    list,
                    n as nat,
                    block,
                    value_models(done@),
                    depth as nat,
                ),
            decreases n,
        {
            let mut given: Vec<Value> = Vec::new();
            given.push(values[n - 1].duplicate());
            assert(value_models(given@) =~= seq![list[n - 1]]);
            let mut left = match self.call_on(body, given, depth) {
                Ok(left) => left,
                Err(e) => {
                    return Err(e);
                },
            };
            let ghost all = value_models(left@);
            match left.pop() {
                Some(Value::Bool(keep)) => {
                    assert(all.last() == ValueModel::Bool(keep));
                    if keep {
                        let kept = values[n - 1].duplicate();
                        let ghost before = value_models(done@);
                        done.insert(0, kept);
                        assert(value_models(done@) =~= seq![list[n - 1]] + before);
                    }
                },
                Some(other) => {
                    assert(all.last() == other@);
                    return Err(EvalError::TypeMismatch);
                },
                None => {
                    return Err(EvalError::StackUnderflow);
                },
            }
            n -= 1;
        }
        Ok(done)
    }

    /// Calls `body` on each of `values` and the accumulator, the last value first,
    /// each on a stack of its own, and returns the last accumulator.
    fn run_fold(&mut self, values: &Vec<Value>, body: &Vec<Op>, accumulator: Value, depth: usize)
        -> (r: Result<Value, EvalError>)
        ensures
            match folded(
                old(self)@,
                value_models(values@),
                values@.len(),
                op_models(body@),
                accumulator@,
                depth as nat,
            ) {
                Ok((m, result)) => r is Ok && r->Ok_0@ == result && final(self)@ =~~= m,
                Err(e) => r is Err && r->Err_0 == e,
            },
        decreases depth, 1nat, values, 0nat,
    {
        let ghost start = self@;
        let ghost first = accumulator@;
        let ghost list = value_models(values@);
        let ghost block = op_models(body@);
        let mut held = accumulator;
        let mut n: usize = values.len();
        while n > 0
            invariant
                n <= values.len(),
                start == old(self)@,
                list == value_models(values@),
                block == op_models(body@),
                first == accumulator@,
                folded(start, list, list.len(), block, first, depth as nat) == folded(
                    self@,
                    list,
                    n as nat,
                    block,
                    held@,
                    depth as nat,
                ),
            decreases n,
        {
            let mut given: Vec<Value> = Vec::new();
            given.push(values[n - 1].duplicate());
            let ghost carried = held@;
            given.push(held);
            assert(value_models(given@) =~= seq![list[n - 1], carried]);
            let mut left = match self.call_on(body, given, depth) {
                Ok(left) => left,
                Err(e) => {
                    return Err(e);
                },
            };
            let ghost all = value_models(left@);
            match left.pop() {
                Some(result) => {
                    assert(result@ == all.last());
                    held = result;
                },
                None => {
                    return Err(EvalError::StackUnderflow);
                },
            }
            n -= 1;
        }
        Ok(held)
    }

    /// Takes the block on top of the stack and the list below it.
    fn take_list_and_block(&mut self) -> (r: Result<(Vec<Value>, Vec<Op>), EvalError>)
        ensures
            old(self)@.stack.len() < 2 ==> r is Err && r->Err_0 == EvalError::StackUnderflow,
            old(self)@.stack.len() >= 2 ==> match (top(old(self)@, 1), top(old(self)@, 0)) {
                (ValueModel::List(values), ValueModel::Block(body)) => match r {
                    Ok((list, block)) => value_models(list@) == values && op_models(block@)
                        == body && final(self)@ == dropped(old(self)@, 2),
                    Err(_) => false,
                },
                _ => r is Err && r->Err_0 == EvalError::TypeMismatch,
            },
    {
        let n: usize = self.stack.len();
        if n < 2 {
            return Err(EvalError::StackUnderflow);
        }
        match (&self.stack[n - 2], &self.stack[n - 1]) {
            (Value::List(_), Value::Block(_)) => {},
            _ => {
                return Err(EvalError::TypeMismatch);
            },
        }
        let block = self.take_top();
        let list = self.take_top();
        assert(self@.stack =~= dropped(old(self)@, 2).stack);
        match (list, block) {
            (Value::List(values), Value::Block(body)) => Ok((values, body)),
            _ => Err(EvalError::TypeMismatch),
        }
    }

    /// Evaluates one operation, with `depth` levels of calls allowed.
    pub fn interpret_op(&mut self, op: &Op, depth: usize) -> (r: Result<(), EvalError>)
        ensures
            evaluated_as(r, final(self)@, eval_op(old(self)@, op@, depth as nat)),
        decreases depth, 2nat, op, 1nat,
    {
        match &op.kind {
            OpKind::PushList(_) => self.interpret_literal(op, depth),
            OpKind::Identifier(_) => self.interpret_name(op, depth),
            OpKind::Do => self.interpret_do(op, depth),
            OpKind::If { .. } => self.interpret_if(op, depth),
            OpKind::Binding { .. } => self.interpret_binding(op, depth),
            OpKind::Foreach => match self.take_list_and_block() {
                Ok((values, body)) => self.run_each(&values, &body, depth),
                Err(e) => Err(e),
            },
            OpKind::MapEach => match self.take_list_and_block() {
                Ok((values, body)) => match self.run_map(&values, &body, depth) {
                    Ok(results) => {
                        self.put(Value::List(results));
                        Ok(())
                    },
                    Err(e) => Err(e),
                },
                Err(e) => Err(e),
            },
            OpKind::Filter => match self.take_list_and_block() {
                Ok((values, body)) => match self.run_filter(&values, &body, depth) {
                    Ok(results) => {
                        self.put(Value::List(results));
                        Ok(())
                    },
                    Err(e) => Err(e),
                },
                Err(e) => Err(e),
            },
            OpKind::Fold => self.interpret_fold(op, depth),
            _ => self.interpret_simple(op),
        }
    }

    /// Evaluates a list literal: its elements on a stack of their own.
    fn interpret_literal(&mut self, op: &Op, depth: usize) -> (r: Result<(), EvalError>)
        requires
            op.kind is PushList,
        ensures
            evaluated_as(r, final(self)@, eval_op(old(self)@, op@, depth as nat)),
        decreases depth, 2nat, op, 0nat,
    {
        match &op.kind {
            OpKind::PushList(elements) => {
                let mut outer: Vec<Value> = Vec::new();
                std::mem::swap(&mut self.stack, &mut outer);
                assert(value_models(self.stack@) =~= Seq::<ValueModel>::empty());
                match self.interpret(elements, depth) {
                    Ok(()) => {
                        std::mem::swap(&mut self.stack, &mut outer);
                        self.put(Value::List(outer));
                        Ok(())
                    },
                    Err(e) => Err(e),
                }
            },
            _ => Err(EvalError::TypeMismatch),
        }
    }

    /// Evaluates a name: the value it is bound to, or a call of the function.
    fn interpret_name(&mut self, op: &Op, depth: usize) -> (r: Result<(), EvalError>)
        requires
            op.kind is Identifier,
        ensures
            evaluated_as(r, final(self)@, eval_op(old(self)@, op@, depth as nat)),
        decreases depth, 2nat, op, 0nat,
    {
        match &op.kind {
            OpKind::Identifier(name) => {
                match self.lookup_binding(name) {
                    Some(v) => {
                        self.put(v);
                        Ok(())
                    },
                    None => match self.lookup_function(name) {
                        Some(body) => self.call_block(&body, depth),
                        None => Err(EvalError::UnknownName),
                    },
                }
            },
            _ => Err(EvalError::TypeMismatch),
        }
    }

    /// Evaluates `do`: calls the block on top of the stack.
    fn interpret_do(&mut self, op: &Op, depth: usize) -> (r: Result<(), EvalError>)
        requires
            op.kind is Do,
        ensures
            evaluated_as(r, final(self)@, eval_op(old(self)@, op@, depth as nat)),
        decreases depth, 2nat, op, 0nat,
    {
        if self.stack.len() < 1 {
            return Err(EvalError::StackUnderflow);
        }
        match self.take_top() {
            Value::Block(body) => self.call_block(&body, depth),
            _ => Err(EvalError::TypeMismatch),
        }
    }

    /// Evaluates `if`: takes a truth value and evaluates the body or the other one.
    fn interpret_if(&mut self, op: &Op, depth: usize) -> (r: Result<(), EvalError>)
        requires
            op.kind is If,
        ensures
            evaluated_as(r, final(self)@, eval_op(old(self)@, op@, depth as nat)),
        decreases depth, 2nat, op, 0nat,
    {
        match &op.kind {
            OpKind::If { body, else_body } => {
                if self.stack.len() < 1 {
                    return Err(EvalError::StackUnderflow);
                }
                match self.take_top() {
                    Value::Bool(flag) => {
                        if flag {
                            self.interpret(body, depth)
                        } else {
                            match else_body {
                                Some(other) => self.interpret(other, depth),
                                None => Ok(()),
                            }
                        }
                    },
                    _ => Err(EvalError::TypeMismatch),
                }
            },
            _ => Err(EvalError::TypeMismatch),
        }
    }

    /// Evaluates `fold`: takes a block, an accumulator and a list.
    fn interpret_fold(&mut self, op: &Op, depth: usize) -> (r: Result<(), EvalError>)
        requires
            op.kind is Fold,
        ensures
            evaluated_as(r, final(self)@, eval_op(old(self)@, op@, depth as nat)),
        decreases depth, 2nat, op, 0nat,
    {
        let n: usize = self.stack.len();
        if n < 3 {
            return Err(EvalError::StackUnderflow);
        }
        match (&self.stack[n - 3], &self.stack[n - 1]) {
            (Value::List(_), Value::Block(_)) => {},
            _ => {
                return Err(EvalError::TypeMismatch);
            },
        }
        let block = self.take_top();
        let accumulator = self.take_top();
        let list = self.take_top();
        assert(self@.stack =~= dropped(old(self)@, 3).stack);
        match (list, block) {
            (Value::List(values), Value::Block(body)) => {
                match self.run_fold(&values, &body, accumulator, depth) {
                    Ok(result) => {
                        self.put(result);
                        Ok(())
                    },
                    Err(e) => Err(e),
                }
            },
            _ => Err(EvalError::TypeMismatch),
        }
    }

    /// Evaluates a binding: takes one value for each name, the last name first,
    /// evaluates the body and forgets the names.
    fn interpret_binding(&mut self, op: &Op, depth: usize) -> (r: Result<(), EvalError>)
        requires
            op.kind is Binding,
        ensures
            evaluated_as(r, final(self)@, eval_op(old(self)@, op@, depth as nat)),
        decreases depth, 2nat, op, 0nat,
    {
        match &op.kind {
            OpKind::Binding { bindings, body } => {
                let n: usize = self.stack.len();
                let count: usize = bindings.len();
                if n < count {
                    return Err(EvalError::StackUnderflow);
                }
                let outer: usize = self.bindings.len();
                let ghost start = self@;
                let ghost names = crate::ops::placed_names(bindings@);
                let ghost wanted = Seq::new(
                    names.len(),
                    |k: int| (names[names.len() - 1 - k].0, top(start, k as nat)),
                );
                let mut k: usize = 0;
                assert(self@.bindings =~= start.bindings + wanted.take(0));
                assert(self@.stack =~= dropped(start, 0).stack);
                while k < count
                    invariant
                        k <= count,
                        count == bindings@.len(),
                        count <= start.stack.len(),
                        names == crate::ops::placed_names(bindings@),
                        wanted == Seq::new(
                            names.len(),
                            |k: int| (names[names.len() - 1 - k].0, top(start, k as nat)),
                        ),
                        self@ == (EvalModel {
                            bindings: start.bindings + wanted.take(k as int),
                            ..dropped(start, k as nat)
                        }),
                    decreases count - k,
                {
                    let ghost before = bound_values_of(self.bindings@);
                    let v = self.take_top();
                    self.bindings.push((bindings[count - 1 - k].0.clone(), v));
                    assert(bound_values_of(self.bindings@) =~= before.push(
                        (names[count - 1 - k].0, v@),
                    ));
                    k += 1;
                    assert(start.bindings + wanted.take(k as int) =~= (start.bindings
                        + wanted.take(k - 1)).push(wanted[k - 1]));
                    assert(self@.stack =~= dropped(start, k as nat).stack);
                }
                assert(wanted.take(count as int) =~= wanted);
                match self.interpret(body, depth) {
                    Ok(()) => {
                        let ghost before = bound_values_of(self.bindings@);
                        self.bindings.truncate(outer);
                        assert(bound_values_of(self.bindings@) =~= if outer <= before.len() {
                            before.take(outer as int)
                        } else {
                            before
                        });
                        Ok(())
                    },
                    Err(e) => Err(e),
                }
            },
            _ => Err(EvalError::TypeMismatch),
        }
    }
}

} // verus!
