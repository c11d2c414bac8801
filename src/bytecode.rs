use vstd::prelude::*;

use crate::datamodel::{Function, NativeFn, Value, ValueTryIntoError, ValueType, copy_ops};
use crate::stack::{stored, CallStack};

verus! {

/// An executable unit: it works on one frame's stack and locals, and asks for control
/// effects only through the action it returns.
pub trait Operation: Sized {
    /// What executing `self` does: it takes the stack from state `s0` to `s1` and yields `r`.
    spec fn effect(&self, s0: StackState, s1: StackState, r: Result<OpAction, OpError>) -> bool;

    fn exec(&self, m: &mut CallStack) -> (r: Result<OpAction, OpError>)
        ensures
            self.effect(state_of(*old(m)), state_of(*final(m)), r),
    ;
}

/// The operations this interpreter knows.
#[derive(Clone, Copy, Debug, PartialEq, Eq, Structural)]
pub enum Op {
    /// Pushes an integer.
    PushInt(i64),
    /// Discards the top operand.
    Pop,
    /// Pushes a copy of a local.
    Load(u8),
    /// Moves the top operand into a local.
    Store(u8),
    /// Replaces the top integer by its wrapping sum with a constant.
    AddInt(i64),
    /// Moves the cursor by a signed offset from the following operation.
    Jump(i32),
    /// Takes the top integer and jumps where it is zero.
    JumpIfZero(i32),
    /// Calls function `.0` of the module in local slot 0 with the top `.1` operands.
    Call(u32, u8),
    /// Calls a host function with the top `.1` operands.
    CallNative(NativeFn, u8),
    /// Returns the top operand to the caller.
    Return,
}

/// What an operation asks of the driving loop.
#[derive(Debug, PartialEq)]
pub enum OpAction {
    Next,
    Jump(i32),
    Call(Function, Vec<Value>),
    CallNative(NativeFn, Vec<Value>),
    Return(Value),
}

/// Why an operation failed.
#[derive(Clone, Debug, PartialEq)]
pub enum OpError {
    StackEmpty,
    LocalRead(u8),
    IndexRead(i64),
    IndexWrite(i64),
    IntoType(ValueTryIntoError),
    BadType(ValueType),
    /// The machine ran `u64::MAX` steps without exiting.
    StepLimit,
}

/// A stack state: the operands, bottom first, and the locals.
pub type StackState = (Seq<Value>, Seq<Value>);

/// The state of a `CallStack`.
pub open spec fn state_of(s: CallStack) -> StackState {
    (s.operands(), s.locals())
}

/// `s1` is `s0` with its top operand taken off.
pub open spec fn popped(s0: StackState, s1: StackState) -> bool {
    s0.0.len() > 0 && s1.0 == s0.0.drop_last() && s1.1 == s0.1
}

/// `args` are the top `n` operands of `s0`, bottom first, and `s1` holds the rest.
pub open spec fn took_args(s0: StackState, s1: StackState, n: u8, args: Seq<Value>) -> bool {
    &&& s0.0.len() >= n
    &&& args == s0.0.subrange(s0.0.len() - n, s0.0.len() as int)
    &&& s1.0 == s0.0.subrange(0, s0.0.len() - n)
    &&& s1.1 == s0.1
}

/// The error of a failed coercion of `v` to an integer.
pub open spec fn not_int(v: Value) -> OpError {
    OpError::IntoType(ValueTryIntoError { expected: ValueType::Int, found: crate::datamodel::type_of(v) })
}

/// What running `op` on the stack state `s0` does: `s1` is the state afterwards, `r` the outcome.
pub open spec fn op_post(op: Op, s0: StackState, s1: StackState, r: Result<OpAction, OpError>) -> bool {
    let ops = s0.0;
    let locals = s0.1;
    match op {
        Op::PushInt(n) => r == Ok::<OpAction, OpError>(OpAction::Next)
            && s1 == (ops.push(Value::Int(n)), locals),
        Op::Pop => if ops.len() == 0 {
            r == Err::<OpAction, OpError>(OpError::StackEmpty) && s1 == s0
        } else {
            r == Ok::<OpAction, OpError>(OpAction::Next) && popped(s0, s1)
        },
        Op::Load(i) => if i < locals.len() {
            &&& r == Ok::<OpAction, OpError>(OpAction::Next)
            &&& s1.1 == locals
            &&& s1.0.len() == ops.len() + 1
            &&& s1.0.drop_last() == ops
            &&& s1.0.last()@ == locals[i as int]@
        } else {
            r == Err::<OpAction, OpError>(OpError::LocalRead(i)) && s1 == s0
        },
        Op::Store(i) => if ops.len() == 0 {
            r == Err::<OpAction, OpError>(OpError::StackEmpty) && s1 == s0
        } else {
            r == Ok::<OpAction, OpError>(OpAction::Next)
                && s1 == (ops.drop_last(), stored(locals, i as nat, ops.last()))
        },
        Op::AddInt(k) => if ops.len() == 0 {
            r == Err::<OpAction, OpError>(OpError::StackEmpty) && s1 == s0
        } else {
            match ops.last() {
                Value::Int(x) => r == Ok::<OpAction, OpError>(OpAction::Next) && s1 == (
                    ops.drop_last().push(Value::Int(vstd::wrapping::i64_specs::wrapping_add(x, k))),
                    locals,
                ),
                _ => r == Err::<OpAction, OpError>(not_int(ops.last())) && popped(s0, s1),
            }
        },
        Op::Jump(d) => r == Ok::<OpAction, OpError>(OpAction::Jump(d)) && s1 == s0,
        Op::JumpIfZero(d) => if ops.len() == 0 {
            r == Err::<OpAction, OpError>(OpError::StackEmpty) && s1 == s0
        } else {
            popped(s0, s1) && match ops.last() {
                Value::Int(x) => if x == 0 {
                    r == Ok::<OpAction, OpError>(OpAction::Jump(d))
                } else {
                    r == Ok::<OpAction, OpError>(OpAction::Next)
                },
                _ => r == Err::<OpAction, OpError>(not_int(ops.last())),
            }
        },
        Op::Call(idx, n) => if locals.len() == 0 {
            r == Err::<OpAction, OpError>(OpError::LocalRead(0)) && s1 == s0
        } else {
            match locals[0] {
                Value::Module(m) => if idx >= m.functions@.len() {
                    r == Err::<OpAction, OpError>(OpError::IndexRead(idx as i64)) && s1 == s0
                } else if ops.len() < n {
                    r == Err::<OpAction, OpError>(OpError::StackEmpty) && s1 == s0
                } else {
                    match r {
                        Ok(OpAction::Call(f, args)) => f.module@ == m@ && f.ops@ == m@[idx as int]
                            && took_args(s0, s1, n, args@),
                        _ => false,
                    }
                },
                _ => r == Err::<OpAction, OpError>(OpError::BadType(ValueType::Module)) && s1 == s0,
            }
        },
        Op::CallNative(f, n) => if ops.len() < n {
            r == Err::<OpAction, OpError>(OpError::StackEmpty) && s1 == s0
        } else {
            match r {
                Ok(OpAction::CallNative(g, args)) => g == f && took_args(s0, s1, n, args@),
                _ => false,
            }
        },
        Op::Return => if ops.len() == 0 {
            r == Err::<OpAction, OpError>(OpError::StackEmpty) && s1 == s0
        } else {
            r == Ok::<OpAction, OpError>(OpAction::Return(ops.last())) && popped(s0, s1)
        },
    }
}

impl Op {
    /// Runs this operation on one frame's stack and locals.
    pub fn run(&self, m: &mut CallStack) -> (r: Result<OpAction, OpError>)
        ensures
            op_post(*self, state_of(*old(m)), state_of(*final(m)), r),
    {
        match *self {
            Op::PushInt(n) => {
                m.push(Value::Int(n));
                Ok(OpAction::Next)
            },
            Op::Pop => match m.pop() {
                Ok(_) => Ok(OpAction::Next),
                Err(e) => Err(e),
            },
            Op::Load(i) => {
                let v = match m.load(i) {
                    Ok(v) => v.duplicate(),
                    Err(e) => return Err(e),
                };
                let ghost s0 = m.operands();
                m.push(v);
                assert(m.operands().drop_last() =~= s0);
                Ok(OpAction::Next)
            },
            Op::Store(i) => match m.pop() {
                Ok(v) => {
                    m.store(i, v);
                    Ok(OpAction::Next)
                },
                Err(e) => Err(e),
            },
            Op::AddInt(k) => match m.pop() {
                Ok(v) => match v.try_into_int() {
                    Ok(x) => {
                        m.push(Value::Int(x.wrapping_add(k)));
                        Ok(OpAction::Next)
                    },
                    Err(e) => Err(OpError::IntoType(e)),
                },
                Err(e) => Err(e),
            },
            Op::Jump(d) => Ok(OpAction::Jump(d)),
            Op::JumpIfZero(d) => match m.pop() {
                Ok(v) => match v.try_into_int() {
                    Ok(x) => if x == 0 {
                        Ok(OpAction::Jump(d))
                    } else {
                        Ok(OpAction::Next)
                    },
                    Err(e) => Err(OpError::IntoType(e)),
                },
                Err(e) => Err(e),
            },
            Op::Call(idx, n) => {
                let func = match m.load(0) {
                    Ok(Value::Module(module)) => {
                        if idx as usize >= module.functions.len() {
                            return Err(OpError::IndexRead(idx as i64));
                        }
                        Function {
                            module: module.duplicate(),
                            ops: copy_ops(&module.functions[idx as usize]),
                        }
                    },
                    Ok(_) => return Err(OpError::BadType(ValueType::Module)),
                    Err(e) => return Err(e),
                };
                match m.pop_many(n) {
                    Ok(args) => Ok(OpAction::Call(func, args)),
                    Err(e) => Err(e),
                }
            },
            Op::CallNative(f, n) => match m.pop_many(n) {
                Ok(args) => Ok(OpAction::CallNative(f, args)),
                Err(e) => Err(e),
            },
            Op::Return => match m.pop() {
                Ok(v) => Ok(OpAction::Return(v)),
                Err(e) => Err(e),
            },
        }
    }
}

impl Operation for Op {
    open spec fn effect(&self, s0: StackState, s1: StackState, r: Result<OpAction, OpError>) -> bool {
        op_post(*self, s0, s1, r)
    }

    fn exec(&self, m: &mut CallStack) -> (r: Result<OpAction, OpError>) {
        self.run(m)
    }
}

} // verus!
