use vstd::prelude::*;

use crate::bytecode::Op;

verus! {

/// The kind of a `Value`, as reported when a coercion or a type check fails.
#[derive(Clone, Copy, Debug, PartialEq, Eq, Structural)]
pub enum ValueType {
    Empty,
    Bool,
    Int,
    Module,
}

/// A failed coercion: the kind that was wanted and the kind that was found.
#[derive(Clone, Copy, Debug, PartialEq, Eq, Structural)]
pub struct ValueTryIntoError {
    pub expected: ValueType,
    pub found: ValueType,
}

/// A loaded module: the bodies of its functions, addressed by index.
#[derive(Clone, Debug, PartialEq)]
pub struct Module {
    pub functions: Vec<Vec<Op>>,
}

impl View for Module {
    type V = Seq<Seq<Op>>;

    open spec fn view(&self) -> Seq<Seq<Op>> {
        Seq::new(self.functions@.len(), |i: int| self.functions@[i]@)
    }
}

/// Copies a sequence of operations.
pub fn copy_ops(ops: &Vec<Op>) -> (r: Vec<Op>)
    ensures
        r@ == ops@,
{
    let mut r: Vec<Op> = Vec::new();
    let mut i: usize = 0;
    while i < ops.len()
        invariant
            i <= ops@.len(),
            r@ == ops@.subrange(0, i as int),
        decreases ops@.len() - i,
    {
        r.push(ops[i]);
        i = i + 1;
    }
    assert(r@ =~= ops@);
    r
}

impl Module {
    /// A copy of this module with the same function bodies.
    pub fn duplicate(&self) -> (r: Module)
        ensures
            r@ == self@,
    {
        let mut functions: Vec<Vec<Op>> = Vec::new();
        let mut i: usize = 0;
        while i < self.functions.len()
            invariant
                i <= self.functions@.len(),
                functions@.len() == i,
                forall|j: int| 0 <= j < i ==> #[trigger] functions@[j]@ == self.functions@[j]@,
            decreases self.functions@.len() - i,
        {
            let body = copy_ops(&self.functions[i]);
            functions.push(body);
            i = i + 1;
        }
        let r = Module { functions };
        assert(r@ =~= self@);
        r
    }
}

/// A function: its operations, and the module it was loaded from.
#[derive(Clone, Debug, PartialEq)]
pub struct Function {
    pub module: Module,
    pub ops: Vec<Op>,
}

/// A value as seen by the contracts: a module is seen through its function bodies.
pub enum ValueView {
    Empty,
    Bool(bool),
    Int(i64),
    Module(Seq<Seq<Op>>),
}

/// An operand or local value. `None` is the empty value.
#[derive(Clone, Debug, PartialEq)]
pub enum Value {
    Empty,
    Bool(bool),
    Int(i64),
    Module(Module),
}

impl View for Value {
    type V = ValueView;

    open spec fn view(&self) -> ValueView {
        match self {
            Value::Empty => ValueView::Empty,
            Value::Bool(b) => ValueView::Bool(*b),
            Value::Int(n) => ValueView::Int(*n),
            Value::Module(m) => ValueView::Module(m@),
        }
    }
}

impl From<Module> for Value {
    fn from(m: Module) -> (r: Value)
        ensures
            r == Value::Module(m),
    {
        Value::Module(m)
    }
}

impl vstd::std_specs::convert::FromSpecImpl<Module> for Value {
    open spec fn obeys_from_spec() -> bool {
        true
    }

    open spec fn from_spec(m: Module) -> Value {
        Value::Module(m)
    }
}

pub open spec fn type_of(v: Value) -> ValueType {
    match v {
        Value::Empty => ValueType::Empty,
        Value::Bool(_) => ValueType::Bool,
        Value::Int(_) => ValueType::Int,
        Value::Module(_) => ValueType::Module,
    }
}

impl Value {
    /// The kind of this value.
    pub fn value_type(&self) -> (r: ValueType)
        ensures
            r == type_of(*self),
    {
        match self {
            Value::Empty => ValueType::Empty,
            Value::Bool(_) => ValueType::Bool,
            Value::Int(_) => ValueType::Int,
            Value::Module(_) => ValueType::Module,
        }
    }

    /// A copy of this value.
    pub fn duplicate(&self) -> (r: Value)
        ensures
            r@ == self@,
    {
        match self {
            Value::Empty => Value::Empty,
            Value::Bool(b) => Value::Bool(*b),
            Value::Int(n) => Value::Int(*n),
            Value::Module(m) => Value::Module(m.duplicate()),
        }
    }

    /// The integer held by this value, or the coercion error.
    pub fn try_into_int(&self) -> (r: Result<i64, ValueTryIntoError>)
        ensures
            match *self {
                Value::Int(n) => r == Ok::<i64, ValueTryIntoError>(n),
                _ => r == Err::<i64, ValueTryIntoError>(
                    ValueTryIntoError { expected: ValueType::Int, found: type_of(*self) },
                ),
            },
    {
        match self {
            Value::Int(n) => Ok(*n),
            _ => Err(ValueTryIntoError { expected: ValueType::Int, found: self.value_type() }),
        }
    }
}

/// A host function that bytecode can call without a new frame.
#[derive(Clone, Copy, Debug, PartialEq, Eq, Structural)]
pub enum NativeFn {
    /// The number of arguments, as an integer.
    Count,
    /// The wrapping sum of the integer arguments; other arguments count as zero.
    Sum,
}

pub open spec fn int_part(v: Value) -> i64 {
    match v {
        Value::Int(n) => n,
        _ => 0,
    }
}

/// The wrapping sum of the integer values among the first `n` of `args`.
pub open spec fn sum_prefix(args: Seq<Value>, n: nat) -> i64
    decreases n,
{
    if n == 0 || n > args.len() {
        0
    } else {
        vstd::wrapping::i64_specs::wrapping_add(sum_prefix(args, (n - 1) as nat), int_part(args[n - 1]))
    }
}

/// What a native function returns for the given arguments.
pub open spec fn native_result(f: NativeFn, args: Seq<Value>) -> Value {
    match f {
        NativeFn::Count => Value::Int(args.len() as i64),
        NativeFn::Sum => Value::Int(sum_prefix(args, args.len())),
    }
}

impl NativeFn {
    /// Calls this host function on `args`.
    pub fn invoke(&self, args: Vec<Value>) -> (r: Value)
        ensures
            r == native_result(*self, args@),
    {
        match self {
            NativeFn::Count => Value::Int(args.len() as i64),
            NativeFn::Sum => {
                let mut total: i64 = 0;
                let mut i: usize = 0;
                while i < args.len()
                    invariant
                        i <= args@.len(),
                        total == sum_prefix(args@, i as nat),
                    decreases args@.len() - i,
                {
                    let x: i64 = match &args[i] {
                        Value::Int(n) => *n,
                        _ => 0,
                    };
                    total = total.wrapping_add(x);
                    i = i + 1;
                }
                Value::Int(total)
            },
        }
    }
}

} // verus!
