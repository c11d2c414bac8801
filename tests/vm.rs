use libdougvm::bytecode::{Op, OpAction, OpError};
use libdougvm::datamodel::{Function, Module, NativeFn, Value, ValueTryIntoError, ValueType};
use libdougvm::{CallFrame, CallStack, VirtualMachine, VmState};

fn module_of(bodies: Vec<Vec<Op>>) -> Module {
    Module { functions: bodies }
}

fn function(module: &Module, index: usize) -> Function {
    Function { module: module.clone(), ops: module.functions[index].clone() }
}

fn run(bodies: Vec<Vec<Op>>, entry: usize) -> Result<Value, OpError> {
    let module = module_of(bodies);
    let mut vm = VirtualMachine::new(function(&module, entry));
    vm.run_until_exited()
}

#[test]
fn it_works() {
    let result = 2 + 2;
    assert_eq!(result, 4);
}

#[test]
fn pops_come_in_reverse_push_order() {
    let mut s = CallStack::new();
    for n in 1..=5 {
        s.push(Value::Int(n));
    }
    for n in (1..=5).rev() {
        assert_eq!(s.pop(), Ok(Value::Int(n)));
    }
    assert_eq!(s.pop(), Err(OpError::StackEmpty));
}

#[test]
fn pop_on_empty_stack_fails() {
    let mut s = CallStack::new();
    assert_eq!(s.pop(), Err(OpError::StackEmpty));
    assert_eq!(s.pop(), Err(OpError::StackEmpty));
}

#[test]
fn store_then_load_gives_value_back() {
    let mut s = CallStack::new();
    s.store(3, Value::Int(42));
    assert_eq!(s.load(3), Ok(&Value::Int(42)));
    assert_eq!(s.load(0), Ok(&Value::Empty));
    assert_eq!(s.load(1), Ok(&Value::Empty));
    assert_eq!(s.load(2), Ok(&Value::Empty));
    s.store(1, Value::Bool(true));
    assert_eq!(s.load(1), Ok(&Value::Bool(true)));
    assert_eq!(s.load(3), Ok(&Value::Int(42)));
}

#[test]
fn load_of_unwritten_slot_fails() {
    let mut s = CallStack::new();
    assert_eq!(s.load(0), Err(OpError::LocalRead(0)));
    s.store(2, Value::Int(1));
    assert_eq!(s.load(3), Err(OpError::LocalRead(3)));
    assert_eq!(s.load(255), Err(OpError::LocalRead(255)));
}

#[test]
fn store_at_largest_index() {
    let mut s = CallStack::new();
    s.store(255, Value::Int(9));
    assert_eq!(s.load(255), Ok(&Value::Int(9)));
    assert_eq!(s.load(254), Ok(&Value::Empty));
}

#[test]
fn swap_exchanges_local() {
    let mut s = CallStack::new();
    s.store(0, Value::Int(1));
    let mut v = Value::Int(2);
    s.swap(0, &mut v);
    assert_eq!(v, Value::Int(1));
    assert_eq!(s.load(0), Ok(&Value::Int(2)));
    let mut w = Value::Bool(false);
    s.swap(2, &mut w);
    assert_eq!(w, Value::Empty);
    assert_eq!(s.load(1), Ok(&Value::Empty));
    assert_eq!(s.load(2), Ok(&Value::Bool(false)));
}

#[test]
fn new_frame_holds_module_in_slot_zero() {
    let module = module_of(vec![vec![Op::Return]]);
    let frame = CallFrame::new(function(&module, 0));
    assert_eq!(frame.cursor, 0);
    assert!(frame.parent.is_none());
    assert_eq!(frame.stack.load(0), Ok(&Value::Module(module.clone())));
}

#[test]
fn pop_twice_on_frame_without_arguments() {
    let module = module_of(vec![vec![]]);
    let mut frame = CallFrame::new(function(&module, 0));
    assert_eq!(frame.stack.pop(), Err(OpError::StackEmpty));
    assert_eq!(frame.stack.pop(), Err(OpError::StackEmpty));
    assert_eq!(frame.stack.load(0), Ok(&Value::Module(module.clone())));
    assert_eq!(frame.stack.load(1), Err(OpError::LocalRead(1)));
}

#[test]
fn frame_jump_is_relative_and_wraps() {
    let module = module_of(vec![vec![]]);
    let mut frame = CallFrame::new(function(&module, 0));
    frame.jump(5);
    assert_eq!(frame.cursor, 5);
    frame.jump(-2);
    assert_eq!(frame.cursor, 3);
    frame.jump(-4);
    assert_eq!(frame.cursor, usize::MAX);
}

#[test]
fn frame_exec_past_end_returns_empty() {
    let module = module_of(vec![vec![Op::PushInt(1)]]);
    let mut frame = CallFrame::new(function(&module, 0));
    assert_eq!(frame.exec(), Ok(OpAction::Next));
    assert_eq!(frame.cursor, 1);
    assert_eq!(frame.exec(), Ok(OpAction::Return(Value::Empty)));
    assert_eq!(frame.cursor, 1);
    frame.jump(100);
    assert_eq!(frame.exec(), Ok(OpAction::Return(Value::Empty)));
}

#[test]
fn scenario_push_constant_and_return() {
    let f = vec![Op::PushInt(5), Op::Return];
    assert_eq!(run(vec![f], 0), Ok(Value::Int(5)));
}

#[test]
fn scenario_call_and_return() {
    let f = vec![Op::PushInt(5), Op::Return];
    let g = vec![Op::Call(0, 0), Op::Return];
    assert_eq!(run(vec![f, g], 1), Ok(Value::Int(5)));
}

#[test]
fn scenario_deep_call_chain() {
    // Function 0 takes n and returns n by calling itself with n - 1 down to zero.
    let count = vec![
        Op::Store(1),
        Op::Load(1),
        Op::JumpIfZero(5),
        Op::Load(1),
        Op::AddInt(-1),
        Op::Call(0, 1),
        Op::AddInt(1),
        Op::Return,
        Op::PushInt(0),
        Op::Return,
    ];
    let entry = vec![Op::PushInt(100_000), Op::Call(0, 1), Op::Return];
    assert_eq!(run(vec![count, entry], 1), Ok(Value::Int(100_000)));
}

#[test]
fn return_lands_on_caller_stack() {
    let f = vec![Op::PushInt(5), Op::Return];
    let g = vec![Op::PushInt(7), Op::Call(0, 0), Op::CallNative(NativeFn::Sum, 2), Op::Return];
    assert_eq!(run(vec![f, g], 1), Ok(Value::Int(12)));
}

#[test]
fn call_passes_arguments_in_order() {
    // The callee stores its top argument in slot 1 and returns the one below it.
    let f = vec![Op::Store(1), Op::Return];
    let g = vec![Op::PushInt(10), Op::PushInt(20), Op::Call(0, 2), Op::Return];
    assert_eq!(run(vec![f, g], 1), Ok(Value::Int(10)));
}

#[test]
fn call_then_return_by_steps() {
    let module = module_of(vec![vec![Op::PushInt(5), Op::Return], vec![Op::PushInt(7), Op::Call(0, 0)]]);
    let mut vm = VirtualMachine::new(function(&module, 1));
    let a = vm.step().unwrap();
    assert_eq!(vm.process(a), Ok(VmState::Running));
    let a = vm.step().unwrap();
    assert!(matches!(a, OpAction::Call(_, _)));
    assert_eq!(vm.process(a), Ok(VmState::Running));
    for _ in 0..2 {
        let a = vm.step().unwrap();
        assert_eq!(vm.process(a), Ok(VmState::Running));
    }
    // Back in the caller, past its last operation, with 7 and 5 on its stack.
    assert_eq!(vm.step(), Ok(OpAction::Return(Value::Empty)));
    assert!(!vm.is_exited());
    assert_eq!(vm.process(OpAction::CallNative(NativeFn::Count, vec![])), Ok(VmState::Running));
    assert_eq!(vm.process(OpAction::Return(Value::Int(1))), Ok(VmState::Exited(Value::Int(1))));
    assert!(vm.is_exited());
}

#[test]
fn jump_offset_counts_from_next_operation() {
    let f = vec![Op::Jump(1), Op::PushInt(1), Op::PushInt(2), Op::Return];
    assert_eq!(run(vec![f], 0), Ok(Value::Int(2)));
    let g = vec![Op::Jump(0), Op::PushInt(3), Op::Return];
    assert_eq!(run(vec![g], 0), Ok(Value::Int(3)));
}

#[test]
fn backward_jump_loops() {
    // Counts slot 1 down from 3 to 0, adding 10 to slot 2 each time round.
    let f = vec![
        Op::PushInt(3),
        Op::Store(1),
        Op::PushInt(0),
        Op::Store(2),
        Op::Load(1),
        Op::JumpIfZero(7),
        Op::Load(1),
        Op::AddInt(-1),
        Op::Store(1),
        Op::Load(2),
        Op::AddInt(10),
        Op::Store(2),
        Op::Jump(-9),
        Op::Load(2),
        Op::Return,
    ];
    assert_eq!(run(vec![f], 0), Ok(Value::Int(30)));
}

#[test]
fn end_of_function_returns_empty() {
    assert_eq!(run(vec![vec![Op::PushInt(3)]], 0), Ok(Value::Empty));
    assert_eq!(run(vec![vec![]], 0), Ok(Value::Empty));
    let g = vec![Op::Call(1, 0), Op::Return];
    assert_eq!(run(vec![g, vec![]], 0), Ok(Value::Empty));
}

#[test]
fn errors_abort_the_run() {
    assert_eq!(run(vec![vec![Op::Return]], 0), Err(OpError::StackEmpty));
    assert_eq!(run(vec![vec![Op::Pop]], 0), Err(OpError::StackEmpty));
    assert_eq!(run(vec![vec![Op::Load(3)]], 0), Err(OpError::LocalRead(3)));
    assert_eq!(run(vec![vec![Op::Call(9, 0)]], 0), Err(OpError::IndexRead(9)));
    assert_eq!(run(vec![vec![Op::Call(0, 1)]], 0), Err(OpError::StackEmpty));
    assert_eq!(
        run(vec![vec![Op::PushInt(1), Op::Store(0), Op::Call(0, 0)]], 0),
        Err(OpError::BadType(ValueType::Module))
    );
    assert_eq!(
        run(vec![vec![Op::Load(0), Op::AddInt(1)]], 0),
        Err(OpError::IntoType(ValueTryIntoError { expected: ValueType::Int, found: ValueType::Module }))
    );
    assert_eq!(
        run(vec![vec![Op::Load(1)], vec![]], 0),
        Err(OpError::LocalRead(1))
    );
    assert_eq!(run(vec![vec![Op::CallNative(NativeFn::Sum, 1)]], 0), Err(OpError::StackEmpty));
}

#[test]
fn op_run_on_a_stack() {
    let mut s = CallStack::new();
    assert_eq!(Op::JumpIfZero(4).run(&mut s), Err(OpError::StackEmpty));
    s.push(Value::Int(0));
    assert_eq!(Op::JumpIfZero(4).run(&mut s), Ok(OpAction::Jump(4)));
    s.push(Value::Int(2));
    assert_eq!(Op::JumpIfZero(4).run(&mut s), Ok(OpAction::Next));
    s.push(Value::Bool(true));
    assert_eq!(
        Op::JumpIfZero(4).run(&mut s),
        Err(OpError::IntoType(ValueTryIntoError { expected: ValueType::Int, found: ValueType::Bool }))
    );
    assert_eq!(Op::Call(0, 0).run(&mut s), Err(OpError::LocalRead(0)));
    s.push(Value::Int(i64::MAX));
    assert_eq!(Op::AddInt(1).run(&mut s), Ok(OpAction::Next));
    assert_eq!(s.pop(), Ok(Value::Int(i64::MIN)));
}

#[test]
fn native_functions() {
    assert_eq!(NativeFn::Count.invoke(vec![Value::Empty, Value::Bool(true)]), Value::Int(2));
    assert_eq!(NativeFn::Count.invoke(vec![]), Value::Int(0));
    assert_eq!(NativeFn::Sum.invoke(vec![Value::Int(4), Value::Bool(true), Value::Int(-1)]), Value::Int(3));
    assert_eq!(NativeFn::Sum.invoke(vec![Value::Int(i64::MAX), Value::Int(2)]), Value::Int(i64::MIN + 1));
    assert_eq!(NativeFn::Sum.invoke(vec![]), Value::Int(0));
}

#[test]
fn native_call_keeps_frame() {
    let f = vec![Op::PushInt(2), Op::PushInt(3), Op::CallNative(NativeFn::Sum, 2), Op::Return];
    assert_eq!(run(vec![f], 0), Ok(Value::Int(5)));
    let g = vec![Op::PushInt(2), Op::CallNative(NativeFn::Count, 0), Op::Return];
    assert_eq!(run(vec![g], 0), Ok(Value::Int(0)));
}

#[test]
fn value_coercion() {
    assert_eq!(Value::Int(3).try_into_int(), Ok(3));
    assert_eq!(
        Value::Empty.try_into_int(),
        Err(ValueTryIntoError { expected: ValueType::Int, found: ValueType::Empty })
    );
    assert_eq!(Value::Bool(false).value_type(), ValueType::Bool);
    let m = module_of(vec![vec![Op::Pop]]);
    assert_eq!(Value::from(m.clone()), Value::Module(m.clone()));
    assert_eq!(m.duplicate(), m);
}
