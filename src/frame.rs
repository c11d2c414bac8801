use vstd::prelude::*;

use crate::bytecode::{op_post, OpAction, OpError, Operation};
use crate::datamodel::{Function, Value, ValueView};
use crate::stack::CallStack;

verus! {

/// One activation record as the contracts see it, without its link to the caller.
pub struct FrameView {
    pub function: Function,
    pub cursor: usize,
    pub operands: Seq<Value>,
    pub locals: Seq<Value>,
}

/// The cursor after moving `cursor` by the signed offset `d`, wrapping at the ends of `usize`.
pub open spec fn jump_target(cursor: usize, d: i32) -> usize {
    vstd::wrapping::usize_specs::wrapping_add_signed(cursor, d as isize)
}

/// A fresh frame for `f`: cursor 0, no operands, and `f`'s module in local slot 0.
pub open spec fn is_fresh_frame(v: FrameView, f: Function) -> bool {
    &&& v.function == f
    &&& v.cursor == 0
    &&& v.operands == Seq::<Value>::empty()
    &&& v.locals.len() == 1
    &&& v.locals[0]@ == ValueView::Module(f.module@)
}

/// What executing the next operation of frame `f0` does: `f1` is the frame afterwards.
/// Past the last operation the frame returns the empty value and stays as it is.
pub open spec fn exec_post(f0: FrameView, f1: FrameView, r: Result<OpAction, OpError>) -> bool {
    if f0.cursor >= f0.function.ops@.len() {
        r == Ok::<OpAction, OpError>(OpAction::Return(Value::Empty)) && f1 == f0
    } else {
        &&& f1.function == f0.function
        &&& f1.cursor == f0.cursor + 1
        &&& op_post(f0.function.ops@[f0.cursor as int], (f0.operands, f0.locals), (f1.operands, f1.locals), r)
    }
}

/// One activation record: the function, its cursor, its stack, and the caller while active.
pub struct CallFrame {
    pub parent: Option<Box<CallFrame>>,
    pub function: Function,
    pub cursor: usize,
    pub stack: CallStack,
}

/// The frames from the outermost caller down to `f` itself.
pub open spec fn chain(f: CallFrame) -> Seq<FrameView>
    decreases f,
{
    match f.parent {
        Some(p) => chain(*p).push(f.view()),
        None => seq![f.view()],
    }
}

impl CallFrame {
    pub open spec fn view(&self) -> FrameView {
        FrameView {
            function: self.function,
            cursor: self.cursor,
            operands: self.stack.operands(),
            locals: self.stack.locals(),
        }
    }

    /// A frame for `function`, with no caller yet.
    pub fn new(function: Function) -> (r: CallFrame)
        ensures
            r.parent is None,
            is_fresh_frame(r.view(), function),
    {
        let mut stack = CallStack::new();
        stack.store(0, Value::from(function.module.duplicate()));
        CallFrame { parent: None, function, cursor: 0, stack }
    }

    pub fn push(&mut self, val: Value)
        ensures
            final(self).parent == old(self).parent,
            final(self).view() == (FrameView {
                operands: old(self).view().operands.push(val),
                ..old(self).view()
            }),
    {
        self.stack.push(val);
    }

    /// Moves the cursor by `index`, with no bounds check.
    pub fn jump(&mut self, index: i32)
        ensures
            final(self).parent == old(self).parent,
            final(self).view() == (FrameView { cursor: jump_target(old(self).cursor, index), ..old(self).view() }),
    {
        self.cursor = self.cursor.wrapping_add_signed(index as isize);
    }

    /// Executes the operation at the cursor, after moving the cursor past it.
    pub fn exec(&mut self) -> (r: Result<OpAction, OpError>)
        ensures
            final(self).parent == old(self).parent,
            exec_post(old(self).view(), final(self).view(), r),
    {
        if self.cursor >= self.function.ops.len() {
            return Ok(OpAction::Return(Value::Empty));
        }
        let op = self.function.ops[self.cursor];
        self.cursor = self.cursor + 1;
        op.exec(&mut self.stack)
    }
}

} // verus!
