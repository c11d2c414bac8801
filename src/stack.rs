use vstd::prelude::*;

use crate::bytecode::OpError;
use crate::datamodel::Value;

verus! {

/// The locals after growing them so that `index` is a valid slot: new slots hold the empty value.
pub open spec fn grown(locals: Seq<Value>, index: nat) -> Seq<Value> {
    if index < locals.len() {
        locals
    } else {
        locals + Seq::new((index + 1 - locals.len()) as nat, |_j: int| Value::Empty)
    }
}

/// The locals after writing `v` at `index`, growing them first if needed.
pub open spec fn stored(locals: Seq<Value>, index: nat, v: Value) -> Seq<Value> {
    grown(locals, index).update(index as int, v)
}

/// The operand stack and the local slots of one frame.
pub struct CallStack {
    stack: Vec<Value>,
    locals: Vec<Value>,
}

impl CallStack {
    /// The operand stack, bottom first.
    pub closed spec fn operands(&self) -> Seq<Value> {
        self.stack@
    }

    /// The local slots, by index.
    pub closed spec fn locals(&self) -> Seq<Value> {
        self.locals@
    }

    pub fn new() -> (r: CallStack)
        ensures
            r.operands() == Seq::<Value>::empty(),
            r.locals() == Seq::<Value>::empty(),
    {
        CallStack { stack: Vec::new(), locals: Vec::new() }
    }

    /// The local at `index`, or `LocalRead(index)` where no slot `index` exists yet.
    pub fn load(&self, index: u8) -> (r: Result<&Value, OpError>)
        ensures
            index < self.locals().len() ==> r == Ok::<&Value, OpError>(&self.locals()[index as int]),
            index >= self.locals().len() ==> r == Err::<&Value, OpError>(OpError::LocalRead(index)),
    {
        if (index as usize) < self.locals.len() {
            Ok(&self.locals[index as usize])
        } else {
            Err(OpError::LocalRead(index))
        }
    }

    fn grow_to(&mut self, index: u8)
        ensures
            final(self).locals() == grown(old(self).locals(), index as nat),
            final(self).operands() == old(self).operands(),
    {
        let ghost start = self.locals@;
        while self.locals.len() <= index as usize
            invariant
                self.stack@ == old(self).stack@,
                self.locals@.len() <= index as nat + 1 || self.locals@ == start,
                start.len() <= self.locals@.len(),
                self.locals@.subrange(0, start.len() as int) == start,
                forall|j: int| start.len() <= j < self.locals@.len() ==> self.locals@[j] == Value::Empty,
                start == old(self).locals@,
            decreases index as nat + 1 - self.locals@.len(),
        {
            self.locals.push(Value::Empty);
        }
        assert(self.locals@ =~= grown(start, index as nat));
    }

    /// Writes `val` at `index`, growing the locals with empty values as needed.
    pub fn store(&mut self, index: u8, val: Value)
        ensures
            final(self).locals() == stored(old(self).locals(), index as nat, val),
            final(self).operands() == old(self).operands(),
    {
        self.grow_to(index);
        self.locals.push(val);
        let _old = self.locals.swap_remove(index as usize);
        assert(self.locals@ =~= stored(old(self).locals(), index as nat, val));
    }

    /// Exchanges the local at `index` with `*val`, growing the locals with empty values as needed.
    pub fn swap(&mut self, index: u8, val: &mut Value)
        ensures
            final(self).locals() == stored(old(self).locals(), index as nat, *old(val)),
            *final(val) == grown(old(self).locals(), index as nat)[index as int],
            final(self).operands() == old(self).operands(),
    {
        self.grow_to(index);
        let mut tmp = Value::Empty;
        std::mem::swap(&mut tmp, val);
        self.locals.push(tmp);
        let prev = self.locals.swap_remove(index as usize);
        *val = prev;
        assert(self.locals@ =~= stored(old(self).locals(), index as nat, *old(val)));
    }

    pub fn push(&mut self, val: Value)
        ensures
            final(self).operands() == old(self).operands().push(val),
            final(self).locals() == old(self).locals(),
    {
        self.stack.push(val);
    }

    /// Takes the top operand, or fails with `StackEmpty`, leaving the stack as it was.
    pub fn pop(&mut self) -> (r: Result<Value, OpError>)
        ensures
            old(self).operands().len() == 0 ==> r == Err::<Value, OpError>(OpError::StackEmpty)
                && final(self).operands() == old(self).operands(),
            old(self).operands().len() > 0 ==> r == Ok::<Value, OpError>(old(self).operands().last())
                && final(self).operands() == old(self).operands().drop_last(),
            final(self).locals() == old(self).locals(),
    {
        match self.stack.pop() {
            Some(v) => Ok(v),
            None => Err(OpError::StackEmpty),
        }
    }

    /// Takes the top `n` operands, bottom first, or fails with `StackEmpty` where fewer are held.
    pub fn pop_many(&mut self, n: u8) -> (r: Result<Vec<Value>, OpError>)
        ensures
            old(self).operands().len() < n ==> r == Err::<Vec<Value>, OpError>(OpError::StackEmpty)
                && final(self).operands() == old(self).operands(),
            old(self).operands().len() >= n ==> r is Ok
                && r->Ok_0@ == old(self).operands().subrange(
                    old(self).operands().len() - n,
                    old(self).operands().len() as int,
                )
                && final(self).operands() == old(self).operands().subrange(
                    0,
                    old(self).operands().len() - n,
                ),
            final(self).locals() == old(self).locals(),
    {
        if self.stack.len() < n as usize {
            return Err(OpError::StackEmpty);
        }
        let at = self.stack.len() - n as usize;
        Ok(self.stack.split_off(at))
    }

    /// Pushes every value of `vals` in order, so that the last one ends on top.
    pub fn push_all(&mut self, vals: Vec<Value>)
        ensures
            final(self).operands() == old(self).operands() + vals@,
            final(self).locals() == old(self).locals(),
    {
        let mut vals = vals;
        self.stack.append(&mut vals);
    }
}

} // verus!
