use vstd::prelude::*;

use crate::bytecode::{OpAction, OpError};
use crate::datamodel::Value;
use crate::frame::FrameView;
use crate::stack::{grown, stored};
use crate::vm::{process_post, step_post, with_pushed, VmState};

verus! {

/// The operand stack `s` after pushing each of `xs` in order.
pub open spec fn push_each(s: Seq<Value>, xs: Seq<Value>) -> Seq<Value>
    decreases xs.len(),
{
    if xs.len() == 0 {
        s
    } else {
        push_each(s, xs.drop_last()).push(xs.last())
    }
}

/// The values that `n` pops take from the operand stack `s`, in the order they come off.
pub open spec fn pop_each(s: Seq<Value>, n: nat) -> Seq<Value>
    decreases n,
{
    if n == 0 || s.len() == 0 {
        Seq::empty()
    } else {
        seq![s.last()] + pop_each(s.drop_last(), (n - 1) as nat)
    }
}

/// Pushing each of `xs` onto `s` appends them.
pub proof fn lemma_push_each(s: Seq<Value>, xs: Seq<Value>)
    ensures
        push_each(s, xs) == s + xs,
    decreases xs.len(),
{
    if xs.len() > 0 {
        lemma_push_each(s, xs.drop_last());
        assert(s + xs =~= (s + xs.drop_last()).push(xs.last()));
    }
}

/// Last in, first out: after pushing `xs` onto any stack `s`, as many pops give back
/// `xs` in reverse order and leave `s`.
pub proof fn lemma_lifo(s: Seq<Value>, xs: Seq<Value>)
    ensures
        pop_each(push_each(s, xs), xs.len()).len() == xs.len(),
        forall|i: int| 0 <= i < xs.len() ==> #[trigger] pop_each(push_each(s, xs), xs.len())[i] == xs[xs.len() - 1 - i],
        push_each(s, xs).subrange(0, s.len() as int) == s,
    decreases xs.len(),
{
    lemma_push_each(s, xs);
    if xs.len() > 0 {
        let ys = xs.drop_last();
        lemma_lifo(s, ys);
        lemma_push_each(s, ys);
        let full = push_each(s, xs);
        assert(full.drop_last() =~= push_each(s, ys));
        assert(full.last() == xs.last());
        let p = pop_each(full, xs.len());
        assert(p == seq![xs.last()] + pop_each(push_each(s, ys), ys.len()));
        assert forall|i: int| 0 <= i < xs.len() implies #[trigger] p[i] == xs[xs.len() - 1 - i] by {
            if i > 0 {
                assert(p[i] == pop_each(push_each(s, ys), ys.len())[i - 1]);
            }
        }
    }
    assert(push_each(s, xs).subrange(0, s.len() as int) =~= s);
}

/// A store followed by a load of the same slot gives back the stored value; slots that
/// the store had to create on the way hold the empty value; other slots keep theirs.
pub proof fn lemma_store_then_load(locals: Seq<Value>, index: nat, v: Value)
    ensures
        stored(locals, index, v).len() == if index < locals.len() { locals.len() } else { index + 1 },
        stored(locals, index, v)[index as int] == v,
        forall|j: int| locals.len() <= j < index ==> #[trigger] stored(locals, index, v)[j] == Value::Empty,
        forall|j: int| 0 <= j < locals.len() && j != index ==> #[trigger] stored(locals, index, v)[j] == locals[j],
{
    assert(grown(locals, index).len() == if index < locals.len() { locals.len() } else { index + 1 });
}

/// A call followed, once the callee is the current frame again, by its return: the caller
/// is current again with its stack as before the call plus the returned value on top, its
/// cursor past the call, and nothing of the callee left.
pub proof fn lemma_call_then_return(
    before: Seq<FrameView>,
    at_call: Seq<FrameView>,
    f: crate::datamodel::Function,
    args: Vec<Value>,
    in_callee: Seq<FrameView>,
    r_call: Result<VmState, OpError>,
    at_return: Seq<FrameView>,
    v: Value,
    after: Seq<FrameView>,
    r_return: Result<VmState, OpError>,
)
    requires
        before.len() > 0,
        step_post(before, at_call, Ok(OpAction::Call(f, args))),
        process_post(at_call, OpAction::Call(f, args), in_callee, r_call),
        at_return.len() == in_callee.len() && at_return.drop_last() == in_callee.drop_last(),
        process_post(at_return, OpAction::Return(v), after, r_return),
    ensures
        r_return == Ok::<VmState, OpError>(VmState::Running),
        after.len() == before.len(),
        after.drop_last() == before.drop_last(),
        after.last() == with_pushed(at_call.last(), v),
        after.last().cursor == before.last().cursor + 1,
        after.last().function == before.last().function,
        after.last().locals == at_call.last().locals,
{
    assert(in_callee.drop_last() == at_call);
    assert(at_return.drop_last() =~= at_call);
    assert(after =~= at_call.update(at_call.len() - 1, with_pushed(at_call.last(), v)));
}

/// A jump by `d` issued by the operation at cursor `c` puts the cursor at `c + 1 + d`,
/// where that position is a valid `usize`: the offset counts from the following operation.
pub proof fn lemma_jump_lands(
    before: Seq<FrameView>,
    at_jump: Seq<FrameView>,
    d: i32,
    after: Seq<FrameView>,
    r: Result<VmState, OpError>,
)
    requires
        before.len() > 0,
        step_post(before, at_jump, Ok(OpAction::Jump(d))),
        process_post(at_jump, OpAction::Jump(d), after, r),
        0 <= before.last().cursor + 1 + d <= usize::MAX,
    ensures
        r == Ok::<VmState, OpError>(VmState::Running),
        after.len() == before.len(),
        after.drop_last() == before.drop_last(),
        after.last().cursor == before.last().cursor + 1 + d,
{
}

/// Running past the last operation returns the empty value: to the caller, which gets it
/// on top of its stack, or, from the outermost frame, as the value the machine exits with.
pub proof fn lemma_implicit_return(
    before: Seq<FrameView>,
    at_end: Seq<FrameView>,
    action: OpAction,
    after: Seq<FrameView>,
    r: Result<VmState, OpError>,
)
    requires
        before.len() > 0,
        before.last().cursor >= before.last().function.ops@.len(),
        step_post(before, at_end, Ok(action)),
        process_post(at_end, action, after, r),
    ensures
        action == OpAction::Return(Value::Empty),
        before.len() == 1 ==> r == Ok::<VmState, OpError>(VmState::Exited(Value::Empty)) && after.len() == 0,
        before.len() > 1 ==> r == Ok::<VmState, OpError>(VmState::Running) && after == before.drop_last().update(
            before.len() - 2,
            with_pushed(before[before.len() - 2], Value::Empty),
        ),
{
    assert(at_end.drop_last().push(at_end.last()) =~= at_end);
    assert(before.drop_last().push(before.last()) =~= before);
}

} // verus!
