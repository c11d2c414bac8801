use vstd::prelude::*;

use crate::bytecode::{OpAction, OpError};
use crate::datamodel::{native_result, Function, Value};
use crate::frame::{chain, exec_post, is_fresh_frame, jump_target, CallFrame, FrameView};

verus! {

/// Whether the machine still runs a frame, or has finished with a value.
#[derive(Debug, PartialEq)]
pub enum VmState {
    Running,
    Exited(Value),
}

/// Frame `f` with `v` pushed on its operand stack.
pub open spec fn with_pushed(f: FrameView, v: Value) -> FrameView {
    FrameView { operands: f.operands.push(v), ..f }
}

/// What one step does to the frames `s0` (outermost first): the current frame executes
/// its next operation and the others stay as they are.
pub open spec fn step_post(s0: Seq<FrameView>, s1: Seq<FrameView>, r: Result<OpAction, OpError>) -> bool {
    &&& s1.len() == s0.len()
    &&& s1.drop_last() == s0.drop_last()
    &&& exec_post(s0.last(), s1.last(), r)
}

/// What applying `action` does to the frames `s0` (outermost first).
pub open spec fn process_post(s0: Seq<FrameView>, action: OpAction, s1: Seq<FrameView>, r: Result<VmState, OpError>) -> bool {
    let cur = s0.last();
    match action {
        OpAction::Next => r == Ok::<VmState, OpError>(VmState::Running) && s1 == s0,
        OpAction::Jump(d) => r == Ok::<VmState, OpError>(VmState::Running) && s1 == s0.update(
            s0.len() - 1,
            FrameView { cursor: jump_target(cur.cursor, d), ..cur },
        ),
        OpAction::Call(f, args) => {
            &&& r == Ok::<VmState, OpError>(VmState::Running)
            &&& s1.len() == s0.len() + 1
            &&& s1.drop_last() == s0
            &&& is_fresh_frame(FrameView { operands: Seq::<Value>::empty(), ..s1.last() }, f)
            &&& s1.last().operands == args@
        },
        OpAction::CallNative(g, args) => r == Ok::<VmState, OpError>(VmState::Running) && s1 == s0.update(
            s0.len() - 1,
            with_pushed(cur, native_result(g, args@)),
        ),
        OpAction::Return(v) => if s0.len() > 1 {
            &&& r == Ok::<VmState, OpError>(VmState::Running)
            &&& s1 == s0.drop_last().update(s0.len() - 2, with_pushed(s0[s0.len() - 2], v))
        } else {
            r == Ok::<VmState, OpError>(VmState::Exited(v)) && s1 == Seq::<FrameView>::empty()
        },
    }
}

/// One step and its action, the machine still running: the frames go from `s0` to `s1`.
pub open spec fn moves(s0: Seq<FrameView>, s1: Seq<FrameView>) -> bool {
    exists|a: OpAction, mid: Seq<FrameView>|
        step_post(s0, mid, Ok(a)) && #[trigger] process_post(mid, a, s1, Ok::<VmState, OpError>(VmState::Running))
}

/// `tr` is a run: each state in it follows from the one before by one move.
pub open spec fn is_run(tr: Seq<Seq<FrameView>>) -> bool {
    &&& tr.len() >= 1
    &&& forall|i: int| 0 <= i < tr.len() - 1 ==> moves(#[trigger] tr[i], tr[i + 1])
}

/// One step from the frames `s` and its action end the run with `v`.
pub open spec fn exits_with(s: Seq<FrameView>, v: Value) -> bool {
    exists|a: OpAction, mid: Seq<FrameView>|
        step_post(s, mid, Ok(a)) && #[trigger] process_post(
            mid,
            a,
            Seq::<FrameView>::empty(),
            Ok::<VmState, OpError>(VmState::Exited(v)),
        )
}

/// One step from the frames `s` fails with `e`.
pub open spec fn fails_with(s: Seq<FrameView>, e: OpError) -> bool {
    exists|mid: Seq<FrameView>| #[trigger] step_post(s, mid, Err::<OpAction, OpError>(e))
}

/// The interpreter: it owns the current frame, which owns the rest of the call chain.
pub struct VirtualMachine {
    frame: Option<Box<CallFrame>>,
}

impl VirtualMachine {
    /// The frames of the call chain, outermost first; empty once the machine has exited.
    pub closed spec fn frames(&self) -> Seq<FrameView> {
        match self.frame {
            Some(f) => chain(*f),
            None => Seq::empty(),
        }
    }

    /// A machine about to run `func` as its outermost frame.
    pub fn new(func: Function) -> (r: VirtualMachine)
        ensures
            r.frames().len() == 1,
            is_fresh_frame(r.frames()[0], func),
    {
        VirtualMachine { frame: Some(Box::new(CallFrame::new(func))) }
    }

    /// Whether the machine has exited.
    pub fn is_exited(&self) -> (r: bool)
        ensures
            r == (self.frames().len() == 0),
    {
        proof {
            if self.frame is Some {
                lemma_chain_nonempty(*self.frame->Some_0);
            }
        }
        self.frame.is_none()
    }

    /// Executes the next operation of the current frame.
    pub fn step(&mut self) -> (r: Result<OpAction, OpError>)
        requires
            old(self).frames().len() > 0,
        ensures
            step_post(old(self).frames(), final(self).frames(), r),
    {
        let mut frame = self.frame.take().unwrap();
        let r = frame.exec();
        self.frame = Some(frame);
        proof {
            assert(chain(*frame).drop_last() =~= chain(*old(self).frame.unwrap()).drop_last());
        }
        r
    }

    /// Applies an action to the call chain.
    pub fn process(&mut self, action: OpAction) -> (r: Result<VmState, OpError>)
        requires
            old(self).frames().len() > 0,
        ensures
            process_post(old(self).frames(), action, final(self).frames(), r),
    {
        let ghost s0 = self.frames();
        let mut frame = self.frame.take().unwrap();
        match action {
            OpAction::Next => {
                self.frame = Some(frame);
            },
            OpAction::Jump(dest) => {
                frame.jump(dest);
                self.frame = Some(frame);
                assert(self.frames() =~= s0.update(
                    s0.len() - 1,
                    FrameView { cursor: jump_target(s0.last().cursor, dest), ..s0.last() },
                ));
            },
            OpAction::Call(func, args) => {
                let mut callee = Box::new(CallFrame::new(func));
                callee.stack.push_all(args);
                callee.parent = Some(frame);
                self.frame = Some(callee);
                assert(self.frames().drop_last() =~= s0);
            },
            OpAction::CallNative(func, args) => {
                let v = func.invoke(args);
                frame.push(v);
                self.frame = Some(frame);
                assert(self.frames() =~= s0.update(s0.len() - 1, with_pushed(s0.last(), v)));
            },
            OpAction::Return(val) => {
                match frame.parent.take() {
                    Some(mut parent) => {
                        proof {
                            lemma_chain_nonempty(*parent);
                        }
                        parent.push(val);
                        self.frame = Some(parent);
                        assert(self.frames() =~= s0.drop_last().update(
                            s0.len() - 2,
                            with_pushed(s0[s0.len() - 2], val),
                        ));
                    },
                    None => {
                        self.frame = None;
                        return Ok(VmState::Exited(val));
                    },
                }
            },
        }
        Ok(VmState::Running)
    }

    /// Steps and applies actions until the outermost frame returns, or until a step fails.
    /// It gives up with `StepLimit` after `u64::MAX` steps.
    pub fn run_until_exited(&mut self) -> (r: Result<Value, OpError>)
        requires
            old(self).frames().len() > 0,
        ensures
            r matches Ok(v) ==> final(self).frames().len() == 0 && exists|tr: Seq<Seq<FrameView>>|
                is_run(tr) && tr[0] == old(self).frames() && #[trigger] exits_with(tr.last(), v),
            r matches Err(e) ==> exists|tr: Seq<Seq<FrameView>>| #[trigger] is_run(tr) && tr[0] == old(self).frames() && {
                ||| fails_with(tr.last(), e)
                ||| e == OpError::StepLimit && tr.len() == u64::MAX + 1
            },
    {
        let ghost start = self.frames();
        let ghost mut tr: Seq<Seq<FrameView>> = seq![start];
        let mut budget: u64 = u64::MAX;
        while budget > 0
            invariant
                start == old(self).frames(),
                self.frames().len() > 0,
                is_run(tr),
                tr[0] == start,
                tr.last() == self.frames(),
                tr.len() == u64::MAX - budget + 1,
            decreases budget,
        {
            let ghost s0 = self.frames();
            let action = match self.step() {
                Ok(a) => a,
                Err(e) => {
                    assert(fails_with(tr.last(), e));
                    return Err(e);
                },
            };
            let ghost mid = self.frames();
            let ghost a = action;
            match self.process(action) {
                Ok(VmState::Running) => {
                    proof {
                        assert(process_post(mid, a, self.frames(), Ok::<VmState, OpError>(VmState::Running)));
                        assert(moves(s0, self.frames()));
                        lemma_run_extend(tr, self.frames());
                        tr = tr.push(self.frames());
                    }
                },
                Ok(VmState::Exited(val)) => {
                    proof {
                        assert(process_post(mid, a, self.frames(), Ok::<VmState, OpError>(VmState::Exited(val))));
                        assert(self.frames().len() == 0);
                        assert(self.frames() =~= Seq::<FrameView>::empty());
                        assert(exits_with(tr.last(), val));
                    }
                    return Ok(val);
                },
                Err(e) => {
                    return Err(e);
                },
            }
            budget = budget - 1;
        }
        assert(tr.len() == u64::MAX + 1);
        Err(OpError::StepLimit)
    }
}

/// A run followed by one more move is a run.
pub proof fn lemma_run_extend(tr: Seq<Seq<FrameView>>, s1: Seq<FrameView>)
    requires
        is_run(tr),
        moves(tr.last(), s1),
    ensures
        is_run(tr.push(s1)),
        tr.push(s1)[0] == tr[0],
        tr.push(s1).last() == s1,
{
    let t = tr.push(s1);
    assert forall|i: int| 0 <= i < t.len() - 1 implies moves(#[trigger] t[i], t[i + 1]) by {
        if i < tr.len() - 1 {
            assert(t[i] == tr[i] && t[i + 1] == tr[i + 1]);
        }
    }
}

/// A call chain holds at least its own frame.
pub proof fn lemma_chain_nonempty(f: CallFrame)
    ensures
        chain(f).len() >= 1,
        chain(f).last() == f.view(),
{
}

} // verus!
