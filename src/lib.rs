use vstd::prelude::*;

pub mod bytecode;
pub mod datamodel;
mod frame;
mod laws;
mod stack;
mod vm;

pub use frame::{chain, exec_post, is_fresh_frame, jump_target, CallFrame, FrameView};
pub use laws::{
    lemma_call_then_return, lemma_implicit_return, lemma_jump_lands, lemma_lifo, lemma_push_each,
    lemma_store_then_load, pop_each, push_each,
};
pub use stack::{grown, stored, CallStack};
pub use vm::{
    exits_with, fails_with, is_run, lemma_chain_nonempty, lemma_run_extend, moves, process_post,
    step_post, with_pushed, VirtualMachine, VmState,
};

verus! {

} // verus!
