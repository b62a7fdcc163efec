//! Returning from a function.
use vstd::prelude::*;
use vstd::string::*;
use crate::instructions::err::{InstructionErr, RuntimeFault};
use crate::instructions::instructions::{carried_out, failed, fault, proceed, Outcome, Return};
use crate::values::func::{Func, FuncView};
use crate::vm::state::{State, StateView};

verus! {

impl Return {
    /// The function of the newest frame leaves, returning.
    pub open spec fn effect(functions: Seq<FuncView>, state: StateView) -> Outcome {
        if state.frames.len() == 0 {
            failed(
                state,
                RuntimeFault::Corrupt,
                "No call in progress".spec_bytes(),
                "OP_RETURN".spec_bytes(),
            )
        } else if state.frames.last().func >= functions.len() {
            failed(
                state,
                RuntimeFault::Corrupt,
                "No such function".spec_bytes(),
                "OP_RETURN".spec_bytes(),
            )
        } else {
            proceed(
                functions[state.frames.last().func as int].left(state.frames.last(), state, true),
            )
        }
    }

    /// A return instruction.
    pub fn _new() -> (r: Self) {
        Return {  }
    }

    /// Runs the instruction on `state`, as `effect` describes.
    pub fn eval(&self, functions: &Vec<Func>, state: &mut State) -> (r: Result<
        usize,
        InstructionErr,
    >)
        requires
            old(state).wf(),
        ensures
            final(state).wf(),
            carried_out(Self::effect(functions.deep_view(), old(state)@), final(state)@, r),
    {
        if state.frames.len() == 0 {
            return Err(fault(RuntimeFault::Corrupt, "No call in progress", "OP_RETURN"));
        }
        let frame = state.frames[state.frames.len() - 1];
        if frame.func >= functions.len() {
            return Err(fault(RuntimeFault::Corrupt, "No such function", "OP_RETURN"));
        }
        let func = &functions[frame.func];
        assert(functions.deep_view()[frame.func as int] == func@);
        func.leave(frame, state, true);
        Ok(0)
    }
}

} // verus!
