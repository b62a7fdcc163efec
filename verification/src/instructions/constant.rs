//! Pushing a constant.
use vstd::prelude::*;
use crate::instructions::err::InstructionErr;
use crate::instructions::instructions::{carried_out, proceed, Constant, Outcome};
use crate::values::values::ValueView;
use crate::vm::state::{State, StateView};

verus! {

impl Constant {
    /// With the constant on top of the stack.
    pub open spec fn effect(operand: ValueView, state: StateView) -> Outcome {
        proceed(StateView { stack: state.stack.push(operand), ..state })
    }

    /// Runs the instruction on `state`, as `effect` describes.
    pub fn eval(&self, state: &mut State) -> (r: Result<usize, InstructionErr>)
        requires
            old(state).wf(),
        ensures
            final(state).wf(),
            carried_out(Self::effect(self.operand@, old(state)@), final(state)@, r),
    {
        state.push(self.operand.copy());
        Ok(0)
    }
}

} // verus!
