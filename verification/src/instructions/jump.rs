//! Jumps.
use vstd::prelude::*;
use vstd::string::*;
use crate::instructions::err::{InstructionErr, RuntimeFault};
use crate::instructions::instructions::{carried_out, failed, fault, ForceJump, Jump, Outcome};
use crate::vm::state::{State, StateView};

verus! {

impl Jump {
    /// The state stays as it is. The machine goes on to the following
    /// instruction where the truth value of the top of the stack is
    /// `continue_condition`, and to `to` where it is not.
    pub open spec fn effect(to: usize, continue_condition: bool, state: StateView) -> Outcome {
        if state.stack.len() == 0 {
            failed(
                state,
                RuntimeFault::Corrupt,
                "No condition on the stack".spec_bytes(),
                "OP_JUMP".spec_bytes(),
            )
        } else {
            match state.stack.last().truth() {
                Some(truth) => Outcome {
                    state,
                    result: Ok(
                        if truth == continue_condition {
                            0
                        } else {
                            to
                        },
                    ),
                },
                None => failed(
                    state,
                    RuntimeFault::NotBoolean,
                    "The condition can't be coerced into a boolean value".spec_bytes(),
                    "OP_JUMP".spec_bytes(),
                ),
            }
        }
    }

    /// Runs the instruction on `state`, as `effect` describes.
    pub fn eval(&self, state: &mut State) -> (r: Result<usize, InstructionErr>)
        requires
            old(state).wf(),
        ensures
            final(state).wf(),
            carried_out(
                Self::effect(self.to, self.continue_condition, old(state)@),
                final(state)@,
                r,
            ),
    {
        let depth = state.depth();
        if depth == 0 {
            return Err(fault(RuntimeFault::Corrupt, "No condition on the stack", "OP_JUMP"));
        }
        match state.stack[depth - 1].is_truthy() {
            Some(truth) => {
                if truth == self.continue_condition {
                    Ok(0)
                } else {
                    Ok(self.to)
                }
            },
            None => Err(
                fault(
                    RuntimeFault::NotBoolean,
                    "The condition can't be coerced into a boolean value",
                    "OP_JUMP",
                ),
            ),
        }
    }
}

impl ForceJump {
    /// The state stays as it is, and the machine goes to `to`.
    pub open spec fn effect(to: usize, state: StateView) -> Outcome {
        Outcome { state, result: Ok(to) }
    }

    /// Runs the instruction on `state`, as `effect` describes.
    pub fn eval(&self, state: &mut State) -> (r: Result<usize, InstructionErr>)
        ensures
            final(state).wf() == old(state).wf(),
            carried_out(Self::effect(self.to, old(state)@), final(state)@, r),
    {
        Ok(self.to)
    }
}

} // verus!
