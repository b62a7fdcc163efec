//! Writing a value.
use vstd::prelude::*;
use vstd::string::*;
use crate::instructions::err::{InstructionErr, RuntimeFault};
use crate::instructions::instructions::{carried_out, failed, fault, proceed, Outcome, Print};
use crate::values::func::{Func, FuncView};
use crate::values::values::Message;
use crate::vm::state::{State, StateView};

verus! {

impl Print {
    /// The top of the stack leaves it and is written as a line of output.
    pub open spec fn effect(functions: Seq<FuncView>, state: StateView) -> Outcome {
        if state.stack.len() == 0 {
            failed(
                state,
                RuntimeFault::Corrupt,
                "No value on the stack".spec_bytes(),
                "OP_PRINT".spec_bytes(),
            )
        } else {
            proceed(
                StateView {
                    stack: state.stack.drop_last(),
                    output: state.output.push(
                        seq![state.stack.last().shown(functions, state.heap)],
                    ),
                    ..state
                },
            )
        }
    }

    /// Runs the instruction on `state`, as `effect` describes.
    pub fn eval(&self, functions: &Vec<Func>, state: &mut State) -> (r: Result<
        usize,
        InstructionErr,
    >)
        requires
            old(state).wf(),
        ensures
            final(state).wf(),
            carried_out(Self::effect(functions.deep_view(), old(state)@), final(state)@, r),
    {
        let depth = state.depth();
        if depth == 0 {
            return Err(fault(RuntimeFault::Corrupt, "No value on the stack", "OP_PRINT"));
        }
        let mut line = Message::new();
        line.push(state.stack[depth - 1].display(functions, &state.heap));
        assert(line@ =~= seq![old(state)@.stack.last().shown(functions.deep_view(), state.heap@)]);
        state.drop(1);
        state.write(line);
        assert(state@.stack =~= old(state)@.stack.drop_last());
        Ok(0)
    }
}

} // verus!
