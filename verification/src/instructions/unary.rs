//! The unary operators.
use vstd::prelude::*;
use vstd::string::*;
use crate::instructions::err::{InstructionErr, RuntimeFault};
use crate::instructions::instructions::{
    carried_out,
    complained,
    failed,
    fault,
    proceed,
    said,
    Complaint,
    Outcome,
    Unary,
    UnaryOp,
};
use crate::values::number::SIGN_BIT;
use crate::values::values::{Value, ValueView};
use crate::vm::state::{State, StateView};

verus! {

impl UnaryOp {
    /// The operator as it is written: `-` or `!`.
    pub open spec fn symbol_text(self) -> Seq<char> {
        match self {
            UnaryOp::Negate => "-"@,
            UnaryOp::Bang => "!"@,
        }
    }

    /// The operator as it is written.
    pub fn to_string(&self) -> (r: String)
        ensures
            r@ == self.symbol_text(),
    {
        match self {
            UnaryOp::Negate => String::from_str("-"),
            UnaryOp::Bang => String::from_str("!"),
        }
    }
}

impl Unary {
    /// The result of `op` on `operand`: the negated number, or the opposite
    /// of the truth value; or the fault where the operand has the wrong type.
    pub open spec fn applied(op: UnaryOp, operand: ValueView) -> Result<ValueView, Complaint> {
        match op {
            UnaryOp::Negate => match operand {
                ValueView::Number(bits) => Ok(ValueView::Number(bits ^ SIGN_BIT)),
                _ => Err(
                    Complaint {
                        fault: RuntimeFault::TypeMismatch,
                        message: said("Invalid operand for [-]".spec_bytes()),
                        what: said("OP_UNARY".spec_bytes()),
                    },
                ),
            },
            UnaryOp::Bang => match operand.truth() {
                Some(b) => Ok(ValueView::Bool(!b)),
                None => Err(
                    Complaint {
                        fault: RuntimeFault::NotBoolean,
                        message: said(
                            "The operand of [!] can't be coerced into a boolean value".spec_bytes(),
                        ),
                        what: said("OP_UNARY".spec_bytes()),
                    },
                ),
            },
        }
    }

    /// The top of the stack is replaced by the result of the operator. On a
    /// fault the state stays as it was.
    pub open spec fn effect(op: UnaryOp, state: StateView) -> Outcome {
        if state.stack.len() == 0 {
            failed(
                state,
                RuntimeFault::Corrupt,
                "No operand on the stack".spec_bytes(),
                "OP_UNARY".spec_bytes(),
            )
        } else {
            match Self::applied(op, state.stack.last()) {
                Ok(value) => proceed(
                    StateView { stack: state.stack.drop_last().push(value), ..state },
                ),
                Err(complaint) => complained(state, complaint),
            }
        }
    }

    /// Runs the instruction on `state`, as `effect` describes.
    pub fn eval(&self, state: &mut State) -> (r: Result<usize, InstructionErr>)
        requires
            old(state).wf(),
        ensures
            final(state).wf(),
            carried_out(Self::effect(self.op, old(state)@), final(state)@, r),
    {
        let depth = state.depth();
        if depth == 0 {
            return Err(fault(RuntimeFault::Corrupt, "No operand on the stack", "OP_UNARY"));
        }
        let result = match self.op {
            UnaryOp::Negate => match &state.stack[depth - 1] {
                Value::Number(number) => Value::Number(number.negate()),
                _ => {
                    return Err(
                        fault(RuntimeFault::TypeMismatch, "Invalid operand for [-]", "OP_UNARY"),
                    );
                },
            },
            UnaryOp::Bang => match state.stack[depth - 1].is_truthy() {
                Some(b) => Value::Bool(!b),
                None => {
                    return Err(
                        fault(
                            RuntimeFault::NotBoolean,
                            "The operand of [!] can't be coerced into a boolean value",
                            "OP_UNARY",
                        ),
                    );
                },
            },
        };
        state.put(depth - 1, result);
        assert(final(state)@.stack =~= old(state)@.stack.drop_last().push(result@));
        Ok(0)
    }
}

} // verus!
