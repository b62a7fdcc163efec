//! Variables: where a name lives, and the instructions that define, read
//! and write it.
use vstd::prelude::*;
use vstd::string::*;
use crate::compiler::compiler::{UpValue, UpValueView};
use crate::instructions::err::{InstructionErr, RuntimeFault};
use crate::instructions::instructions::{
    carried_out,
    complained,
    failed,
    fault,
    proceed,
    raised,
    said,
    Complaint,
    Define,
    Outcome,
    Override,
    Resolve,
};
use crate::text::{copy_bytes, push_bytes, push_text};
use crate::values::values::{Message, PieceView, Value, ValueView};
use crate::vm::state::{State, StateView};

verus! {

/// Where a variable lives: in the globals table, in a slot of the current
/// function's window of the operand stack, or in a slot of the captured
/// variables.
#[derive(Debug, Clone, Copy, PartialEq, Eq, Structural)]
pub enum DefinitionScope {
    Global,
    Local(usize),
    UpValue(usize),
}

/// The message of the error for a global that the table does not hold.
pub open spec fn undefined_message(name: Seq<u8>) -> Seq<PieceView> {
    seq![
        PieceView::Text(
            "undefined variable:: ".spec_bytes() + name + " not found".spec_bytes(),
        ),
    ]
}

/// The complaint about a variable at `scope` that does not exist: a global
/// that the table does not hold, a slot that is not on the stack, or a
/// captured variable that was never made.
pub open spec fn variable_complaint(scope: DefinitionScope, name: Seq<u8>, what: Seq<u8>) -> Complaint {
    match scope {
        DefinitionScope::Global => Complaint {
            fault: RuntimeFault::UndefinedVariable,
            message: undefined_message(name),
            what: said(what),
        },
        DefinitionScope::Local(_) => Complaint {
            fault: RuntimeFault::Corrupt,
            message: said("No such slot on the stack".spec_bytes()),
            what: said(what),
        },
        DefinitionScope::UpValue(_) => Complaint {
            fault: RuntimeFault::Corrupt,
            message: said("No such captured variable".spec_bytes()),
            what: said(what),
        },
    }
}

/// The error for a global that the table does not hold.
pub fn undefined(name: &[u8], what: &str) -> (r: InstructionErr)
    ensures
        raised(variable_complaint(DefinitionScope::Global, name@, what.spec_bytes()), r),
{
    let mut text: Vec<u8> = Vec::new();
    push_text(&mut text, "undefined variable:: ");
    push_bytes(&mut text, name);
    push_text(&mut text, " not found");
    assert(text@ =~= "undefined variable:: ".spec_bytes() + name@ + " not found".spec_bytes());
    InstructionErr::new(
        RuntimeFault::UndefinedVariable,
        Message::from_bytes(text.as_slice()),
        Message::from_text(what),
    )
}

/// The value of the variable at `scope`, for a function whose window
/// starts at `offset`; or the fault where the variable does not exist.
pub open spec fn variable(
    scope: DefinitionScope,
    name: Seq<u8>,
    state: StateView,
    offset: usize,
) -> Result<ValueView, RuntimeFault> {
    match scope {
        DefinitionScope::Global => if state.globals.contains_key(name) {
            Ok(state.globals[name])
        } else {
            Err(RuntimeFault::UndefinedVariable)
        },
        DefinitionScope::Local(i) => if i + offset < state.stack.len() {
            Ok(state.stack[i + offset])
        } else {
            Err(RuntimeFault::Corrupt)
        },
        DefinitionScope::UpValue(i) => if i < state.upvalues.len() {
            Ok(state.upvalues[i as int].value)
        } else {
            Err(RuntimeFault::Corrupt)
        },
    }
}

/// The state after `value` is stored in the variable at `scope`; or the
/// fault where the variable does not exist.
pub open spec fn stored(
    scope: DefinitionScope,
    name: Seq<u8>,
    value: ValueView,
    state: StateView,
    offset: usize,
) -> Result<StateView, RuntimeFault> {
    match scope {
        DefinitionScope::Global => if state.globals.contains_key(name) {
            Ok(StateView { globals: state.globals.insert(name, value), ..state })
        } else {
            Err(RuntimeFault::UndefinedVariable)
        },
        DefinitionScope::Local(i) => if i + offset < state.stack.len() {
            Ok(StateView { stack: state.stack.update(i + offset, value), ..state })
        } else {
            Err(RuntimeFault::Corrupt)
        },
        DefinitionScope::UpValue(i) => if i < state.upvalues.len() {
            Ok(
                StateView {
                    upvalues: state.upvalues.update(
                        i as int,
                        UpValueView { index: state.upvalues[i as int].index, value },
                    ),
                    ..state
                },
            )
        } else {
            Err(RuntimeFault::Corrupt)
        },
    }
}

impl State {
    /// A copy of the value of the variable at `scope`.
    pub fn read(&self, scope: DefinitionScope, name: &[u8], offset: usize, what: &str) -> (r:
        Result<Value, InstructionErr>)
        requires
            self.wf(),
        ensures
            match variable(scope, name@, self@, offset) {
                Ok(v) => r is Ok && r->Ok_0@ == v,
                Err(_) => r is Err && raised(
                    variable_complaint(scope, name@, what.spec_bytes()),
                    r->Err_0,
                ),
            },
    {
        match scope {
            DefinitionScope::Global => match self.globals.resolve(name) {
                Some(value) => Ok(value),
                None => Err(undefined(name, what)),
            },
            DefinitionScope::Local(i) => {
                if i < self.stack.len() && offset < self.stack.len() - i {
                    Ok(self.at(i + offset))
                } else {
                    Err(fault(RuntimeFault::Corrupt, "No such slot on the stack", what))
                }
            },
            DefinitionScope::UpValue(i) => {
                if i < self.upvalues.len() {
                    Ok(self.upvalues[i].value.copy())
                } else {
                    Err(fault(RuntimeFault::Corrupt, "No such captured variable", what))
                }
            },
        }
    }

    /// Stores `value` in the variable at `scope`. On a fault the state
    /// stays as it was.
    pub fn store(
        &mut self,
        scope: DefinitionScope,
        name: &[u8],
        value: Value,
        offset: usize,
        what: &str,
    ) -> (r: Result<(), InstructionErr>)
        requires
            old(self).wf(),
        ensures
            final(self).wf(),
            match stored(scope, name@, value@, old(self)@, offset) {
                Ok(s) => r is Ok && final(self)@ == s,
                Err(_) => r is Err && final(self)@ == old(self)@ && raised(
                    variable_complaint(scope, name@, what.spec_bytes()),
                    r->Err_0,
                ),
            },
    {
        match scope {
            DefinitionScope::Global => match self.globals.override_(name, value) {
                Some(_) => Ok(()),
                None => Err(undefined(name, what)),
            },
            DefinitionScope::Local(i) => {
                if i < self.stack.len() && offset < self.stack.len() - i {
                    self.put(i + offset, value);
                    Ok(())
                } else {
                    Err(fault(RuntimeFault::Corrupt, "No such slot on the stack", what))
                }
            },
            DefinitionScope::UpValue(i) => {
                if i < self.upvalues.len() {
                    let index = self.upvalues[i].index;
                    self.upvalues[i] = UpValue { index, value };
                    assert(self@.upvalues =~= old(self)@.upvalues.update(
                        i as int,
                        UpValueView { index: old(self)@.upvalues[i as int].index, value: value@ },
                    ));
                    Ok(())
                } else {
                    Err(fault(RuntimeFault::Corrupt, "No such captured variable", what))
                }
            },
        }
    }
}

impl Define {
    /// A global gets the value on top of the stack; the value stays there.
    /// A local needs nothing: the value on the stack is the variable.
    pub open spec fn effect(scope: DefinitionScope, name: Seq<u8>, state: StateView) -> Outcome {
        match scope {
            DefinitionScope::Global => if state.stack.len() == 0 {
                failed(
                    state,
                    RuntimeFault::Corrupt,
                    "No value on the stack".spec_bytes(),
                    "OP_DEFINE".spec_bytes(),
                )
            } else {
                proceed(
                    StateView { globals: state.globals.insert(name, state.stack.last()), ..state },
                )
            },
            _ => proceed(state),
        }
    }

    /// Runs the instruction on `state`, as `effect` describes.
    pub fn eval(&self, state: &mut State) -> (r: Result<usize, InstructionErr>)
        requires
            old(state).wf(),
        ensures
            final(state).wf(),
            carried_out(Self::effect(self.scope, self.operand@, old(state)@), final(state)@, r),
    {
        match self.scope {
            DefinitionScope::Global => {
                let depth = state.depth();
                if depth == 0 {
                    return Err(fault(RuntimeFault::Corrupt, "No value on the stack", "OP_DEFINE"));
                }
                let value = state.at(depth - 1);
                state.globals.add(copy_bytes(self.operand.as_slice()), value);
                Ok(0)
            },
            _ => Ok(0),
        }
    }
}

impl Resolve {
    /// The value of the variable is pushed. On a fault the state stays as
    /// it was.
    pub open spec fn effect(
        name: Seq<u8>,
        scope: DefinitionScope,
        state: StateView,
        offset: usize,
    ) -> Outcome {
        match variable(scope, name, state, offset) {
            Ok(value) => proceed(StateView { stack: state.stack.push(value), ..state }),
            Err(_) => complained(
                state,
                variable_complaint(scope, name, "OP_RESOLVE".spec_bytes()),
            ),
        }
    }

    /// Runs the instruction on `state`, as `effect` describes.
    pub fn eval(&self, state: &mut State, offset: usize) -> (r: Result<usize, InstructionErr>)
        requires
            old(state).wf(),
        ensures
            final(state).wf(),
            carried_out(
                Self::effect(self.identifier@, self.scope, old(state)@, offset),
                final(state)@,
                r,
            ),
    {
        let value = state.read(self.scope, self.identifier.as_slice(), offset, "OP_RESOLVE")?;
        state.push(value);
        Ok(0)
    }
}

impl Override {
    /// The variable gets the value on top of the stack; the value stays
    /// there. On a fault the state stays as it was.
    pub open spec fn effect(
        name: Seq<u8>,
        scope: DefinitionScope,
        state: StateView,
        offset: usize,
    ) -> Outcome {
        if state.stack.len() == 0 {
            failed(
                state,
                RuntimeFault::Corrupt,
                "No value on the stack".spec_bytes(),
                "OP_OVERRIDE".spec_bytes(),
            )
        } else {
            match stored(scope, name, state.stack.last(), state, offset) {
                Ok(after) => proceed(after),
                Err(_) => complained(
                    state,
                    variable_complaint(scope, name, "OP_OVERRIDE".spec_bytes()),
                ),
            }
        }
    }

    /// Runs the instruction on `state`, as `effect` describes.
    pub fn eval(&self, state: &mut State, offset: usize) -> (r: Result<usize, InstructionErr>)
        requires
            old(state).wf(),
        ensures
            final(state).wf(),
            carried_out(
                Self::effect(self.identifier@, self.scope, old(state)@, offset),
                final(state)@,
                r,
            ),
    {
        let depth = state.depth();
        if depth == 0 {
            return Err(fault(RuntimeFault::Corrupt, "No value on the stack", "OP_OVERRIDE"));
        }
        let value = state.at(depth - 1);
        state.store(self.scope, self.identifier.as_slice(), value, offset, "OP_OVERRIDE")?;
        Ok(0)
    }
}

} // verus!
