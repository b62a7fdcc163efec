//! Compiled functions and host functions.
use vstd::prelude::*;
use vstd::string::*;
use crate::compiler::compiler::{UpValue, UpValueView};
use crate::instructions::chunk::{Chunk, ChunkView};
use crate::instructions::err::{InstructionErr, RuntimeFault};
use crate::text::{copy_bytes, push_text};
use crate::values::values::{Message, Value, ValueView};
use crate::vm::state::{Frame, MAX_FRAMES, State, StateView};

verus! {

/// A compiled function as contracts see it.
pub struct FuncView {
    pub name: Seq<u8>,
    pub arity: usize,
    pub chunk: ChunkView,
    pub upvalue_offset: usize,
    pub upvalue_count: usize,
}

/// A compiled function: its name, the number of its parameters, its
/// instructions, and the range of slots of the captured variables that were
/// added while it was compiled.
#[derive(Debug)]
pub struct Func {
    pub arity: usize,
    pub chunk: Chunk,
    pub name: Vec<u8>,
    pub upvalue_offset: usize,
    pub upvalue_count: usize,
}

impl View for Func {
    type V = FuncView;

    open spec fn view(&self) -> FuncView {
        FuncView {
            name: self.name@,
            arity: self.arity,
            chunk: self.chunk@,
            upvalue_offset: self.upvalue_offset,
            upvalue_count: self.upvalue_count,
        }
    }
}

impl DeepView for Func {
    type V = FuncView;

    open spec fn deep_view(&self) -> FuncView {
        self@
    }
}

impl Func {
    /// A function of no parameters.
    pub fn new(name: Vec<u8>, chunk: Chunk, upvalue_offset: usize, upvalue_count: usize) -> (r:
        Self)
        ensures
            r.name == name,
            r.chunk == chunk,
            r.arity == 0,
            r.upvalue_offset == upvalue_offset,
            r.upvalue_count == upvalue_count,
    {
        Func { arity: 0, chunk, name, upvalue_offset, upvalue_count }
    }

    /// The name.
    pub fn name(&self) -> (r: Vec<u8>)
        ensures
            r@ == self@.name,
    {
        copy_bytes(self.name.as_slice())
    }

    /// The number of parameters.
    pub fn arity(&self) -> (r: usize)
        ensures
            r == self@.arity,
    {
        self.arity
    }

    /// Sets the number of parameters.
    pub fn set_arity(&mut self, arity: usize)
        ensures
            *final(self) == (Func { arity, ..*old(self) }),
    {
        self.arity = arity
    }
}

/// The captured variables after those from `from` up to `to` have been
/// given the value of their local: the stack's value at the variable's slot
/// in the window that starts at `stack_offset`. A variable whose slot is
/// not on the stack keeps its value.
pub open spec fn synced(
    upvalues: Seq<UpValueView>,
    stack: Seq<ValueView>,
    stack_offset: usize,
    from: int,
    to: int,
) -> Seq<UpValueView> {
    Seq::new(
        upvalues.len(),
        |i: int|
            if from <= i < to && upvalues[i].index + stack_offset < stack.len() {
                UpValueView {
                    index: upvalues[i].index,
                    value: stack[upvalues[i].index + stack_offset],
                }
            } else {
                upvalues[i]
            },
    )
}

impl FuncView {
    /// The captured variables after the function has left: each of the
    /// function's range is given the value that the stack holds at the
    /// variable's slot, counted from the start of the function's window.
    /// One whose slot is not on the stack keeps its value, and so do those
    /// outside the range. The range holds every captured variable that
    /// was made while the function was compiled: those that capture its
    /// locals, and those that the function and the functions inside it
    /// capture from further out, whose slots are counted from this
    /// function's window all the same.
    pub open spec fn captured(
        self,
        upvalues: Seq<UpValueView>,
        stack: Seq<ValueView>,
        stack_offset: usize,
    ) -> Seq<UpValueView> {
        synced(
            upvalues,
            stack,
            stack_offset,
            self.upvalue_offset as int,
            self.upvalue_offset + self.upvalue_count,
        )
    }

    /// The state after the function has left the frame `frame`. The
    /// captured variables are brought up to date and the frame is gone. A
    /// function that returns hands back the top of its window, or `nil`
    /// where the window is empty: the window leaves the stack and the value
    /// is pushed. A function that runs off its end hands back `nil`, which
    /// is pushed.
    pub open spec fn left(self, frame: Frame, state: StateView, returning: bool) -> StateView {
        let upvalues = self.captured(state.upvalues, state.stack, frame.stack_offset);
        let frames = state.frames.drop_last();
        if returning {
            let value = if state.stack.len() > frame.stack_offset {
                state.stack.last()
            } else {
                ValueView::Nil
            };
            let kept = if state.stack.len() > frame.stack_offset {
                frame.stack_offset as int
            } else {
                state.stack.len() as int
            };
            StateView { stack: state.stack.subrange(0, kept).push(value), upvalues, frames, ..state }
        } else {
            StateView { stack: state.stack.push(ValueView::Nil), upvalues, frames, ..state }
        }
    }
}

impl Func {
    /// The error of a call when 255 calls are in progress.
    pub fn overflow(&self) -> (r: InstructionErr)
        ensures
            crate::instructions::instructions::raised(self@.overflowed(), r),
    {
        let mut what = copy_bytes(self.name.as_slice());
        push_text(&mut what, "(..)");
        InstructionErr::new(
            RuntimeFault::CallStackExceeded,
            Message::from_text("Call stack exceeded"),
            Message::from_bytes(what.as_slice()),
        )
    }

    /// Starts a call of this function, which is the function at `id`: a
    /// new frame whose window starts at `stack_offset`, for a call on the
    /// instance `receiver` where there is one. Fails, and changes
    /// nothing, when 255 calls are in progress.
    pub fn call(
        &self,
        id: usize,
        state: &mut State,
        stack_offset: usize,
        receiver: Option<usize>,
    ) -> (r: Result<(), InstructionErr>)
        requires
            old(state).wf(),
        ensures
            final(state).wf(),
            r is Ok <==> old(state)@.frames.len() < MAX_FRAMES,
            r is Ok ==> final(state)@ == (StateView {
                frames: old(state)@.frames.push(Frame { func: id, ip: 0, stack_offset, receiver }),
                ..old(state)@
            }),
            r is Err ==> final(state)@ == old(state)@
                && crate::instructions::instructions::raised(self@.overflowed(), r->Err_0),
    {
        if state.frames.len() >= MAX_FRAMES {
            return Err(self.overflow());
        }
        state.frames.push(Frame { func: id, ip: 0, stack_offset, receiver });
        Ok(())
    }

    /// Brings the captured variables of this function's range up to date
    /// with the locals in the window that starts at `stack_offset`.
    pub fn sync_upvalues(&self, state: &mut State, stack_offset: usize)
        requires
            old(state).wf(),
        ensures
            final(state).wf(),
            final(state)@ == (StateView {
                upvalues: self@.captured(old(state)@.upvalues, old(state)@.stack, stack_offset),
                ..old(state)@
            }),
    {
        let ghost before = state@.upvalues;
        let ghost stack = state@.stack;
        let mut idx = self.upvalue_offset;
        assert(state@.upvalues =~= synced(before, stack, stack_offset, idx as int, idx as int));
        while idx < state.upvalues.len() && idx - self.upvalue_offset < self.upvalue_count
            invariant
                state.wf(),
                self.upvalue_offset <= idx,
                idx - self.upvalue_offset <= self.upvalue_count,
                before == old(state)@.upvalues,
                stack == old(state)@.stack,
                state.upvalues.len() == before.len(),
                state@ == (StateView {
                    upvalues: synced(
                        before,
                        stack,
                        stack_offset,
                        self.upvalue_offset as int,
                        idx as int,
                    ),
                    ..old(state)@
                }),
            decreases state.upvalues.len() - idx,
        {
            let ghost current = state@.upvalues;
            assert(current[idx as int] == before[idx as int]);
            assert(state@.stack == stack);
            let index = state.upvalues[idx].index;
            assert(index == before[idx as int].index);
            if index < state.stack.len() && stack_offset < state.stack.len() - index {
                let value = state.stack[index + stack_offset].copy();
                assert(value@ == stack[index + stack_offset]);
                state.upvalues[idx] = UpValue { index, value };
                assert(state@.upvalues =~= current.update(
                    idx as int,
                    UpValueView { index, value: value@ },
                ));
            }
            idx += 1;
            assert(state@.upvalues =~= synced(
                before,
                stack,
                stack_offset,
                self.upvalue_offset as int,
                idx as int,
            ));
        }
        assert(state@.upvalues =~= synced(
            before,
            stack,
            stack_offset,
            self.upvalue_offset as int,
            self.upvalue_offset + self.upvalue_count,
        ));
    }

    /// Ends the call of this function in the newest frame, which is `frame`.
    pub fn leave(&self, frame: Frame, state: &mut State, returning: bool)
        requires
            old(state).wf(),
            old(state)@.frames.len() > 0,
            old(state)@.frames.last() == frame,
        ensures
            final(state).wf(),
            final(state)@ == self@.left(frame, old(state)@, returning),
    {
        self.sync_upvalues(state, frame.stack_offset);
        state.frames.pop();
        assert(state@.frames =~= old(state)@.frames.drop_last());
        if returning {
            let depth = state.depth();
            if depth > frame.stack_offset {
                let value = state.at(depth - 1);
                state.drop(depth - frame.stack_offset);
                state.push(value);
            } else {
                assert(state@.stack.subrange(0, depth as int) =~= state@.stack);
                state.push(Value::Nil);
            }
        } else {
            state.push(Value::Nil);
        }
    }
}

/// A host function as contracts see it.
pub struct NativeView {
    pub name: Seq<u8>,
    pub arity: usize,
}

/// A function that the host implements. The machine knows its name and the
/// number of its arguments; the driver runs it when the machine asks.
#[derive(Debug)]
pub struct Native {
    pub name: Vec<u8>,
    pub arity: usize,
}

impl View for Native {
    type V = NativeView;

    open spec fn view(&self) -> NativeView {
        NativeView { name: self.name@, arity: self.arity }
    }
}

impl DeepView for Native {
    type V = NativeView;

    open spec fn deep_view(&self) -> NativeView {
        self@
    }
}

impl Native {
    /// A new `Native`.
    pub fn new(name: Vec<u8>, arity: usize) -> (r: Self)
        ensures
            r.name == name,
            r.arity == arity,
    {
        Native { name, arity }
    }

    /// The name.
    pub fn name(&self) -> (r: Vec<u8>)
        ensures
            r@ == self@.name,
    {
        copy_bytes(self.name.as_slice())
    }

    /// The number of parameters.
    pub fn arity(&self) -> (r: usize)
        ensures
            r == self@.arity,
    {
        self.arity
    }
}

} // verus!
