//! The machine that runs compiled functions.
use vstd::prelude::*;
use vstd::string::*;
use crate::compiler::compiler::{compiled, Compiler, Program, ProgramView};
use crate::compiler::err::{InterpreterErr, ParserErr};
use crate::compiler::grammar::Failure;
use crate::compiler::parser::reported;
use crate::instructions::err::{InstructionErr, RuntimeFault};
use crate::instructions::instructions::{fault, raised, said, BinaryOp, Complaint};
use crate::text::{copy_bytes, push_bytes, text_bytes};
use crate::values::func::{Func, FuncView, NativeView};
use crate::values::number::Number;
use crate::values::obj::{Heap, HeapView};
use crate::values::values::{func_name, name_of_func, Message, PieceView, Value, ValueView};
use crate::vm::natives::{clock_name, load_natives};
use crate::vm::state::{Frame, Request, RequestView, State, StateView};
use crate::vm::table::Table;

verus! {

/// What the driver does between two steps of the machine.
#[derive(Debug, Clone, Copy, PartialEq, Eq, Structural)]
pub enum Action {
    /// Nothing: the machine can take its next step.
    Continue,
    /// Compute `left op right`, where `op` is `+`, `-`, `*` or `/`, and
    /// give the machine the number.
    Arithmetic(BinaryOp, Number, Number),
    /// Write the number as a double is written, and give the machine the text.
    Format(Number),
    /// Run the host function at this index of the heap, and give the
    /// machine its result.
    Native(usize),
    /// Nothing more: no call is in progress.
    Finished,
}

/// The action that answers `request`.
pub open spec fn asked(request: RequestView) -> Action {
    match request {
        RequestView::Idle => Action::Continue,
        RequestView::Arithmetic(op, l, r) => Action::Arithmetic(
            op,
            Number { bits: l },
            Number { bits: r },
        ),
        RequestView::Format { number, text, number_first } => Action::Format(Number { bits: number }),
        RequestView::Native(m) => Action::Native(m),
    }
}

/// The state after the frame at `depth - 1`, which ran an instruction at
/// `frame.ip`, has been told where to go on: to `next`, or to the
/// following instruction where `next` is 0. A frame that is gone is not
/// told.
pub open spec fn moved(state: StateView, depth: int, frame: Frame, next: usize) -> StateView {
    if state.frames.len() >= depth && depth >= 1 {
        StateView {
            frames: state.frames.update(
                depth - 1,
                Frame {
                    ip: if next > 0 {
                        next
                    } else {
                        (frame.ip + 1) as usize
                    },
                    ..frame
                },
            ),
            ..state
        }
    } else {
        state
    }
}

/// The result of a step: the state after it, and what the driver is to do
/// or the fault that stopped the machine.
pub struct Stepped {
    pub state: StateView,
    pub result: Result<Action, Complaint>,
}

/// One step of the machine. While a request waits for its answer the
/// machine repeats the request. With no call in progress it has finished.
/// Else the newest frame runs its next instruction, or leaves its function
/// where the instructions have run out.
pub open spec fn step_spec(functions: Seq<FuncView>, state: StateView) -> Stepped {
    if !(state.request is Idle) {
        Stepped { state, result: Ok(asked(state.request)) }
    } else if state.frames.len() == 0 {
        Stepped { state, result: Ok(Action::Finished) }
    } else {
        let frame = state.frames.last();
        if frame.func >= functions.len() {
            Stepped {
                state,
                result: Err(
                    Complaint {
                        fault: RuntimeFault::Corrupt,
                        message: said("No such function".spec_bytes()),
                        what: said("step".spec_bytes()),
                    },
                ),
            }
        } else {
            let func = functions[frame.func as int];
            if frame.ip >= func.chunk.code.len() {
                Stepped { state: func.left(frame, state, false), result: Ok(Action::Continue) }
            } else {
                let outcome = func.chunk.code[frame.ip as int].effect(
                    functions,
                    state,
                    frame.stack_offset,
                );
                match outcome.result {
                    Err(fault) => Stepped { state: outcome.state, result: Err(fault) },
                    Ok(next) => {
                        let after = moved(outcome.state, state.frames.len() as int, frame, next);
                        Stepped { state: after, result: Ok(asked(after.request)) }
                    },
                }
            }
        }
    }
}

/// Up to `fuel` steps of the machine, stopping at the first that asks
/// something of the driver, finishes or fails.
pub open spec fn run_spec(functions: Seq<FuncView>, state: StateView, fuel: nat) -> Stepped
    decreases fuel,
{
    if fuel == 0 {
        Stepped { state, result: Ok(Action::Continue) }
    } else {
        let stepped = step_spec(functions, state);
        if stepped.result == Ok::<Action, Complaint>(Action::Continue) {
            run_spec(functions, stepped.state, (fuel - 1) as nat)
        } else {
            stepped
        }
    }
}

/// Whether a call that left the state `after` and returned `r` did what `stepped` says.
pub open spec fn taken(stepped: Stepped, after: StateView, r: Result<Action, InstructionErr>) -> bool {
    &&& after == stepped.state
    &&& match stepped.result {
        Ok(action) => r == Ok::<Action, InstructionErr>(action),
        Err(complaint) => r is Err && raised(complaint, r->Err_0),
    }
}

/// The state after a number has answered a request for arithmetic.
pub open spec fn with_number(state: StateView, bits: u64) -> StateView {
    StateView {
        stack: state.stack.push(ValueView::Number(bits)),
        request: RequestView::Idle,
        ..state
    }
}

/// The state after the numeral `numeral` has answered a request to write a
/// number: the string made of the numeral and the request's text is pushed.
pub open spec fn with_text(state: StateView, numeral: Seq<u8>) -> StateView {
    StateView {
        stack: state.stack.push(
            ValueView::String(
                if state.request->number_first {
                    numeral + state.request->text
                } else {
                    state.request->text + numeral
                },
            ),
        ),
        request: RequestView::Idle,
        ..state
    }
}

/// The state after `value` has answered the call of the host function at
/// `native`: the function's arguments leave the stack and the value is pushed.
pub open spec fn with_result(state: StateView, native: usize, value: ValueView) -> StateView {
    let arity = state.heap.native_arity(native);
    StateView {
        stack: state.stack.subrange(
            0,
            if state.stack.len() >= arity {
                state.stack.len() - arity
            } else {
                0
            },
        ).push(value),
        request: RequestView::Idle,
        ..state
    }
}

/// The names of the functions of `frames`, the newest first.
pub open spec fn trace_of(functions: Seq<FuncView>, frames: Seq<Frame>) -> Seq<Seq<u8>> {
    Seq::new(frames.len(), |i: int| func_name(functions, frames[frames.len() - 1 - i].func))
}

/// The state of a machine that is about to run the script of `program`:
/// one frame, for the script, and an empty stack.
pub open spec fn started(program: ProgramView) -> StateView {
    StateView {
        stack: Seq::empty(),
        globals: program.globals,
        frames: seq![Frame { func: program.main, ip: 0, stack_offset: 0, receiver: None }],
        upvalues: program.upvalues,
        heap: program.heap,
        request: RequestView::Idle,
        output: Seq::empty(),
    }
}

/// What compiling `src` for a new machine gives: the host functions are
/// the only globals.
pub open spec fn interpreted(src: Seq<u8>, numbers: Seq<u64>) -> Result<ProgramView, Failure> {
    compiled(
        src,
        numbers,
        Map::<Seq<u8>, ValueView>::empty().insert(clock_name(), ValueView::Native(0)),
        HeapView {
            natives: seq![NativeView { name: clock_name(), arity: 0 }],
            classes: Seq::empty(),
            instances: Seq::empty(),
        },
    )
}

/// The machine: the compiled functions and the state they work on.
#[derive(Debug)]
pub struct VM {
    pub functions: Vec<Func>,
    pub state: State,
}

impl VM {
    /// Whether the value is well formed.
    pub open spec fn wf(&self) -> bool {
        self.state.wf()
    }

    /// A machine about to run the script of `program`, with an empty stack.
    pub fn new(program: Program) -> (r: Self)
        requires
            program.wf(),
        ensures
            r.wf(),
            r.functions == program.functions,
            r.state@ == started(program@),
    {
        let mut state = State::new(program.globals, program.heap, program.upvalues);
        state.frames.push(Frame { func: program.main, ip: 0, stack_offset: 0, receiver: None });
        assert(state@.frames =~= seq![
            Frame { func: program.main, ip: 0, stack_offset: 0, receiver: None },
        ]);
        VM { functions: program.functions, state }
    }

    /// Compiles the script `src`, whose number literals have the values
    /// `numbers` in their order.
    pub fn compile(src: &[u8], numbers: &[u64], globals: Table, heap: Heap) -> (r: Result<
        Program,
        ParserErr,
    >)
        requires
            src@.len() < usize::MAX,
            globals.wf(),
            heap.wf(),
        ensures
            match compiled(src@, numbers@, globals@, heap@) {
                Ok(program) => r is Ok && r->Ok_0@ == program && r->Ok_0.wf(),
                Err(f) => r is Err && reported(src@, f, r->Err_0),
            },
    {
        Compiler::compile(src, numbers, globals, heap)
    }

    /// Compiles the script `src` with the host functions as its only
    /// globals, and gives the machine that is about to run it.
    pub fn interprate(src: &[u8], numbers: &[u64]) -> (r: Result<VM, ParserErr>)
        requires
            src@.len() < usize::MAX,
        ensures
            match interpreted(src@, numbers@) {
                Ok(program) => r is Ok && r->Ok_0.wf() && r->Ok_0.functions.deep_view()
                    == program.functions && r->Ok_0.state@ == started(program),
                Err(f) => r is Err && reported(src@, f, r->Err_0),
            },
    {
        let mut globals = Table::new();
        let mut heap = Heap::new();
        load_natives(&mut globals, &mut heap);
        assert(heap@.natives =~= seq![NativeView { name: clock_name(), arity: 0 }]);
        match VM::compile(src, numbers, globals, heap) {
            Err(e) => Err(e),
            Ok(program) => Ok(VM::new(program)),
        }
    }

    /// The action that answers the request that waits.
    fn pending(&self) -> (r: Action)
        ensures
            r == asked(self.state@.request),
    {
        match &self.state.request {
            Request::Idle => Action::Continue,
            Request::Arithmetic(op, l, r) => Action::Arithmetic(*op, *l, *r),
            Request::Format { number, text, number_first } => Action::Format(*number),
            Request::Native(m) => Action::Native(*m),
        }
    }

    /// Takes one step.
    pub fn step(&mut self) -> (r: Result<Action, InstructionErr>)
        requires
            old(self).wf(),
        ensures
            final(self).wf(),
            final(self).functions == old(self).functions,
            taken(step_spec(old(self).functions.deep_view(), old(self).state@), final(self).state@, r),
    {
        if !self.state.request.is_idle() {
            return Ok(self.pending());
        }
        let depth = self.state.frames.len();
        if depth == 0 {
            return Ok(Action::Finished);
        }
        let frame = self.state.frames[depth - 1];
        if frame.func >= self.functions.len() {
            return Err(fault(RuntimeFault::Corrupt, "No such function", "step"));
        }
        let func = &self.functions[frame.func];
        assert(self.functions.deep_view()[frame.func as int] == func@);
        if frame.ip >= func.chunk.code.len() {
            func.leave(frame, &mut self.state, false);
            return Ok(Action::Continue);
        }
        let instruction = &func.chunk.code[frame.ip];
        assert(func@.chunk.code[frame.ip as int] == instruction@);
        let next = instruction.eval(&self.functions, &mut self.state, frame.stack_offset)?;
        if self.state.frames.len() >= depth {
            let ip = if next > 0 {
                next
            } else {
                frame.ip + 1
            };
            self.state.frames[depth - 1] = Frame {
                func: frame.func,
                ip,
                stack_offset: frame.stack_offset,
                receiver: frame.receiver,
            };
        }
        Ok(self.pending())
    }

    /// Takes steps until one asks something of the driver, finishes or
    /// fails, but no more than `fuel` steps. `Continue` comes back where
    /// the fuel ran out first.
    pub fn run(&mut self, fuel: usize) -> (r: Result<Action, InstructionErr>)
        requires
            old(self).wf(),
        ensures
            final(self).wf(),
            final(self).functions == old(self).functions,
            taken(
                run_spec(old(self).functions.deep_view(), old(self).state@, fuel as nat),
                final(self).state@,
                r,
            ),
    {
        let ghost functions = self.functions.deep_view();
        let ghost start = self.state@;
        let mut left = fuel;
        while left > 0
            invariant
                self.wf(),
                self.functions == old(self).functions,
                functions == self.functions.deep_view(),
                start == old(self).state@,
                run_spec(functions, start, fuel as nat) == run_spec(
                    functions,
                    self.state@,
                    left as nat,
                ),
            decreases left,
        {
            let ghost before = self.state@;
            match self.step() {
                Ok(Action::Continue) => {
                    left -= 1;
                },
                other => {
                    proof {
                        let stepped = step_spec(functions, before);
                        assert(stepped.result != Ok::<Action, Complaint>(Action::Continue));
                        assert(run_spec(functions, before, left as nat) == stepped);
                    }
                    return other;
                },
            }
        }
        Ok(Action::Continue)
    }

    /// Answers a request for arithmetic: the number is pushed. Fails, and
    /// changes nothing, where no such request waits.
    pub fn answer_number(&mut self, number: Number) -> (r: Result<(), InterpreterErr>)
        requires
            old(self).wf(),
        ensures
            final(self).wf(),
            final(self).functions == old(self).functions,
            r is Ok <==> old(self).state@.request is Arithmetic,
            r is Ok ==> final(self).state@ == with_number(old(self).state@, number.bits),
            r is Err ==> final(self).state@ == old(self).state@ && r->Err_0.message@
                == "No sum, product or quotient was asked for".spec_bytes(),
    {
        match &self.state.request {
            Request::Arithmetic(_, _, _) => {
                self.state.ask(Request::Idle);
                self.state.push(Value::Number(number));
                Ok(())
            },
            _ => Err(InterpreterErr::new(text_bytes("No sum, product or quotient was asked for"))),
        }
    }

    /// Answers a request to write a number: the string made of the numeral
    /// and the request's text is pushed. Fails, and changes nothing, where
    /// no such request waits.
    pub fn answer_text(&mut self, numeral: Vec<u8>) -> (r: Result<(), InterpreterErr>)
        requires
            old(self).wf(),
        ensures
            final(self).wf(),
            final(self).functions == old(self).functions,
            r is Ok <==> old(self).state@.request is Format,
            r is Ok ==> final(self).state@ == with_text(old(self).state@, numeral@),
            r is Err ==> final(self).state@ == old(self).state@ && r->Err_0.message@
                == "No numeral was asked for".spec_bytes(),
    {
        let joined = match &self.state.request {
            Request::Format { number, text, number_first } => {
                if *number_first {
                    let mut joined = numeral;
                    push_bytes(&mut joined, text.as_slice());
                    joined
                } else {
                    let mut joined = copy_bytes(text.as_slice());
                    push_bytes(&mut joined, numeral.as_slice());
                    joined
                }
            },
            _ => {
                return Err(InterpreterErr::new(text_bytes("No numeral was asked for")));
            },
        };
        self.state.ask(Request::Idle);
        self.state.push(Value::String(joined));
        Ok(())
    }

    /// Answers the call of a host function: its arguments leave the stack
    /// and the value is pushed. Fails, and changes nothing, where no such
    /// call waits.
    pub fn answer_value(&mut self, value: Value) -> (r: Result<(), InterpreterErr>)
        requires
            old(self).wf(),
        ensures
            final(self).wf(),
            final(self).functions == old(self).functions,
            r is Ok <==> old(self).state@.request is Native,
            r is Ok ==> final(self).state@ == with_result(
                old(self).state@,
                old(self).state@.request->Native_0,
                value@,
            ),
            r is Err ==> final(self).state@ == old(self).state@ && r->Err_0.message@
                == "No host function was called".spec_bytes(),
    {
        let arity = match &self.state.request {
            Request::Native(m) => self.state.heap.arity_of_native(*m),
            _ => {
                return Err(InterpreterErr::new(text_bytes("No host function was called")));
            },
        };
        self.state.ask(Request::Idle);
        self.state.drop(arity);
        self.state.push(value);
        Ok(())
    }

    /// Hands over the lines written since the last call, oldest first.
    pub fn take_output(&mut self) -> (r: Vec<Message>)
        requires
            old(self).wf(),
        ensures
            final(self).wf(),
            final(self).functions == old(self).functions,
            Seq::new(r@.len(), |i: int| r@[i]@) == old(self).state@.output,
            final(self).state@ == (StateView { output: Seq::empty(), ..old(self).state@ }),
    {
        let mut lines: Vec<Message> = Vec::new();
        core::mem::swap(&mut lines, &mut self.state.output);
        assert(self.state@.output =~= Seq::<Seq<PieceView>>::empty());
        assert(Seq::new(lines@.len(), |i: int| lines@[i]@) =~= old(self).state@.output);
        lines
    }

    /// The names of the functions whose calls are in progress, the newest first.
    pub fn trace(&self) -> (r: Vec<Vec<u8>>)
        ensures
            Seq::new(r@.len(), |i: int| r@[i]@) == trace_of(
                self.functions.deep_view(),
                self.state@.frames,
            ),
    {
        let mut names: Vec<Vec<u8>> = Vec::new();
        let n = self.state.frames.len();
        let mut i: usize = 0;
        while i < n
            invariant
                i <= n,
                n == self.state.frames.len(),
                names.len() == i,
                forall|j: int|
                    0 <= j < i ==> names@[j]@ == func_name(
                        self.functions.deep_view(),
                        self.state.frames@[n - 1 - j].func,
                    ),
            decreases n - i,
        {
            names.push(name_of_func(&self.functions, self.state.frames[n - 1 - i].func));
            i += 1;
        }
        assert(Seq::new(names@.len(), |i: int| names@[i]@) =~= trace_of(
            self.functions.deep_view(),
            self.state@.frames,
        ));
        names
    }
}

} // verus!
