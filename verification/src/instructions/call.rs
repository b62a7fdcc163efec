//! Calls.
use vstd::prelude::*;
use vstd::string::*;
use crate::instructions::err::{InstructionErr, RuntimeFault};
use crate::instructions::instructions::{
    carried_out,
    complained,
    failed,
    fault,
    proceed,
    raised,
    said,
    Call,
    Complaint,
    Outcome,
};
use crate::text::{decimal, push_bytes, push_decimal, push_text};
use crate::values::func::{Func, FuncView};
use crate::values::obj::{HeapView, Instance, InstanceView};
use crate::values::values::{func_arity, Message, PieceView, Value, ValueView};
use crate::vm::state::{Frame, MAX_FRAMES, Request, RequestView, State, StateView};

verus! {

/// The words between the number of arguments that a callee takes and the
/// callee, in the message of a call with the wrong number of arguments.
pub open spec fn arity_words(callee: ValueView) -> Seq<u8> {
    match callee {
        ValueView::Native(_) => " argument for ".spec_bytes(),
        _ => " argument(s) for ".spec_bytes(),
    }
}

/// The message of a call with the wrong number of arguments: the place of
/// the call, the number of arguments that the callee takes, the callee, and
/// the number of arguments that the call gave.
pub open spec fn arity_message(
    line: usize,
    line_contents: Seq<u8>,
    expected: usize,
    words: Seq<u8>,
    callee: PieceView,
    found: usize,
) -> Seq<PieceView> {
    seq![
        PieceView::Text(
            "\nLine ".spec_bytes() + decimal(line as nat) + ": ".spec_bytes() + line_contents
                + "\n         ^\n         -------- Expected ".spec_bytes() + decimal(
                expected as nat,
            ) + words,
        ),
        callee,
        PieceView::Text(" found ".spec_bytes() + decimal(found as nat) + "\n".spec_bytes()),
    ]
}

/// The message of a call of a value that cannot be called: the place of
/// the call, and the value.
pub open spec fn callee_message(line: usize, line_contents: Seq<u8>, callee: PieceView) -> Seq<
    PieceView,
> {
    seq![
        PieceView::Text(
            "\nLine ".spec_bytes() + decimal(line as nat) + ": ".spec_bytes() + line_contents
                + "\n        ^\n        -------- Call pattern `identifier(...)` only allowed for functions/class initializations/methods, not ".spec_bytes(),
        ),
        callee,
        PieceView::Text("\n".spec_bytes()),
    ]
}

/// A call as it is named in an error: the callee and `(...)`.
pub open spec fn call_shown(callee: PieceView) -> Seq<PieceView> {
    seq![callee, PieceView::Text("(...)".spec_bytes())]
}

/// The state after entering the function at `f` with `argc` arguments on
/// top of `state`'s stack: a new frame whose window starts at the first
/// argument, for a call on the instance `receiver` where there is one.
/// The faults: no such function, a number of arguments other than
/// the function's arity, and 255 calls in progress already.
pub open spec fn entered(
    f: usize,
    argc: usize,
    functions: Seq<FuncView>,
    state: StateView,
    receiver: Option<usize>,
) -> Result<StateView, RuntimeFault> {
    if f >= functions.len() || state.stack.len() < argc {
        Err(RuntimeFault::Corrupt)
    } else if functions[f as int].arity != argc {
        Err(RuntimeFault::ArityMismatch)
    } else if state.frames.len() >= MAX_FRAMES {
        Err(RuntimeFault::CallStackExceeded)
    } else {
        Ok(
            StateView {
                frames: state.frames.push(
                    Frame {
                        func: f,
                        ip: 0,
                        stack_offset: (state.stack.len() - argc) as usize,
                        receiver,
                    },
                ),
                ..state
            },
        )
    }
}

/// The number of arguments that `callee` takes, where it is a function, a
/// method or a host function.
pub open spec fn callee_arity(callee: ValueView, functions: Seq<FuncView>, heap: HeapView) -> usize {
    match callee {
        ValueView::Func(f) | ValueView::ClassMethod(f) | ValueView::Method(f, _) => func_arity(
            functions,
            f,
        ),
        ValueView::Native(m) => heap.native_arity(m),
        _ => 0,
    }
}

impl ValueView {
    /// The instance that a call of this value is a call on: the instance
    /// of a bound method, and none for any other value.
    pub open spec fn receiver(self) -> Option<usize> {
        match self {
            ValueView::Method(_, instance) => Some(instance),
            _ => None,
        }
    }
}

impl FuncView {
    /// The complaint about a call when 255 calls are in progress.
    pub open spec fn overflowed(self) -> Complaint {
        Complaint {
            fault: RuntimeFault::CallStackExceeded,
            message: said("Call stack exceeded".spec_bytes()),
            what: said(self.name + "(..)".spec_bytes()),
        }
    }
}

impl Call {
    /// The complaint about a call that raised `fault`.
    pub open spec fn complaint(
        fault: RuntimeFault,
        args_len: usize,
        line: usize,
        line_contents: Seq<u8>,
        callee: ValueView,
        functions: Seq<FuncView>,
        heap: HeapView,
    ) -> Complaint {
        match fault {
            RuntimeFault::ArityMismatch => Complaint {
                fault,
                message: arity_message(
                    line,
                    line_contents,
                    callee_arity(callee, functions, heap),
                    arity_words(callee),
                    callee.shown(functions, heap),
                    args_len,
                ),
                what: call_shown(callee.shown(functions, heap)),
            },
            RuntimeFault::CallStackExceeded => match callee {
                ValueView::Func(f) | ValueView::ClassMethod(f) | ValueView::Method(f, _) => if f
                    < functions.len() {
                    functions[f as int].overflowed()
                } else {
                    Complaint { fault, message: Seq::empty(), what: Seq::empty() }
                },
                _ => Complaint { fault, message: Seq::empty(), what: Seq::empty() },
            },
            RuntimeFault::NotCallable => Complaint {
                fault,
                message: callee_message(line, line_contents, callee.shown(functions, heap)),
                what: call_shown(callee.shown(functions, heap)),
            },
            _ => Complaint {
                fault,
                message: said(
                    match callee {
                        ValueView::Native(_) => "No such host function".spec_bytes(),
                        _ => "No such function".spec_bytes(),
                    },
                ),
                what: said("OP_CALL".spec_bytes()),
            },
        }
    }

    /// The callee lies under the arguments and leaves the stack. A function
    /// or method is entered, a method with its instance as the receiver; a
    /// host function is asked of the driver; a class gives a new instance,
    /// which is pushed on top of the arguments. On a fault the state stays
    /// as it was.
    pub open spec fn effect(
        args_len: usize,
        line: usize,
        line_contents: Seq<u8>,
        functions: Seq<FuncView>,
        state: StateView,
    ) -> Outcome {
        let n = state.stack.len();
        if n < args_len + 1 {
            failed(
                state,
                RuntimeFault::Corrupt,
                "No callee on the stack".spec_bytes(),
                "OP_CALL".spec_bytes(),
            )
        } else {
            let callee = state.stack[n - args_len - 1];
            let without = StateView { stack: state.stack.remove(n - args_len - 1), ..state };
            match callee {
                ValueView::Func(f) | ValueView::ClassMethod(f) | ValueView::Method(f, _) => {
                    match entered(f, args_len, functions, without, callee.receiver()) {
                        Ok(after) => proceed(after),
                        Err(fault) => complained(
                            state,
                            Self::complaint(
                                fault,
                                args_len,
                                line,
                                line_contents,
                                callee,
                                functions,
                                state.heap,
                            ),
                        ),
                    }
                },
                ValueView::Native(m) => {
                    if m >= state.heap.natives.len() {
                        complained(
                            state,
                            Self::complaint(
                                RuntimeFault::Corrupt,
                                args_len,
                                line,
                                line_contents,
                                callee,
                                functions,
                                state.heap,
                            ),
                        )
                    } else if state.heap.natives[m as int].arity != args_len {
                        complained(
                            state,
                            Self::complaint(
                                RuntimeFault::ArityMismatch,
                                args_len,
                                line,
                                line_contents,
                                callee,
                                functions,
                                state.heap,
                            ),
                        )
                    } else {
                        proceed(StateView { request: RequestView::Native(m), ..without })
                    }
                },
                ValueView::Class(c) => {
                    proceed(
                        StateView {
                            stack: without.stack.push(
                                ValueView::Instance(state.heap.instances.len() as usize),
                            ),
                            heap: HeapView {
                                instances: state.heap.instances.push(
                                    InstanceView { class: c, fields: Map::empty() },
                                ),
                                ..state.heap
                            },
                            ..without
                        },
                    )
                },
                _ => complained(
                    state,
                    Self::complaint(
                        RuntimeFault::NotCallable,
                        args_len,
                        line,
                        line_contents,
                        callee,
                        functions,
                        state.heap,
                    ),
                ),
            }
        }
    }

    /// The place of the call: the line, and a caret.
    fn place(&self, caret: &str) -> (r: Vec<u8>)
        ensures
            r@ == "\nLine ".spec_bytes() + decimal(self.line as nat) + ": ".spec_bytes()
                + self.line_contents@ + caret.spec_bytes(),
    {
        let mut head: Vec<u8> = Vec::new();
        push_text(&mut head, "\nLine ");
        push_decimal(&mut head, self.line);
        push_text(&mut head, ": ");
        push_bytes(&mut head, self.line_contents.as_slice());
        push_text(&mut head, caret);
        head
    }

    /// The call as it is named in an error.
    fn named(callee: &Value, functions: &Vec<Func>, state: &State) -> (r: Message)
        ensures
            r@ == call_shown(callee@.shown(functions.deep_view(), state.heap@)),
    {
        let mut what = Message::new();
        what.push(callee.display(functions, &state.heap));
        what.text("(...)");
        assert(what@ =~= call_shown(callee@.shown(functions.deep_view(), state.heap@)));
        what
    }

    /// The error for a call with the wrong number of arguments.
    fn arity_error(&self, expected: usize, callee: &Value, functions: &Vec<Func>, state: &State) -> (r:
        InstructionErr)
        ensures
            r.fault == RuntimeFault::ArityMismatch,
            r.message@ == arity_message(
                self.line,
                self.line_contents@,
                expected,
                arity_words(callee@),
                callee@.shown(functions.deep_view(), state.heap@),
                self.args_len,
            ),
            r.instruction_str@ == call_shown(callee@.shown(functions.deep_view(), state.heap@)),
    {
        let mut head = self.place("\n         ^\n         -------- Expected ");
        push_decimal(&mut head, expected);
        match callee {
            Value::Native(_) => {
                push_text(&mut head, " argument for ");
            },
            _ => {
                push_text(&mut head, " argument(s) for ");
            },
        }
        let mut tail: Vec<u8> = Vec::new();
        push_text(&mut tail, " found ");
        push_decimal(&mut tail, self.args_len);
        push_text(&mut tail, "\n");
        let mut message = Message::new();
        message.bytes(head.as_slice());
        message.push(callee.display(functions, &state.heap));
        message.bytes(tail.as_slice());
        assert(message@ =~= arity_message(
            self.line,
            self.line_contents@,
            expected,
            arity_words(callee@),
            callee@.shown(functions.deep_view(), state.heap@),
            self.args_len,
        ));
        InstructionErr::new(
            RuntimeFault::ArityMismatch,
            message,
            Self::named(callee, functions, state),
        )
    }

    /// The error for a call of a value that cannot be called.
    fn callee_error(&self, callee: &Value, functions: &Vec<Func>, state: &State) -> (r:
        InstructionErr)
        ensures
            r.fault == RuntimeFault::NotCallable,
            r.message@ == callee_message(
                self.line,
                self.line_contents@,
                callee@.shown(functions.deep_view(), state.heap@),
            ),
            r.instruction_str@ == call_shown(callee@.shown(functions.deep_view(), state.heap@)),
    {
        let head = self.place(
            "\n        ^\n        -------- Call pattern `identifier(...)` only allowed for functions/class initializations/methods, not ",
        );
        let mut message = Message::new();
        message.bytes(head.as_slice());
        message.push(callee.display(functions, &state.heap));
        message.text("\n");
        assert(message@ =~= callee_message(
            self.line,
            self.line_contents@,
            callee@.shown(functions.deep_view(), state.heap@),
        ));
        InstructionErr::new(
            RuntimeFault::NotCallable,
            message,
            Self::named(callee, functions, state),
        )
    }

    /// Runs the instruction on `state`, as `effect` describes.
    pub fn eval(&self, functions: &Vec<Func>, state: &mut State) -> (r: Result<
        usize,
        InstructionErr,
    >)
        requires
            old(state).wf(),
        ensures
            final(state).wf(),
            carried_out(
                Self::effect(
                    self.args_len,
                    self.line,
                    self.line_contents@,
                    functions.deep_view(),
                    old(state)@,
                ),
                final(state)@,
                r,
            ),
    {
        let depth = state.depth();
        if depth == 0 || self.args_len > depth - 1 {
            return Err(fault(RuntimeFault::Corrupt, "No callee on the stack", "OP_CALL"));
        }
        let position = depth - self.args_len - 1;
        let callee = state.at(position);
        let ghost without = StateView {
            stack: old(state)@.stack.remove(position as int),
            ..old(state)@
        };
        match callee {
            Value::Func(f) | Value::ClassMethod(f) | Value::Method(f, _) => {
                if f >= functions.len() {
                    return Err(fault(RuntimeFault::Corrupt, "No such function", "OP_CALL"));
                }
                let func = &functions[f];
                assert(functions.deep_view()[f as int] == func@);
                if func.arity != self.args_len {
                    return Err(self.arity_error(func.arity, &callee, functions, state));
                }
                if state.frames.len() >= MAX_FRAMES {
                    return Err(func.overflow());
                }
                let receiver = match callee {
                    Value::Method(_, instance) => Some(instance),
                    _ => None,
                };
                state.stack.remove(position);
                assert(state@.stack =~= without.stack);
                state.frames.push(
                    Frame { func: f, ip: 0, stack_offset: depth - 1 - self.args_len, receiver },
                );
                Ok(0)
            },
            Value::Native(m) => {
                if m >= state.heap.natives.len() {
                    return Err(fault(RuntimeFault::Corrupt, "No such host function", "OP_CALL"));
                }
                let arity = state.heap.natives[m].arity;
                assert(state.heap@.natives[m as int] == state.heap.natives[m as int]@);
                if arity != self.args_len {
                    return Err(self.arity_error(arity, &callee, functions, state));
                }
                state.stack.remove(position);
                assert(state@.stack =~= without.stack);
                state.ask(Request::Native(m));
                Ok(0)
            },
            Value::Class(c) => {
                state.stack.remove(position);
                assert(state@.stack =~= without.stack);
                let instance = state.heap.add_instance(Instance::new(c));
                state.push(Value::Instance(instance));
                Ok(0)
            },
            _ => Err(self.callee_error(&callee, functions, state)),
        }
    }
}

} // verus!
