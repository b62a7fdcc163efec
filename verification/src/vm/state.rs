//! The state that instructions work on.
use vstd::prelude::*;
use crate::compiler::compiler::{UpValue, UpValueView};
use crate::instructions::instructions::BinaryOp;
use crate::text::copy_bytes;
use crate::values::number::Number;
use crate::values::obj::{Heap, HeapView};
use crate::values::values::{Message, PieceView, Value, ValueView};
use crate::vm::table::Table;

verus! {

/// The most calls that may be in progress at once.
pub const MAX_FRAMES: usize = 255;

/// A call in progress: the function, the instruction to run next, where
/// the function's window of the operand stack begins, and the instance
/// that a method was called on.
#[derive(Debug, Clone, Copy)]
pub struct Frame {
    pub func: usize,
    pub ip: usize,
    pub stack_offset: usize,
    pub receiver: Option<usize>,
}

/// What the machine waits for, as contracts see it.
pub enum RequestView {
    Idle,
    Arithmetic(BinaryOp, u64, u64),
    Format { number: u64, text: Seq<u8>, number_first: bool },
    Native(usize),
}

/// What the machine has asked of its driver and not yet been given.
#[derive(Debug)]
pub enum Request {
    /// Nothing.
    Idle,
    /// The sum, difference, product or quotient of two numbers. The answer
    /// is pushed.
    Arithmetic(BinaryOp, Number, Number),
    /// The numeral of `number`. The answer is joined with `text`, the
    /// numeral first where `number_first` holds, and the string is pushed.
    Format { number: Number, text: Vec<u8>, number_first: bool },
    /// The result of the host function at this index of the heap. The
    /// function's arguments are the top values of the stack; the answer
    /// takes their place.
    Native(usize),
}

impl View for Request {
    type V = RequestView;

    open spec fn view(&self) -> RequestView {
        match *self {
            Request::Idle => RequestView::Idle,
            Request::Arithmetic(op, l, r) => RequestView::Arithmetic(op, l.bits, r.bits),
            Request::Format { number, text, number_first } => RequestView::Format {
                number: number.bits,
                text: text@,
                number_first,
            },
            Request::Native(n) => RequestView::Native(n),
        }
    }
}

impl Request {
    /// A copy.
    pub fn copy(&self) -> (r: Request)
        ensures
            r@ == self@,
    {
        match self {
            Request::Idle => Request::Idle,
            Request::Arithmetic(op, l, r) => Request::Arithmetic(*op, *l, *r),
            Request::Format { number, text, number_first } => Request::Format {
                number: *number,
                text: copy_bytes(text.as_slice()),
                number_first: *number_first,
            },
            Request::Native(n) => Request::Native(*n),
        }
    }

    /// Whether nothing is asked.
    pub fn is_idle(&self) -> (r: bool)
        ensures
            r == (self@ is Idle),
    {
        match self {
            Request::Idle => true,
            _ => false,
        }
    }
}

/// The state as contracts see it.
pub struct StateView {
    pub stack: Seq<ValueView>,
    pub globals: Map<Seq<u8>, ValueView>,
    pub frames: Seq<Frame>,
    pub upvalues: Seq<UpValueView>,
    pub heap: HeapView,
    pub request: RequestView,
    pub output: Seq<Seq<PieceView>>,
}

/// Everything that changes while a program runs: the operand stack, the
/// globals, the calls in progress, the captured variables, the heap, the
/// request that the driver has not answered yet, and the lines written and
/// not yet taken by the driver.
#[derive(Debug)]
pub struct State {
    pub stack: Vec<Value>,
    pub globals: Table,
    pub frames: Vec<Frame>,
    pub upvalues: Vec<UpValue>,
    pub heap: Heap,
    pub request: Request,
    pub output: Vec<Message>,
}

impl View for State {
    type V = StateView;

    open spec fn view(&self) -> StateView {
        StateView {
            stack: self.stack.deep_view(),
            globals: self.globals@,
            frames: self.frames@,
            upvalues: self.upvalues.deep_view(),
            heap: self.heap@,
            request: self.request@,
            output: Seq::new(self.output@.len(), |i: int| self.output@[i]@),
        }
    }
}

impl State {
    /// The tables of the state are well formed.
    pub open spec fn wf(&self) -> bool {
        &&& self.globals.wf()
        &&& self.heap.wf()
    }

    /// A state with nothing on the stack and no call in progress.
    pub fn new(globals: Table, heap: Heap, upvalues: Vec<UpValue>) -> (r: Self)
        requires
            globals.wf(),
            heap.wf(),
        ensures
            r.wf(),
            r@ == (StateView {
                stack: Seq::empty(),
                globals: globals@,
                frames: Seq::empty(),
                upvalues: upvalues.deep_view(),
                heap: heap@,
                request: RequestView::Idle,
                output: Seq::empty(),
            }),
    {
        let r = State {
            stack: Vec::new(),
            globals,
            frames: Vec::new(),
            upvalues,
            heap,
            request: Request::Idle,
            output: Vec::new(),
        };
        assert(r@.stack =~= Seq::<ValueView>::empty());
        assert(r@.output =~= Seq::<Seq<PieceView>>::empty());
        r
    }

    /// Pushes `value`.
    pub fn push(&mut self, value: Value)
        requires
            old(self).wf(),
        ensures
            final(self).wf(),
            final(self)@ == (StateView { stack: old(self)@.stack.push(value@), ..old(self)@ }),
    {
        self.stack.push(value);
        assert(self@.stack =~= old(self)@.stack.push(value@));
    }

    /// Drops the top `n` values, or all of them where there are fewer.
    pub fn drop(&mut self, n: usize)
        requires
            old(self).wf(),
        ensures
            final(self).wf(),
            final(self)@ == (StateView {
                stack: old(self)@.stack.subrange(
                    0,
                    if n <= old(self)@.stack.len() {
                        old(self)@.stack.len() - n
                    } else {
                        0
                    },
                ),
                ..old(self)@
            }),
    {
        let keep = if n <= self.stack.len() {
            self.stack.len() - n
        } else {
            0
        };
        self.stack.truncate(keep);
        assert(self@.stack =~= old(self)@.stack.subrange(0, keep as int));
    }

    /// A copy of the value at `i`.
    pub fn at(&self, i: usize) -> (r: Value)
        requires
            i < self@.stack.len(),
        ensures
            r@ == self@.stack[i as int],
    {
        self.stack[i].copy()
    }

    /// Puts `value` at `i`.
    pub fn put(&mut self, i: usize, value: Value)
        requires
            old(self).wf(),
            i < old(self)@.stack.len(),
        ensures
            final(self).wf(),
            final(self)@ == (StateView {
                stack: old(self)@.stack.update(i as int, value@),
                ..old(self)@
            }),
    {
        self.stack[i] = value;
        assert(self@.stack =~= old(self)@.stack.update(i as int, value@));
    }

    /// The number of values on the stack.
    pub fn depth(&self) -> (r: usize)
        ensures
            r == self@.stack.len(),
    {
        self.stack.len()
    }

    /// Appends a line to the output.
    pub fn write(&mut self, line: Message)
        requires
            old(self).wf(),
        ensures
            final(self).wf(),
            final(self)@ == (StateView { output: old(self)@.output.push(line@), ..old(self)@ }),
    {
        self.output.push(line);
        assert(self@.output =~= old(self)@.output.push(line@));
    }

    /// Records a request to the driver.
    pub fn ask(&mut self, request: Request)
        requires
            old(self).wf(),
        ensures
            final(self).wf(),
            final(self)@ == (StateView { request: request@, ..old(self)@ }),
    {
        self.request = request;
    }
}

} // verus!
