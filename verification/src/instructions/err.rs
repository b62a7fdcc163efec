//! Errors of running an instruction and of patching a chunk.
use vstd::prelude::*;
use vstd::string::*;
use crate::errors::err::{ErrTrait, ErrTraitBase};
use crate::text::decimal;
use crate::values::values::{Message, PieceView};

verus! {

/// What went wrong while the machine ran.
#[derive(Copy, Clone, Debug, PartialEq, Eq, Structural)]
pub enum RuntimeFault {
    /// A call with a number of arguments other than the callee's arity.
    ArityMismatch,
    /// A call of a value that is no function, host function, class or method.
    NotCallable,
    /// A property read on a value that is neither an instance nor a class,
    /// or a property write on a value that is no instance.
    NotAnObject,
    /// A read of a field or method that the instance or class does not have.
    UnknownProperty,
    /// Inheriting from a value that is no class.
    ParentNotClass,
    /// Inheriting into a value that is no class.
    ChildNotClass,
    /// A read or write of a global that the table does not hold.
    UndefinedVariable,
    /// A condition or `!` on a value that has no truth value.
    NotBoolean,
    /// An operand of the wrong type for a unary or binary operator.
    TypeMismatch,
    /// More than 255 calls in progress.
    CallStackExceeded,
    /// `this` where no method runs.
    NoReceiver,
    /// The machine's own state is not what a compiled program leaves: an
    /// empty stack where an operand is due, or an index with no object.
    Corrupt,
}

/// An error raised by an instruction.
#[derive(Debug)]
pub struct InstructionErr {
    pub fault: RuntimeFault,
    pub message: Message,
    pub instruction_str: Message,
}

impl InstructionErr {
    /// A new `InstructionErr`.
    pub fn new(fault: RuntimeFault, message: Message, instruction_str: Message) -> (r: Self)
        ensures
            r.fault == fault,
            r.message == message,
            r.instruction_str == instruction_str,
    {
        InstructionErr { fault, message, instruction_str }
    }

    /// The error in one line: the instruction, then the message.
    pub open spec fn described(&self) -> Seq<PieceView> {
        seq![PieceView::Text("Instruction Err::: ".spec_bytes())] + self.instruction_str@
            + seq![PieceView::Text(": ".spec_bytes())] + self.message@ + seq![
            PieceView::Text(" ".spec_bytes()),
        ]
    }

    /// Renders `described`.
    pub fn describe(&self) -> (r: Message)
        ensures
            r@ == self.described(),
    {
        let mut out = Message::new();
        out.text("Instruction Err::: ");
        out.append(&self.instruction_str);
        out.text(": ");
        out.append(&self.message);
        out.text(" ");
        assert(out@ =~= self.described());
        out
    }
}

impl ErrTraitBase for InstructionErr {
    open spec fn raised(&self) -> Seq<PieceView> {
        self.message@.push(PieceView::Text("\n".spec_bytes()))
    }

    fn raise(&self) -> (r: Message) {
        let mut out = self.message.copy();
        out.text("\n");
        out
    }
}

impl ErrTrait for InstructionErr {

}

/// An error of patching a chunk.
#[derive(Debug)]
pub struct ChunkErr {
    pub line: usize,
    pub message: Vec<u8>,
}

impl ChunkErr {
    /// A new `ChunkErr`.
    pub fn new(message: Vec<u8>, line: usize) -> (r: Self)
        ensures
            r.line == line,
            r.message == message,
    {
        ChunkErr { line, message }
    }
}

impl ErrTraitBase for ChunkErr {
    open spec fn raised(&self) -> Seq<PieceView> {
        seq![
            PieceView::Text("Chunk processing err @ Line ".spec_bytes()),
            PieceView::Text(decimal(self.line as nat)),
            PieceView::Text(":: ".spec_bytes()),
            PieceView::Text(self.message@),
            PieceView::Text("\n".spec_bytes()),
        ]
    }

    fn raise(&self) -> (r: Message) {
        let mut out = Message::new();
        out.text("Chunk processing err @ Line ");
        out.decimal(self.line);
        out.text(":: ");
        out.bytes(self.message.as_slice());
        out.text("\n");
        assert(out@ =~= self.raised());
        out
    }
}

impl ErrTrait for ChunkErr {

}

} // verus!
