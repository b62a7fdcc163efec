//! The instructions.
use vstd::prelude::*;
use vstd::string::*;
use crate::instructions::define::DefinitionScope;
use crate::instructions::err::{InstructionErr, RuntimeFault};
use crate::text::copy_bytes;
use crate::values::func::{Func, FuncView};
use crate::values::values::{Message, PieceView, Value, ValueView};
use crate::vm::state::{State, StateView};

verus! {

/// The opcode of an instruction.
#[allow(non_camel_case_types)]
#[derive(Debug, PartialEq, Eq, Clone, Copy, Structural)]
pub enum InstructionType {
    OP_RETURN,
    OP_CONST,
    OP_UNARY,
    OP_BINARY,
    OP_PRINT,
    OP_POP,
    OP_POPN,
    OP_DEFINE,
    OP_RESOLVE,
    OP_OVERRIDE,
    OP_JUMP,
    OP_NONE,
    OP_CALL,
    OP_SET,
    OP_GET,
    OP_INHERIT,
    OP_THIS,
}

impl InstructionType {
    /// The opcode's name.
    pub open spec fn name_text(self) -> Seq<char> {
        match self {
            InstructionType::OP_RETURN => "OP_RETURN"@,
            InstructionType::OP_CONST => "OP_CONST"@,
            InstructionType::OP_UNARY => "OP_UNARY"@,
            InstructionType::OP_BINARY => "OP_BINARY"@,
            InstructionType::OP_PRINT => "OP_PRINT"@,
            InstructionType::OP_POP => "OP_POP"@,
            InstructionType::OP_POPN => "OP_POPN"@,
            InstructionType::OP_DEFINE => "OP_DEFINE"@,
            InstructionType::OP_RESOLVE => "OP_RESOLVE"@,
            InstructionType::OP_OVERRIDE => "OP_OVERRIDE"@,
            InstructionType::OP_JUMP => "OP_JUMP"@,
            InstructionType::OP_NONE => "OP_NONE"@,
            InstructionType::OP_CALL => "OP_CALL"@,
            InstructionType::OP_SET => "OP_SET"@,
            InstructionType::OP_GET => "OP_GET"@,
            InstructionType::OP_INHERIT => "OP_INHERIT"@,
            InstructionType::OP_THIS => "OP_THIS"@,
        }
    }

    /// The opcode's name.
    pub fn name(self) -> (r: &'static str)
        ensures
            r@ == self.name_text(),
    {
        match self {
            InstructionType::OP_RETURN => "OP_RETURN",
            InstructionType::OP_CONST => "OP_CONST",
            InstructionType::OP_UNARY => "OP_UNARY",
            InstructionType::OP_BINARY => "OP_BINARY",
            InstructionType::OP_PRINT => "OP_PRINT",
            InstructionType::OP_POP => "OP_POP",
            InstructionType::OP_POPN => "OP_POPN",
            InstructionType::OP_DEFINE => "OP_DEFINE",
            InstructionType::OP_RESOLVE => "OP_RESOLVE",
            InstructionType::OP_OVERRIDE => "OP_OVERRIDE",
            InstructionType::OP_JUMP => "OP_JUMP",
            InstructionType::OP_NONE => "OP_NONE",
            InstructionType::OP_CALL => "OP_CALL",
            InstructionType::OP_SET => "OP_SET",
            InstructionType::OP_GET => "OP_GET",
            InstructionType::OP_INHERIT => "OP_INHERIT",
            InstructionType::OP_THIS => "OP_THIS",
        }
    }
}

/// The unary operators.
#[derive(Debug, PartialEq, Eq, Clone, Copy, Structural)]
pub enum UnaryOp {
    Negate,
    Bang,
}

/// The binary operators.
#[allow(non_camel_case_types)]
#[derive(Debug, PartialEq, Eq, Clone, Copy, Structural)]
pub enum BinaryOp {
    ADD,
    SUBTRACT,
    MULTIPLY,
    DIVIDE,
    EQUAL,
    GREATER,
    LESS,
}

/// Drops the top of the stack.
#[derive(Debug)]
pub struct Pop {}

/// Drops the top `n` values of the stack.
#[derive(Debug)]
pub struct PopN {
    pub n: usize,
}

/// Does nothing: it holds the place of a jump that is patched in later.
#[derive(Debug)]
pub struct NoOp {}

/// Pushes a constant.
#[derive(Debug)]
pub struct Constant {
    pub operand: Value,
}

/// Applies a unary operator to the top of the stack.
#[derive(Debug)]
pub struct Unary {
    pub op: UnaryOp,
}

/// Applies a binary operator to the top two values of the stack.
#[derive(Debug)]
pub struct Binary {
    pub op: BinaryOp,
}

/// Writes the top of the stack as a line of output.
#[derive(Debug)]
pub struct Print {}

/// Commits the value on top of the stack as the variable `operand`.
#[derive(Debug)]
pub struct Define {
    pub scope: DefinitionScope,
    pub operand: Vec<u8>,
}

/// Pushes the value of the variable `identifier`.
#[derive(Debug)]
pub struct Resolve {
    pub identifier: Vec<u8>,
    pub scope: DefinitionScope,
}

/// Stores the top of the stack in the variable `identifier`.
#[derive(Debug)]
pub struct Override {
    pub identifier: Vec<u8>,
    pub scope: DefinitionScope,
}

/// Jumps to `to` unless the truth value of the top of the stack is
/// `continue_condition`.
#[derive(Debug)]
pub struct Jump {
    pub to: usize,
    pub continue_condition: bool,
}

/// Jumps to `to`.
#[derive(Debug)]
pub struct ForceJump {
    pub to: usize,
}

/// Calls the value that lies under `args_len` arguments. `line` and
/// `line_contents` are where the call stands in the source.
#[derive(Debug)]
pub struct Call {
    pub args_len: usize,
    pub line: usize,
    pub line_contents: Vec<u8>,
}

/// Writes the field `property` of an instance.
#[derive(Debug)]
pub struct SetField {
    pub property: Vec<u8>,
    pub line: usize,
    pub line_contents: Vec<u8>,
}

/// Reads the property `property` of an instance or a class.
#[derive(Debug)]
pub struct Get {
    pub property: Vec<u8>,
    pub line: usize,
    pub line_contents: Vec<u8>,
}

/// Makes the class in the variable `ident` inherit from the class on top of
/// the stack.
#[derive(Debug)]
pub struct Inherit {
    pub ident: Vec<u8>,
    pub target: DefinitionScope,
    pub line: usize,
    pub line_contents: Vec<u8>,
}

/// Returns from the current function.
#[derive(Debug)]
pub struct Return {}

/// Pushes the instance that the current method was called on.
#[derive(Debug)]
pub struct This {}

/// An instruction as contracts see it.
pub enum InstructionView {
    Pop,
    PopN(usize),
    NoOp,
    Constant(ValueView),
    Unary(UnaryOp),
    Binary(BinaryOp),
    Print,
    Define(DefinitionScope, Seq<u8>),
    Resolve(Seq<u8>, DefinitionScope),
    Override(Seq<u8>, DefinitionScope),
    Jump(usize, bool),
    ForceJump(usize),
    Call(usize, usize, Seq<u8>),
    SetField(Seq<u8>, usize, Seq<u8>),
    Get(Seq<u8>, usize, Seq<u8>),
    Inherit(DefinitionScope, Seq<u8>, usize, Seq<u8>),
    Return,
    This,
}

/// An instruction: one of the operations, with its operands.
#[derive(Debug)]
pub enum Instruction {
    Pop(Pop),
    PopN(PopN),
    NoOp(NoOp),
    Constant(Constant),
    Unary(Unary),
    Binary(Binary),
    Print(Print),
    Define(Define),
    Resolve(Resolve),
    Override(Override),
    Jump(Jump),
    ForceJump(ForceJump),
    Call(Call),
    SetField(SetField),
    Get(Get),
    Inherit(Inherit),
    Return(Return),
    This(This),
}

impl View for Instruction {
    type V = InstructionView;

    open spec fn view(&self) -> InstructionView {
        match *self {
            Instruction::Pop(_) => InstructionView::Pop,
            Instruction::PopN(i) => InstructionView::PopN(i.n),
            Instruction::NoOp(_) => InstructionView::NoOp,
            Instruction::Constant(i) => InstructionView::Constant(i.operand@),
            Instruction::Unary(i) => InstructionView::Unary(i.op),
            Instruction::Binary(i) => InstructionView::Binary(i.op),
            Instruction::Print(_) => InstructionView::Print,
            Instruction::Define(i) => InstructionView::Define(i.scope, i.operand@),
            Instruction::Resolve(i) => InstructionView::Resolve(i.identifier@, i.scope),
            Instruction::Override(i) => InstructionView::Override(i.identifier@, i.scope),
            Instruction::Jump(i) => InstructionView::Jump(i.to, i.continue_condition),
            Instruction::ForceJump(i) => InstructionView::ForceJump(i.to),
            Instruction::Call(i) => InstructionView::Call(i.args_len, i.line, i.line_contents@),
            Instruction::SetField(i) => InstructionView::SetField(i.property@, i.line, i.line_contents@),
            Instruction::Get(i) => InstructionView::Get(i.property@, i.line, i.line_contents@),
            Instruction::Inherit(i) => InstructionView::Inherit(
                i.target,
                i.ident@,
                i.line,
                i.line_contents@,
            ),
            Instruction::Return(_) => InstructionView::Return,
            Instruction::This(_) => InstructionView::This,
        }
    }
}

impl DeepView for Instruction {
    type V = InstructionView;

    open spec fn deep_view(&self) -> InstructionView {
        self@
    }
}

impl InstructionView {
    /// The opcode.
    pub open spec fn kind(self) -> InstructionType {
        match self {
            InstructionView::Pop => InstructionType::OP_POP,
            InstructionView::PopN(_) => InstructionType::OP_POPN,
            InstructionView::NoOp => InstructionType::OP_NONE,
            InstructionView::Constant(_) => InstructionType::OP_CONST,
            InstructionView::Unary(_) => InstructionType::OP_UNARY,
            InstructionView::Binary(_) => InstructionType::OP_BINARY,
            InstructionView::Print => InstructionType::OP_PRINT,
            InstructionView::Define(_, _) => InstructionType::OP_DEFINE,
            InstructionView::Resolve(_, _) => InstructionType::OP_RESOLVE,
            InstructionView::Override(_, _) => InstructionType::OP_OVERRIDE,
            InstructionView::Jump(_, _) => InstructionType::OP_JUMP,
            InstructionView::ForceJump(_) => InstructionType::OP_JUMP,
            InstructionView::Call(_, _, _) => InstructionType::OP_CALL,
            InstructionView::SetField(_, _, _) => InstructionType::OP_SET,
            InstructionView::Get(_, _, _) => InstructionType::OP_GET,
            InstructionView::Inherit(_, _, _, _) => InstructionType::OP_INHERIT,
            InstructionView::Return => InstructionType::OP_RETURN,
            InstructionView::This => InstructionType::OP_THIS,
        }
    }
}

/// A fault with the text that reports it: the message, and the
/// instruction or the expression that raised it.
pub struct Complaint {
    pub fault: RuntimeFault,
    pub message: Seq<PieceView>,
    pub what: Seq<PieceView>,
}

/// What an instruction does: the state it leaves, and the instruction to run
/// next (0 for the one that follows) or the fault it raises.
pub struct Outcome {
    pub state: StateView,
    pub result: Result<usize, Complaint>,
}

/// The text `text` as a message.
pub open spec fn said(text: Seq<u8>) -> Seq<PieceView> {
    seq![PieceView::Text(text)]
}

/// The outcome of going on to the following instruction in state `state`.
pub open spec fn proceed(state: StateView) -> Outcome {
    Outcome { state, result: Ok(0) }
}

/// The outcome of raising `complaint` in state `state`.
pub open spec fn complained(state: StateView, complaint: Complaint) -> Outcome {
    Outcome { state, result: Err(complaint) }
}

/// The outcome of raising `fault` in state `state`, with the message
/// `message`, by `what`.
pub open spec fn failed(
    state: StateView,
    fault: RuntimeFault,
    message: Seq<u8>,
    what: Seq<u8>,
) -> Outcome {
    complained(state, Complaint { fault, message: said(message), what: said(what) })
}

/// Whether the error `err` is the complaint `complaint`.
pub open spec fn raised(complaint: Complaint, err: InstructionErr) -> bool {
    &&& err.fault == complaint.fault
    &&& err.message@ == complaint.message
    &&& err.instruction_str@ == complaint.what
}

/// Whether a call that left the state `after` and returned `r` did what `outcome` says.
pub open spec fn carried_out(
    outcome: Outcome,
    after: StateView,
    r: Result<usize, InstructionErr>,
) -> bool {
    &&& after == outcome.state
    &&& match outcome.result {
        Ok(next) => r == Ok::<usize, InstructionErr>(next),
        Err(complaint) => r is Err && raised(complaint, r->Err_0),
    }
}

/// An error of kind `fault` with the message `text`, raised by `what`.
pub fn fault(kind: RuntimeFault, text: &str, what: &str) -> (r: InstructionErr)
    ensures
        raised(
            Complaint {
                fault: kind,
                message: said(text.spec_bytes()),
                what: said(what.spec_bytes()),
            },
            r,
        ),
{
    InstructionErr::new(kind, Message::from_text(text), Message::from_text(what))
}

impl Pop {
    /// Without the top of the stack; an empty stack stays empty.
    pub open spec fn effect(state: StateView) -> Outcome {
        proceed(
            StateView {
                stack: state.stack.subrange(
                    0,
                    if state.stack.len() >= 1 {
                        state.stack.len() - 1
                    } else {
                        0
                    },
                ),
                ..state
            },
        )
    }

    /// Runs the instruction on `state`, as `effect` describes.
    pub fn eval(&self, state: &mut State) -> (r: Result<usize, InstructionErr>)
        requires
            old(state).wf(),
        ensures
            final(state).wf(),
            carried_out(Self::effect(old(state)@), final(state)@, r),
    {
        state.drop(1);
        Ok(0)
    }
}

impl PopN {
    /// Without the top `n` values of the stack, or empty where it holds fewer.
    pub open spec fn effect(n: usize, state: StateView) -> Outcome {
        proceed(
            StateView {
                stack: state.stack.subrange(
                    0,
                    if state.stack.len() >= n {
                        state.stack.len() - n
                    } else {
                        0
                    },
                ),
                ..state
            },
        )
    }

    /// Runs the instruction on `state`, as `effect` describes.
    pub fn eval(&self, state: &mut State) -> (r: Result<usize, InstructionErr>)
        requires
            old(state).wf(),
        ensures
            final(state).wf(),
            carried_out(Self::effect(self.n, old(state)@), final(state)@, r),
    {
        state.drop(self.n);
        Ok(0)
    }
}

impl NoOp {
    /// Nothing changes, and the machine goes on.
    pub open spec fn effect(state: StateView) -> Outcome {
        proceed(state)
    }

    /// Runs the instruction on `state`, as `effect` describes.
    pub fn eval(&self, state: &mut State) -> (r: Result<usize, InstructionErr>)
        ensures
            final(state).wf() == old(state).wf(),
            carried_out(Self::effect(old(state)@), final(state)@, r),
    {
        Ok(0)
    }
}

impl Pop {
    /// A new `Pop`.
    pub fn new() -> (r: Self) {
        Pop {  }
    }

    /// The opcode.
    pub fn disassemble(&self) -> (r: InstructionType)
        ensures
            r == InstructionType::OP_POP,
    {
        InstructionType::OP_POP
    }
}

impl PopN {
    /// A new `PopN`.
    pub fn new(n: usize) -> (r: Self)
        ensures
            r.n == n,
    {
        PopN { n }
    }

    /// The opcode.
    pub fn disassemble(&self) -> (r: InstructionType)
        ensures
            r == InstructionType::OP_POPN,
    {
        InstructionType::OP_POPN
    }
}

impl NoOp {
    /// A new `NoOp`.
    pub fn new() -> (r: Self) {
        NoOp {  }
    }

    /// The opcode.
    pub fn disassemble(&self) -> (r: InstructionType)
        ensures
            r == InstructionType::OP_NONE,
    {
        InstructionType::OP_NONE
    }
}

impl Constant {
    /// A new `Constant`.
    pub fn new(operand: Value) -> (r: Self)
        ensures
            r.operand == operand,
    {
        Constant { operand }
    }

    /// The opcode.
    pub fn disassemble(&self) -> (r: InstructionType)
        ensures
            r == InstructionType::OP_CONST,
    {
        InstructionType::OP_CONST
    }
}

impl Unary {
    /// A new `Unary`.
    pub fn new(op: UnaryOp) -> (r: Self)
        ensures
            r.op == op,
    {
        Unary { op }
    }

    /// The opcode.
    pub fn disassemble(&self) -> (r: InstructionType)
        ensures
            r == InstructionType::OP_UNARY,
    {
        InstructionType::OP_UNARY
    }
}

impl Binary {
    /// A new `Binary`.
    pub fn new(op: BinaryOp) -> (r: Self)
        ensures
            r.op == op,
    {
        Binary { op }
    }

    /// The opcode.
    pub fn disassemble(&self) -> (r: InstructionType)
        ensures
            r == InstructionType::OP_BINARY,
    {
        InstructionType::OP_BINARY
    }
}

impl Print {
    /// A new `Print`.
    pub fn new() -> (r: Self) {
        Print {  }
    }

    /// The opcode.
    pub fn disassemble(&self) -> (r: InstructionType)
        ensures
            r == InstructionType::OP_PRINT,
    {
        InstructionType::OP_PRINT
    }
}

impl Define {
    /// A new `Define`.
    pub fn new(scope: DefinitionScope, operand: Vec<u8>) -> (r: Self)
        ensures
            r.scope == scope,
            r.operand == operand,
    {
        Define { scope, operand }
    }

    /// The opcode.
    pub fn disassemble(&self) -> (r: InstructionType)
        ensures
            r == InstructionType::OP_DEFINE,
    {
        InstructionType::OP_DEFINE
    }
}

impl Resolve {
    /// A new `Resolve`.
    pub fn new(identifier: Vec<u8>, scope: DefinitionScope) -> (r: Self)
        ensures
            r.scope == scope,
            r.identifier == identifier,
    {
        Resolve { identifier, scope }
    }

    /// The opcode.
    pub fn disassemble(&self) -> (r: InstructionType)
        ensures
            r == InstructionType::OP_RESOLVE,
    {
        InstructionType::OP_RESOLVE
    }
}

impl Override {
    /// A new `Override`.
    pub fn new(identifier: Vec<u8>, scope: DefinitionScope) -> (r: Self)
        ensures
            r.scope == scope,
            r.identifier == identifier,
    {
        Override { identifier, scope }
    }

    /// The opcode.
    pub fn disassemble(&self) -> (r: InstructionType)
        ensures
            r == InstructionType::OP_OVERRIDE,
    {
        InstructionType::OP_OVERRIDE
    }
}

impl Jump {
    /// A new `Jump`.
    pub fn new(to: usize, continue_condition: bool) -> (r: Self)
        ensures
            r.to == to,
            r.continue_condition == continue_condition,
    {
        Jump { to, continue_condition }
    }

    /// The opcode.
    pub fn disassemble(&self) -> (r: InstructionType)
        ensures
            r == InstructionType::OP_JUMP,
    {
        InstructionType::OP_JUMP
    }
}

impl ForceJump {
    /// A new `ForceJump`.
    pub fn new(to: usize) -> (r: Self)
        ensures
            r.to == to,
    {
        ForceJump { to }
    }

    /// The opcode.
    pub fn disassemble(&self) -> (r: InstructionType)
        ensures
            r == InstructionType::OP_JUMP,
    {
        InstructionType::OP_JUMP
    }
}

impl Call {
    /// A new `Call`.
    pub fn new(args_len: usize, line: usize, line_contents: Vec<u8>) -> (r: Self)
        ensures
            r.args_len == args_len,
            r.line == line,
            r.line_contents == line_contents,
    {
        Call { args_len, line, line_contents }
    }

    /// The opcode.
    pub fn disassemble(&self) -> (r: InstructionType)
        ensures
            r == InstructionType::OP_CALL,
    {
        InstructionType::OP_CALL
    }
}

impl SetField {
    /// A new `SetField`.
    pub fn new(property: Vec<u8>, line: usize, line_contents: Vec<u8>) -> (r: Self)
        ensures
            r.property == property,
            r.line == line,
            r.line_contents == line_contents,
    {
        SetField { property, line, line_contents }
    }

    /// The opcode.
    pub fn disassemble(&self) -> (r: InstructionType)
        ensures
            r == InstructionType::OP_SET,
    {
        InstructionType::OP_SET
    }
}

impl Get {
    /// A new `Get`.
    pub fn new(property: Vec<u8>, line: usize, line_contents: Vec<u8>) -> (r: Self)
        ensures
            r.property == property,
            r.line == line,
            r.line_contents == line_contents,
    {
        Get { property, line, line_contents }
    }

    /// The opcode.
    pub fn disassemble(&self) -> (r: InstructionType)
        ensures
            r == InstructionType::OP_GET,
    {
        InstructionType::OP_GET
    }
}

impl Inherit {
    /// A new `Inherit`.
    pub fn new(target: DefinitionScope, ident: Vec<u8>, line: usize, line_contents: Vec<u8>) -> (r:
        Self)
        ensures
            r.target == target,
            r.ident == ident,
            r.line == line,
            r.line_contents == line_contents,
    {
        Inherit { ident, target, line, line_contents }
    }

    /// The opcode.
    pub fn disassemble(&self) -> (r: InstructionType)
        ensures
            r == InstructionType::OP_INHERIT,
    {
        InstructionType::OP_INHERIT
    }
}

impl Return {
    /// A new `Return`.
    pub fn new() -> (r: Self) {
        Return {  }
    }

    /// The opcode.
    pub fn disassemble(&self) -> (r: InstructionType)
        ensures
            r == InstructionType::OP_RETURN,
    {
        InstructionType::OP_RETURN
    }
}

impl This {
    /// A new `This`.
    pub fn new() -> (r: Self) {
        This {  }
    }

    /// The opcode.
    pub fn disassemble(&self) -> (r: InstructionType)
        ensures
            r == InstructionType::OP_THIS,
    {
        InstructionType::OP_THIS
    }

    /// The instance that the method of the newest frame was called on is
    /// pushed. It is a fault where that frame is no call of a method.
    pub open spec fn effect(state: StateView) -> Outcome {
        if state.frames.len() == 0 {
            failed(
                state,
                RuntimeFault::Corrupt,
                "No call in progress".spec_bytes(),
                "OP_THIS".spec_bytes(),
            )
        } else {
            match state.frames.last().receiver {
                Some(instance) => proceed(
                    StateView { stack: state.stack.push(ValueView::Instance(instance)), ..state },
                ),
                None => failed(
                    state,
                    RuntimeFault::NoReceiver,
                    "`this` can only be used in a method".spec_bytes(),
                    "OP_THIS".spec_bytes(),
                ),
            }
        }
    }

    /// Runs the instruction on `state`, as `effect` describes.
    pub fn eval(&self, state: &mut State) -> (r: Result<usize, InstructionErr>)
        requires
            old(state).wf(),
        ensures
            final(state).wf(),
            carried_out(Self::effect(old(state)@), final(state)@, r),
    {
        let depth = state.frames.len();
        if depth == 0 {
            return Err(fault(RuntimeFault::Corrupt, "No call in progress", "OP_THIS"));
        }
        match state.frames[depth - 1].receiver {
            Some(instance) => {
                state.push(Value::Instance(instance));
                Ok(0)
            },
            None => Err(
                fault(RuntimeFault::NoReceiver, "`this` can only be used in a method", "OP_THIS"),
            ),
        }
    }
}

impl Instruction {
    /// The opcode.
    pub fn disassemble(&self) -> (r: InstructionType)
        ensures
            r == self@.kind(),
    {
        match self {
            Instruction::Pop(i) => i.disassemble(),
            Instruction::PopN(i) => i.disassemble(),
            Instruction::NoOp(i) => i.disassemble(),
            Instruction::Constant(i) => i.disassemble(),
            Instruction::Unary(i) => i.disassemble(),
            Instruction::Binary(i) => i.disassemble(),
            Instruction::Print(i) => i.disassemble(),
            Instruction::Define(i) => i.disassemble(),
            Instruction::Resolve(i) => i.disassemble(),
            Instruction::Override(i) => i.disassemble(),
            Instruction::Jump(i) => i.disassemble(),
            Instruction::ForceJump(i) => i.disassemble(),
            Instruction::Call(i) => i.disassemble(),
            Instruction::SetField(i) => i.disassemble(),
            Instruction::Get(i) => i.disassemble(),
            Instruction::Inherit(i) => i.disassemble(),
            Instruction::Return(i) => i.disassemble(),
            Instruction::This(i) => i.disassemble(),
        }
    }

    /// A copy of the instruction.
    pub fn copy(&self) -> (r: Instruction)
        ensures
            r@ == self@,
    {
        match self {
            Instruction::Pop(_) => Instruction::Pop(Pop::new()),
            Instruction::PopN(i) => Instruction::PopN(PopN::new(i.n)),
            Instruction::NoOp(_) => Instruction::NoOp(NoOp::new()),
            Instruction::Constant(i) => Instruction::Constant(Constant::new(i.operand.copy())),
            Instruction::Unary(i) => Instruction::Unary(Unary::new(i.op)),
            Instruction::Binary(i) => Instruction::Binary(Binary::new(i.op)),
            Instruction::Print(_) => Instruction::Print(Print::new()),
            Instruction::Define(i) => Instruction::Define(
                Define::new(i.scope, copy_bytes(i.operand.as_slice())),
            ),
            Instruction::Resolve(i) => Instruction::Resolve(
                Resolve::new(copy_bytes(i.identifier.as_slice()), i.scope),
            ),
            Instruction::Override(i) => Instruction::Override(
                Override::new(copy_bytes(i.identifier.as_slice()), i.scope),
            ),
            Instruction::Jump(i) => Instruction::Jump(Jump::new(i.to, i.continue_condition)),
            Instruction::ForceJump(i) => Instruction::ForceJump(ForceJump::new(i.to)),
            Instruction::Call(i) => Instruction::Call(
                Call::new(i.args_len, i.line, copy_bytes(i.line_contents.as_slice())),
            ),
            Instruction::SetField(i) => Instruction::SetField(
                SetField::new(
                    copy_bytes(i.property.as_slice()),
                    i.line,
                    copy_bytes(i.line_contents.as_slice()),
                ),
            ),
            Instruction::Get(i) => Instruction::Get(
                Get::new(
                    copy_bytes(i.property.as_slice()),
                    i.line,
                    copy_bytes(i.line_contents.as_slice()),
                ),
            ),
            Instruction::Inherit(i) => Instruction::Inherit(
                Inherit::new(
                    i.target,
                    copy_bytes(i.ident.as_slice()),
                    i.line,
                    copy_bytes(i.line_contents.as_slice()),
                ),
            ),
            Instruction::Return(_) => Instruction::Return(Return::new()),
            Instruction::This(_) => Instruction::This(This::new()),
        }
    }
}

impl InstructionView {
    /// What the instruction does in state `state`, for a function whose
    /// window of the stack starts at `offset`.
    pub open spec fn effect(self, functions: Seq<FuncView>, state: StateView, offset: usize) -> Outcome {
        match self {
            InstructionView::Pop => Pop::effect(state),
            InstructionView::PopN(n) => PopN::effect(n, state),
            InstructionView::NoOp => NoOp::effect(state),
            InstructionView::Constant(operand) => Constant::effect(operand, state),
            InstructionView::Unary(op) => Unary::effect(op, state),
            InstructionView::Binary(op) => Binary::effect(op, functions, state),
            InstructionView::Print => Print::effect(functions, state),
            InstructionView::Define(scope, name) => Define::effect(scope, name, state),
            InstructionView::Resolve(name, scope) => Resolve::effect(name, scope, state, offset),
            InstructionView::Override(name, scope) => Override::effect(name, scope, state, offset),
            InstructionView::Jump(to, continue_condition) => Jump::effect(
                to,
                continue_condition,
                state,
            ),
            InstructionView::ForceJump(to) => ForceJump::effect(to, state),
            InstructionView::Call(args_len, line, line_contents) => Call::effect(
                args_len,
                line,
                line_contents,
                functions,
                state,
            ),
            InstructionView::SetField(property, line, line_contents) => SetField::effect(
                property,
                line,
                line_contents,
                functions,
                state,
            ),
            InstructionView::Get(property, line, line_contents) => Get::effect(
                property,
                line,
                line_contents,
                functions,
                state,
            ),
            InstructionView::Inherit(target, ident, line, line_contents) => Inherit::effect(
                target,
                ident,
                line,
                line_contents,
                functions,
                state,
                offset,
            ),
            InstructionView::Return => Return::effect(functions, state),
            InstructionView::This => This::effect(state),
        }
    }
}

impl Instruction {
    /// Runs the instruction on `state`, for a function whose window of the
    /// stack starts at `offset`. Returns the instruction to run next, 0
    /// standing for the one that follows.
    pub fn eval(&self, functions: &Vec<Func>, state: &mut State, offset: usize) -> (r: Result<
        usize,
        InstructionErr,
    >)
        requires
            old(state).wf(),
        ensures
            final(state).wf(),
            carried_out(
                self@.effect(functions.deep_view(), old(state)@, offset),
                final(state)@,
                r,
            ),
    {
        match self {
            Instruction::Pop(i) => i.eval(state),
            Instruction::PopN(i) => i.eval(state),
            Instruction::NoOp(i) => i.eval(state),
            Instruction::Constant(i) => i.eval(state),
            Instruction::Unary(i) => i.eval(state),
            Instruction::Binary(i) => i.eval(functions, state),
            Instruction::Print(i) => i.eval(functions, state),
            Instruction::Define(i) => i.eval(state),
            Instruction::Resolve(i) => i.eval(state, offset),
            Instruction::Override(i) => i.eval(state, offset),
            Instruction::Jump(i) => i.eval(state),
            Instruction::ForceJump(i) => i.eval(state),
            Instruction::Call(i) => i.eval(functions, state),
            Instruction::SetField(i) => i.eval(functions, state),
            Instruction::Get(i) => i.eval(functions, state),
            Instruction::Inherit(i) => i.eval(functions, state, offset),
            Instruction::Return(i) => i.eval(functions, state),
            Instruction::This(i) => i.eval(state),
        }
    }
}

} // verus!
