//! How instructions and chunks are written.
use vstd::prelude::*;
use vstd::string::*;
use crate::instructions::chunk::{Chunk, ChunkView};
use crate::instructions::define::DefinitionScope;
use crate::instructions::instructions::{Instruction, InstructionView, UnaryOp};
use crate::text::{decimal, push_bytes, push_decimal, push_text};
use crate::values::func::{Func, FuncView};
use crate::values::obj::{Heap, HeapView};
use crate::values::values::{Message, PieceView};

verus! {

impl DefinitionScope {
    /// The scope as it is written: `Global`, `Local(3)`, `UpValue(2)`.
    pub open spec fn shown(self) -> Seq<u8> {
        match self {
            DefinitionScope::Global => "Global".spec_bytes(),
            DefinitionScope::Local(i) => "Local(".spec_bytes() + decimal(i as nat)
                + ")".spec_bytes(),
            DefinitionScope::UpValue(i) => "UpValue(".spec_bytes() + decimal(i as nat)
                + ")".spec_bytes(),
        }
    }

    /// Appends the scope as it is written to `out`.
    pub fn write(&self, out: &mut Vec<u8>)
        ensures
            final(out)@ == old(out)@ + self.shown(),
    {
        match self {
            DefinitionScope::Global => {
                push_text(out, "Global");
            },
            DefinitionScope::Local(i) => {
                push_text(out, "Local(");
                push_decimal(out, *i);
                push_text(out, ")");
                assert(out@ =~= old(out)@ + self.shown());
            },
            DefinitionScope::UpValue(i) => {
                push_text(out, "UpValue(");
                push_decimal(out, *i);
                push_text(out, ")");
                assert(out@ =~= old(out)@ + self.shown());
            },
        }
    }
}

/// A variable instruction as it is written: the opcode, the scope, the name.
pub open spec fn variable_shown(opcode: Seq<u8>, scope: DefinitionScope, name: Seq<u8>) -> Seq<u8> {
    opcode + " @".spec_bytes() + scope.shown() + "      ".spec_bytes() + name
}

impl InstructionView {
    /// The instruction as it is written: the opcode and the operands.
    pub open spec fn shown(self, functions: Seq<FuncView>, heap: HeapView) -> Seq<PieceView> {
        match self {
            InstructionView::Pop => seq![PieceView::Text("OP_POP".spec_bytes())],
            InstructionView::PopN(n) => seq![
                PieceView::Text("OP_POPN       ".spec_bytes() + decimal(n as nat)),
            ],
            InstructionView::NoOp => seq![PieceView::Text("OP_NONE".spec_bytes())],
            InstructionView::Constant(operand) => seq![
                PieceView::Text("OP_CONST       ".spec_bytes()),
                operand.shown(functions, heap),
            ],
            InstructionView::Unary(op) => seq![
                PieceView::Text(
                    match op {
                        UnaryOp::Negate => "OP_UNARY Negate".spec_bytes(),
                        UnaryOp::Bang => "OP_UNARY Bang".spec_bytes(),
                    },
                ),
            ],
            InstructionView::Binary(op) => seq![
                PieceView::Text(
                    "\"".spec_bytes() + vstd::utf8::encode_utf8(op.symbol_text())
                        + "\"".spec_bytes(),
                ),
            ],
            InstructionView::Print => seq![PieceView::Text("OP_PRINT".spec_bytes())],
            InstructionView::Define(_, name) => seq![
                PieceView::Text("OP_DEFINE       ".spec_bytes() + name),
            ],
            InstructionView::Resolve(name, scope) => seq![
                PieceView::Text(variable_shown("OP_RESOLVE".spec_bytes(), scope, name)),
            ],
            InstructionView::Override(name, scope) => seq![
                PieceView::Text(variable_shown("OP_OVERRIDE".spec_bytes(), scope, name)),
            ],
            InstructionView::Jump(to, continue_condition) => seq![
                PieceView::Text(
                    (if continue_condition {
                        "OP_JUMP_IF_false       ".spec_bytes()
                    } else {
                        "OP_JUMP_IF_true       ".spec_bytes()
                    }) + decimal(to as nat),
                ),
            ],
            InstructionView::ForceJump(to) => seq![
                PieceView::Text("OP_JUMP       ".spec_bytes() + decimal(to as nat)),
            ],
            InstructionView::Call(args_len, _, _) => seq![
                PieceView::Text(
                    "OP_CALL @(<".spec_bytes() + decimal(args_len as nat) + " args>)".spec_bytes(),
                ),
            ],
            InstructionView::SetField(property, _, _) => seq![
                PieceView::Text("OP_SET ".spec_bytes() + property),
            ],
            InstructionView::Get(property, _, _) => seq![
                PieceView::Text("OP_GET ".spec_bytes() + property),
            ],
            InstructionView::Inherit(_, ident, _, _) => seq![
                PieceView::Text("OP_INHERIT < \"".spec_bytes() + ident + "\"".spec_bytes()),
            ],
            InstructionView::Return => seq![PieceView::Text("OP_RETURN".spec_bytes())],
            InstructionView::This => seq![PieceView::Text("OP_THIS".spec_bytes())],
        }
    }
}

/// A message of the one text piece `bytes`.
fn one(bytes: Vec<u8>) -> (r: Message)
    ensures
        r@ == seq![PieceView::Text(bytes@)],
{
    Message::from_bytes(bytes.as_slice())
}

impl Instruction {
    /// The instruction as it is written.
    pub fn display(&self, functions: &Vec<Func>, heap: &Heap) -> (r: Message)
        ensures
            r@ == self@.shown(functions.deep_view(), heap@),
    {
        let mut out: Vec<u8> = Vec::new();
        match self {
            Instruction::Pop(_) => Message::from_text("OP_POP"),
            Instruction::PopN(i) => {
                push_text(&mut out, "OP_POPN       ");
                push_decimal(&mut out, i.n);
                assert(out@ =~= "OP_POPN       ".spec_bytes() + decimal(i.n as nat));
                one(out)
            },
            Instruction::NoOp(_) => Message::from_text("OP_NONE"),
            Instruction::Constant(i) => {
                let mut message = Message::from_text("OP_CONST       ");
                message.push(i.operand.display(functions, heap));
                assert(message@ =~= self@.shown(functions.deep_view(), heap@));
                message
            },
            Instruction::Unary(i) => match i.op {
                UnaryOp::Negate => Message::from_text("OP_UNARY Negate"),
                UnaryOp::Bang => Message::from_text("OP_UNARY Bang"),
            },
            Instruction::Binary(i) => {
                push_text(&mut out, "\"");
                push_text(&mut out, i.op.symbol());
                push_text(&mut out, "\"");
                assert(out@ =~= "\"".spec_bytes() + vstd::utf8::encode_utf8(i.op.symbol_text())
                    + "\"".spec_bytes());
                one(out)
            },
            Instruction::Print(_) => Message::from_text("OP_PRINT"),
            Instruction::Define(i) => {
                push_text(&mut out, "OP_DEFINE       ");
                push_bytes(&mut out, i.operand.as_slice());
                assert(out@ =~= "OP_DEFINE       ".spec_bytes() + i.operand@);
                one(out)
            },
            Instruction::Resolve(i) => {
                push_text(&mut out, "OP_RESOLVE");
                push_text(&mut out, " @");
                i.scope.write(&mut out);
                push_text(&mut out, "      ");
                push_bytes(&mut out, i.identifier.as_slice());
                assert(out@ =~= variable_shown("OP_RESOLVE".spec_bytes(), i.scope, i.identifier@));
                one(out)
            },
            Instruction::Override(i) => {
                push_text(&mut out, "OP_OVERRIDE");
                push_text(&mut out, " @");
                i.scope.write(&mut out);
                push_text(&mut out, "      ");
                push_bytes(&mut out, i.identifier.as_slice());
                assert(out@ =~= variable_shown(
                    "OP_OVERRIDE".spec_bytes(),
                    i.scope,
                    i.identifier@,
                ));
                one(out)
            },
            Instruction::Jump(i) => {
                if i.continue_condition {
                    push_text(&mut out, "OP_JUMP_IF_false       ");
                } else {
                    push_text(&mut out, "OP_JUMP_IF_true       ");
                }
                push_decimal(&mut out, i.to);
                assert(out@ =~= (if i.continue_condition {
                    "OP_JUMP_IF_false       ".spec_bytes()
                } else {
                    "OP_JUMP_IF_true       ".spec_bytes()
                }) + decimal(i.to as nat));
                one(out)
            },
            Instruction::ForceJump(i) => {
                push_text(&mut out, "OP_JUMP       ");
                push_decimal(&mut out, i.to);
                assert(out@ =~= "OP_JUMP       ".spec_bytes() + decimal(i.to as nat));
                one(out)
            },
            Instruction::Call(i) => {
                push_text(&mut out, "OP_CALL @(<");
                push_decimal(&mut out, i.args_len);
                push_text(&mut out, " args>)");
                assert(out@ =~= "OP_CALL @(<".spec_bytes() + decimal(i.args_len as nat)
                    + " args>)".spec_bytes());
                one(out)
            },
            Instruction::SetField(i) => {
                push_text(&mut out, "OP_SET ");
                push_bytes(&mut out, i.property.as_slice());
                assert(out@ =~= "OP_SET ".spec_bytes() + i.property@);
                one(out)
            },
            Instruction::Get(i) => {
                push_text(&mut out, "OP_GET ");
                push_bytes(&mut out, i.property.as_slice());
                assert(out@ =~= "OP_GET ".spec_bytes() + i.property@);
                one(out)
            },
            Instruction::Inherit(i) => {
                push_text(&mut out, "OP_INHERIT < \"");
                push_bytes(&mut out, i.ident.as_slice());
                push_text(&mut out, "\"");
                assert(out@ =~= "OP_INHERIT < \"".spec_bytes() + i.ident@ + "\"".spec_bytes());
                one(out)
            },
            Instruction::Return(_) => Message::from_text("OP_RETURN"),
            Instruction::This(_) => Message::from_text("OP_THIS"),
        }
    }
}

impl ChunkView {
    /// What stands before the instruction at `i`: the number of its line,
    /// or a bar for an instruction after the first that stands on line 1;
    /// and two spaces.
    pub open spec fn margin(self, i: int) -> Seq<u8> {
        (if i != 0 && self.lines[i] == 1 {
            "|".spec_bytes()
        } else {
            decimal(self.lines[i] as nat)
        }) + "  ".spec_bytes()
    }

    /// The first `n` instructions as they are written, one to a line.
    pub open spec fn shown_to(self, n: int, functions: Seq<FuncView>, heap: HeapView) -> Seq<
        PieceView,
    >
        decreases n,
    {
        if n <= 0 {
            Seq::empty()
        } else {
            self.shown_to(n - 1, functions, heap) + seq![PieceView::Text(self.margin(n - 1))]
                + self.code[n - 1].shown(functions, heap) + seq![
                PieceView::Text("\n".spec_bytes()),
            ]
        }
    }

    /// The chunk as it is written.
    pub open spec fn shown(self, functions: Seq<FuncView>, heap: HeapView) -> Seq<PieceView> {
        self.shown_to(self.code.len() as int, functions, heap)
    }
}

impl Chunk {
    /// The chunk as it is written: each instruction on a line of its own,
    /// after the number of its source line.
    pub fn display(&self, functions: &Vec<Func>, heap: &Heap) -> (r: Message)
        requires
            self.wf(),
        ensures
            r@ == self@.shown(functions.deep_view(), heap@),
    {
        let mut out = Message::new();
        let mut index: usize = 0;
        while index < self.code.len()
            invariant
                self.wf(),
                index <= self.code.len(),
                out@ == self@.shown_to(index as int, functions.deep_view(), heap@),
            decreases self.code.len() - index,
        {
            let ghost before = out@;
            let mut margin: Vec<u8> = Vec::new();
            if index != 0 && self.lines[index] == 1 {
                push_text(&mut margin, "|");
            } else {
                push_decimal(&mut margin, self.lines[index]);
            }
            push_text(&mut margin, "  ");
            assert(margin@ =~= self@.margin(index as int));
            out.bytes(margin.as_slice());
            let shown = self.code[index].display(functions, heap);
            assert(self@.code[index as int] == self.code[index as int]@);
            out.append(&shown);
            out.text("\n");
            index += 1;
            assert(out@ =~= before + seq![PieceView::Text(self@.margin(index - 1))]
                + self@.code[index - 1].shown(functions.deep_view(), heap@) + seq![
                PieceView::Text("\n".spec_bytes()),
            ]);
        }
        out
    }
}

} // verus!
