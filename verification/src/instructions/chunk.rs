//! The chunk: the instructions of one function, with the source line of each.
use vstd::prelude::*;
use vstd::string::*;
use crate::instructions::err::ChunkErr;
use crate::instructions::instructions::{Instruction, InstructionType, InstructionView};
use crate::text::{decimal, push_decimal, push_text};

verus! {

/// A chunk as contracts see it.
pub struct ChunkView {
    pub code: Seq<InstructionView>,
    pub lines: Seq<usize>,
}

/// The instructions of one function in order, and for each the number of
/// the source line it was compiled from.
#[derive(Debug)]
pub struct Chunk {
    pub code: Vec<Instruction>,
    pub lines: Vec<usize>,
}

impl View for Chunk {
    type V = ChunkView;

    open spec fn view(&self) -> ChunkView {
        ChunkView { code: self.code.deep_view(), lines: self.lines@ }
    }
}

impl DeepView for Chunk {
    type V = ChunkView;

    open spec fn deep_view(&self) -> ChunkView {
        self@
    }
}

/// The message of a swap outside the chunk.
pub open spec fn swap_message(origin: usize, dest: usize) -> Seq<u8> {
    "instruction swap failed for the bounds: ".spec_bytes() + decimal(origin as nat)
        + " < --- > ".spec_bytes() + decimal(dest as nat)
}

impl Chunk {
    /// One line number for each instruction.
    pub open spec fn wf(&self) -> bool {
        self.code.len() == self.lines.len()
    }

    /// An empty chunk.
    pub fn new() -> (r: Self)
        ensures
            r.wf(),
            r@.code == Seq::<InstructionView>::empty(),
            r@.lines == Seq::<usize>::empty(),
    {
        let r = Chunk { code: Vec::new(), lines: Vec::new() };
        assert(r@.code =~= Seq::<InstructionView>::empty());
        r
    }

    /// The number of instructions.
    pub fn len(&self) -> (r: usize)
        ensures
            r == self@.code.len(),
    {
        self.code.len()
    }

    /// Appends `instruction`, compiled from line `line`. It never fails.
    pub fn write_to_chunk(&mut self, instruction: Instruction, line: usize) -> (r: Result<
        (),
        ChunkErr,
    >)
        requires
            old(self).wf(),
        ensures
            r is Ok,
            final(self).wf(),
            final(self)@.code == old(self)@.code.push(instruction@),
            final(self)@.lines == old(self)@.lines.push(line),
    {
        self.code.push(instruction);
        self.lines.push(line);
        assert(self@.code =~= old(self)@.code.push(instruction@));
        Ok(())
    }

    /// The opcodes of the instructions, in order.
    pub fn disassemble(&self) -> (r: Vec<InstructionType>)
        ensures
            r@ == Seq::new(self@.code.len(), |i: int| self@.code[i].kind()),
    {
        let mut instructions: Vec<InstructionType> = Vec::new();
        let mut i: usize = 0;
        while i < self.code.len()
            invariant
                i <= self.code.len(),
                instructions@ == Seq::new(i as nat, |j: int| self@.code[j].kind()),
            decreases self.code.len() - i,
        {
            instructions.push(self.code[i].disassemble());
            i += 1;
            assert(instructions@ =~= Seq::new(i as nat, |j: int| self@.code[j].kind()));
        }
        instructions
    }

    /// Exchanges the instructions at `origin` and `dest`; their line numbers
    /// stay where they are. Fails, and changes nothing, where one of the two
    /// is not a position of the chunk.
    pub fn swap_instructions(&mut self, origin: usize, dest: usize) -> (r: Result<(), ChunkErr>)
        requires
            old(self).wf(),
        ensures
            final(self).wf(),
            final(self)@.lines == old(self)@.lines,
            r is Ok <==> origin < old(self)@.code.len() && dest < old(self)@.code.len(),
            r is Ok ==> final(self)@.code == old(self)@.code.update(
                origin as int,
                old(self)@.code[dest as int],
            ).update(dest as int, old(self)@.code[origin as int]),
            r is Err ==> final(self)@.code == old(self)@.code && r->Err_0.message@
                == swap_message(origin, dest) && r->Err_0.line == if old(self)@.lines.len() > 0 {
                old(self)@.lines.last()
            } else {
                0
            },
    {
        if origin >= self.code.len() || dest >= self.code.len() {
            let mut message: Vec<u8> = Vec::new();
            push_text(&mut message, "instruction swap failed for the bounds: ");
            push_decimal(&mut message, origin);
            push_text(&mut message, " < --- > ");
            push_decimal(&mut message, dest);
            assert(message@ =~= swap_message(origin, dest));
            let line = if self.lines.len() > 0 {
                self.lines[self.lines.len() - 1]
            } else {
                0
            };
            return Err(ChunkErr::new(message, line));
        }
        let first = self.code[origin].copy();
        let second = self.code[dest].copy();
        self.code[origin] = second;
        self.code[dest] = first;
        assert(self@.code =~= old(self)@.code.update(
            origin as int,
            old(self)@.code[dest as int],
        ).update(dest as int, old(self)@.code[origin as int]));
        Ok(())
    }
}

} // verus!
