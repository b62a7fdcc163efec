//! Errors of reading the program text.
use vstd::prelude::*;
use vstd::string::*;
use crate::errors::err::{ErrTrait, ErrTraitBase};
use crate::values::values::{Message, PieceView};

verus! {

/// The source file could not be read.
#[derive(Debug)]
pub struct SrcErr {
    pub message: Vec<u8>,
    pub expected_stream: Vec<u8>,
}

impl SrcErr {
    /// An error about the file at the path `expected_stream`.
    pub fn new(message: Vec<u8>, expected_stream: Vec<u8>) -> (r: Self)
        ensures
            r.message == message,
            r.expected_stream == expected_stream,
    {
        SrcErr { message, expected_stream }
    }
}

impl ErrTraitBase for SrcErr {
    open spec fn raised(&self) -> Seq<PieceView> {
        seq![
            PieceView::Text("IO Error:: File ".spec_bytes()),
            PieceView::Text(self.expected_stream@),
            PieceView::Text(": ".spec_bytes()),
            PieceView::Text(self.message@),
            PieceView::Text("\n".spec_bytes()),
        ]
    }

    fn raise(&self) -> (r: Message) {
        let mut out = Message::new();
        out.text("IO Error:: File ");
        out.bytes(self.expected_stream.as_slice());
        out.text(": ");
        out.bytes(self.message.as_slice());
        out.text("\n");
        assert(out@ =~= self.raised());
        out
    }
}

impl ErrTrait for SrcErr {

}

/// A line of input could not be read.
#[derive(Debug)]
pub struct InpErr {
    pub message: Vec<u8>,
}

impl InpErr {
    /// A new `InpErr`.
    pub fn new(message: Vec<u8>) -> (r: Self)
        ensures
            r.message == message,
    {
        InpErr { message }
    }
}

impl ErrTraitBase for InpErr {
    open spec fn raised(&self) -> Seq<PieceView> {
        seq![
            PieceView::Text("IO Error:: Failed to read input stream; ".spec_bytes()),
            PieceView::Text(self.message@),
        ]
    }

    fn raise(&self) -> (r: Message) {
        let mut out = Message::new();
        out.text("IO Error:: Failed to read input stream; ");
        out.bytes(self.message.as_slice());
        assert(out@ =~= self.raised());
        out
    }
}

impl ErrTrait for InpErr {

}

} // verus!
