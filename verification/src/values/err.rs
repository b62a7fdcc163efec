//! Errors of using a value for what it is not.
use vstd::prelude::*;
use vstd::string::*;
use crate::errors::err::{ErrTrait, ErrTraitBase};
use crate::instructions::err::RuntimeFault;
use crate::values::values::{Message, PieceView};

verus! {

/// An error raised by a value.
#[derive(Debug)]
pub struct ValueErr {
    pub fault: RuntimeFault,
    pub message: Message,
    pub instruction_str: Message,
}

impl ValueErr {
    /// A new `ValueErr`.
    pub fn new(fault: RuntimeFault, message: Message, instruction_str: Message) -> (r: Self)
        ensures
            r.fault == fault,
            r.message == message,
            r.instruction_str == instruction_str,
    {
        ValueErr { fault, message, instruction_str }
    }

    /// The error in one line: the value or call, then the message.
    pub open spec fn described(&self) -> Seq<PieceView> {
        seq![PieceView::Text("Value Err::: ".spec_bytes())] + self.instruction_str@ + seq![
            PieceView::Text(": ".spec_bytes()),
        ] + self.message@ + seq![PieceView::Text(" ".spec_bytes())]
    }

    /// Renders `described`.
    pub fn describe(&self) -> (r: Message)
        ensures
            r@ == self.described(),
    {
        let mut out = Message::new();
        out.text("Value Err::: ");
        out.append(&self.instruction_str);
        out.text(": ");
        out.append(&self.message);
        out.text(" ");
        assert(out@ =~= self.described());
        out
    }
}

impl ErrTraitBase for ValueErr {
    open spec fn raised(&self) -> Seq<PieceView> {
        self.message@.push(PieceView::Text("\n".spec_bytes()))
    }

    fn raise(&self) -> (r: Message) {
        let mut out = self.message.copy();
        out.text("\n");
        out
    }
}

impl ErrTrait for ValueErr {

}

} // verus!
