//! Errors of scanning and parsing, and of the interpreter's own invariants.
use vstd::prelude::*;
use vstd::string::*;
use crate::errors::err::{ErrTrait, ErrTraitBase};
use crate::text::{decimal, push_bytes, push_decimal, push_repeated, push_text, repeated};
use crate::values::values::{Message, PieceView};

verus! {

/// What went wrong while scanning or parsing.
#[derive(Copy, Clone, Debug, PartialEq, Eq, Structural)]
pub enum SyntaxFault {
    /// A string literal with no closing quote.
    UnterminatedString,
    /// A byte that starts no token.
    UnexpectedCharacter,
    /// A token other than the one the grammar asks for.
    UnexpectedToken,
    /// A token that cannot start, or cannot continue, an expression.
    ExpectedExpression,
    /// `=` after something that is not a variable or a property.
    InvalidAssignmentTarget,
    /// `=` after the name of a constant.
    ConstAssignment,
    /// A name that no scope declares.
    UndefinedVariable,
    /// A second declaration of a name in one scope.
    Redeclaration,
    /// A handler met a token of a kind that it does not handle.
    InvalidOperator,
    /// The end of the source inside a block.
    UnexpectedEof,
    /// The values of the number literals ran out.
    MissingNumber,
    /// `this` outside a method.
    InvalidThis,
    /// The parser's own state is not what parsing leaves: no token before
    /// a handler that reads one, no scope to close, a jump to patch that
    /// is not in the chunk, or a count that cannot be counted any higher.
    Internal,
}

/// An error found at a place in the source: its message, the text of the
/// line, the line's number and the column.
#[derive(Debug)]
pub struct ScannerErr {
    pub fault: SyntaxFault,
    pub message: Vec<u8>,
    pub line_contents: Vec<u8>,
    pub line: usize,
    pub offset: usize,
}

/// Parse errors have the shape of scan errors.
pub type ParserErr = ScannerErr;

/// How far the caret is moved right: two less than the column, where the
/// column is at least two.
pub open spec fn caret_indent(offset: usize) -> nat {
    if offset < 2 {
        offset as nat
    } else {
        (offset - 2) as nat
    }
}

/// The rendered diagnostic: the line, a caret under the column, the message.
pub open spec fn diagnostic_text(
    message: Seq<u8>,
    line_contents: Seq<u8>,
    line: usize,
    offset: usize,
) -> Seq<u8> {
    "\nLine ".spec_bytes() + decimal(line as nat) + ": ".spec_bytes() + line_contents
        + "\n       ".spec_bytes() + repeated(32, caret_indent(offset)) + "^\n       ".spec_bytes()
        + repeated(32, caret_indent(offset)) + "------- ".spec_bytes() + message
        + "\n\n".spec_bytes()
}

impl ScannerErr {
    /// A new `ScannerErr`.
    pub fn new(
        fault: SyntaxFault,
        message: Vec<u8>,
        line_contents: Vec<u8>,
        line: usize,
        offset: usize,
    ) -> (r: Self)
        ensures
            r.fault == fault,
            r.message == message,
            r.line_contents == line_contents,
            r.line == line,
            r.offset == offset,
    {
        ScannerErr { fault, message, line_contents, line, offset }
    }

    /// The diagnostic as bytes.
    pub fn render(&self) -> (r: Vec<u8>)
        ensures
            r@ == diagnostic_text(self.message@, self.line_contents@, self.line, self.offset),
    {
        let indent: usize = if self.offset < 2 {
            self.offset
        } else {
            self.offset - 2
        };
        let mut out: Vec<u8> = Vec::new();
        push_text(&mut out, "\nLine ");
        push_decimal(&mut out, self.line);
        push_text(&mut out, ": ");
        push_bytes(&mut out, self.line_contents.as_slice());
        push_text(&mut out, "\n       ");
        push_repeated(&mut out, 32, indent);
        push_text(&mut out, "^\n       ");
        push_repeated(&mut out, 32, indent);
        push_text(&mut out, "------- ");
        push_bytes(&mut out, self.message.as_slice());
        push_text(&mut out, "\n\n");
        assert(out@ =~= diagnostic_text(
            self.message@,
            self.line_contents@,
            self.line,
            self.offset,
        ));
        out
    }

    /// The diagnostic as text.
    pub fn to_string(&self) -> (r: String)
        ensures
            r@ == crate::text::utf8_lossy(
                diagnostic_text(self.message@, self.line_contents@, self.line, self.offset),
            ),
    {
        let bytes = self.render();
        crate::text::lossy_string(bytes.as_slice())
    }
}

impl ErrTraitBase for ScannerErr {
    open spec fn raised(&self) -> Seq<PieceView> {
        seq![
            PieceView::Text(
                diagnostic_text(self.message@, self.line_contents@, self.line, self.offset),
            ),
        ]
    }

    fn raise(&self) -> (r: Message) {
        let bytes = self.render();
        Message::from_bytes(bytes.as_slice())
    }
}

impl ErrTrait for ScannerErr {

}

/// Several errors reported under one heading.
#[derive(Debug)]
pub struct GroupErr {
    pub errs: Vec<Message>,
    pub message: Vec<u8>,
    pub label: &'static str,
}

/// The texts of `errs`, one after the other.
pub open spec fn joined(errs: Seq<Message>) -> Seq<PieceView>
    decreases errs.len(),
{
    if errs.len() == 0 {
        Seq::<PieceView>::empty()
    } else {
        joined(errs.drop_last()) + errs.last()@
    }
}

impl GroupErr {
    /// A group of errors that have been rendered already.
    pub fn _new(label: &'static str, message: Vec<u8>, errs: Vec<Message>) -> (r: Self)
        ensures
            r.label == label,
            r.message == message,
            r.errs == errs,
    {
        GroupErr { errs, message, label }
    }

    /// The heading: label and message, underlined.
    pub open spec fn heading(&self) -> Seq<u8> {
        "\n".spec_bytes() + self.label.spec_bytes() + ":::   ".spec_bytes() + self.message@
            + "\n".spec_bytes() + repeated(
            61,
            (self.label.spec_bytes().len() + self.message@.len() + 6) as nat,
        ) + "\n\n".spec_bytes()
    }
}

impl ErrTraitBase for GroupErr {
    open spec fn raised(&self) -> Seq<PieceView> {
        seq![PieceView::Text(self.heading())] + joined(self.errs@)
    }

    fn raise(&self) -> (r: Message) {
        let mut head: Vec<u8> = Vec::new();
        push_text(&mut head, "\n");
        push_text(&mut head, self.label);
        push_text(&mut head, ":::   ");
        push_bytes(&mut head, self.message.as_slice());
        push_text(&mut head, "\n");
        let label_len = self.label.as_bytes().len();
        let message_len = self.message.len();
        let mut rule: Vec<u8> = Vec::new();
        push_repeated(&mut rule, 61, label_len);
        push_repeated(&mut rule, 61, message_len);
        push_repeated(&mut rule, 61, 6);
        assert(rule@ =~= repeated(61, (label_len + message_len + 6) as nat));
        push_bytes(&mut head, rule.as_slice());
        push_text(&mut head, "\n\n");
        assert(head@ =~= self.heading());
        let mut out = Message::from_bytes(head.as_slice());
        let mut i: usize = 0;
        while i < self.errs.len()
            invariant
                i <= self.errs.len(),
                out@ == seq![PieceView::Text(self.heading())] + joined(self.errs@.subrange(0, i as int)),
            decreases self.errs.len() - i,
        {
            out.append(&self.errs[i]);
            i += 1;
            assert(self.errs@.subrange(0, i as int).drop_last() =~= self.errs@.subrange(
                0,
                i - 1,
            ));
            assert(out@ =~= seq![PieceView::Text(self.heading())] + joined(
                self.errs@.subrange(0, i as int),
            ));
        }
        assert(self.errs@.subrange(0, i as int) =~= self.errs@);
        out
    }
}

impl ErrTrait for GroupErr {

}

/// An invariant of the interpreter itself was broken.
#[derive(Debug)]
pub struct InterpreterErr {
    pub message: Vec<u8>,
}

impl InterpreterErr {
    /// A new `InterpreterErr`.
    pub fn new(message: Vec<u8>) -> (r: Self)
        ensures
            r.message == message,
    {
        InterpreterErr { message }
    }
}

impl ErrTraitBase for InterpreterErr {
    open spec fn raised(&self) -> Seq<PieceView> {
        seq![
            PieceView::Text("Interpreter Error:: ".spec_bytes()),
            PieceView::Text(self.message@),
        ]
    }

    fn raise(&self) -> (r: Message) {
        let mut out = Message::new();
        out.text("Interpreter Error:: ");
        out.bytes(self.message.as_slice());
        assert(out@ =~= self.raised());
        out
    }
}

impl ErrTrait for InterpreterErr {

}

} // verus!
