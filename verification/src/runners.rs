//! The two ways to run the interpreter: on a source file, and line by line.
//!
//! Reading the file and the lines is the driver's work. What is decided
//! here is what the driver shows and when a program is complete.
use vstd::prelude::*;
use vstd::string::*;
use crate::errors::ioerr::SrcErr;
use crate::text::{copy_bytes, push_bytes, push_text};

verus! {

/// Runs the program in a file.
#[derive(Debug)]
pub struct SrcRunner {
    pub path: Vec<u8>,
}

/// The message for a file that cannot be read.
pub open spec fn missing_message(path: Seq<u8>) -> Seq<u8> {
    "Could not find src file: ".spec_bytes() + path
}

impl SrcRunner {
    /// A runner for the file at `path`.
    pub fn new(path: Vec<u8>) -> (r: Self)
        ensures
            r.path == path,
    {
        SrcRunner { path }
    }

    /// The error to raise where the file cannot be read.
    pub fn missing(&self) -> (r: SrcErr)
        ensures
            r.message@ == missing_message(self.path@),
            r.expected_stream@ == self.path@,
    {
        let mut message: Vec<u8> = Vec::new();
        push_text(&mut message, "Could not find src file: ");
        push_bytes(&mut message, self.path.as_slice());
        SrcErr::new(message, copy_bytes(self.path.as_slice()))
    }
}

/// Runs programs that are typed in: lines are gathered until an empty
/// line ends the program.
#[derive(Debug)]
pub struct InteractiveRunner {
    pub src: Vec<u8>,
}

/// Whether `line` is a line break and nothing else.
pub open spec fn empty_line(line: Seq<u8>) -> bool {
    line == seq![10u8]
}

/// Whether `line` is left out of the program: a line break or a carriage
/// return and nothing else.
pub open spec fn skipped_line(line: Seq<u8>) -> bool {
    line == seq![10u8] || line == seq![13u8]
}

impl InteractiveRunner {
    /// A runner that has gathered nothing.
    pub fn new() -> (r: Self)
        ensures
            r.src@ == Seq::<u8>::empty(),
    {
        InteractiveRunner { src: Vec::new() }
    }

    /// What is shown once, before the first prompt.
    pub fn banner() -> (r: &'static str)
        ensures
            r@ == "The Lox Interpreter\n"@,
    {
        "The Lox Interpreter\n"
    }

    /// The prompt: `>>>  ` at the start of a program, `...  ` inside one.
    pub fn prompt(&self) -> (r: &'static str)
        ensures
            r@ == if self.src@.len() > 0 {
                "...  "@
            } else {
                ">>>  "@
            },
    {
        if self.src.len() > 0 {
            "...  "
        } else {
            ">>>  "
        }
    }

    /// Takes a line that was read, with its line break. An empty line
    /// after at least one other line completes the program: the program is
    /// returned and the runner starts afresh. Any other line joins the
    /// program, unless it is a line break or a carriage return alone.
    pub fn feed(&mut self, line: &[u8]) -> (r: Option<Vec<u8>>)
        ensures
            r is Some <==> empty_line(line@) && old(self).src@.len() > 0,
            r is Some ==> r->Some_0@ == old(self).src@ && final(self).src@ == Seq::<u8>::empty(),
            r is None ==> final(self).src@ == if skipped_line(line@) {
                old(self).src@
            } else {
                old(self).src@ + line@
            },
    {
        let is_break = line.len() == 1 && line[0] == 10;
        let is_return = line.len() == 1 && line[0] == 13;
        assert(is_break == empty_line(line@)) by {
            if is_break {
                assert(line@ =~= seq![10u8]);
            }
        }
        assert((is_break || is_return) == skipped_line(line@)) by {
            if is_return {
                assert(line@ =~= seq![13u8]);
            }
            if is_break {
                assert(line@ =~= seq![10u8]);
            }
        }
        if is_break && self.src.len() > 0 {
            let mut program: Vec<u8> = Vec::new();
            core::mem::swap(&mut program, &mut self.src);
            return Some(program);
        }
        if !is_break && !is_return {
            push_bytes(&mut self.src, line);
        }
        None
    }
}

} // verus!
