//! The arguments of the interpreter.
use vstd::prelude::*;
use crate::runners::{InteractiveRunner, SrcRunner};
use crate::text::copy_bytes;

verus! {

/// The arguments: the path of the file that holds the program, if one was given.
#[derive(Debug)]
pub struct LoxArgs {
    pub src: Option<Vec<u8>>,
}

/// What the arguments ask for.
#[derive(Debug)]
pub enum Mode {
    /// Run the program in a file.
    Source(SrcRunner),
    /// Run programs as they are typed in.
    Interactive(InteractiveRunner),
}

impl LoxArgs {
    /// The runner that the arguments ask for: the file's where a path was
    /// given, the interactive one otherwise.
    pub fn process_req(&self) -> (r: Mode)
        ensures
            match self.src {
                Some(path) => r matches Mode::Source(runner) && runner.path@ == path@,
                None => r matches Mode::Interactive(runner) && runner.src@ == Seq::<u8>::empty(),
            },
    {
        match &self.src {
            Some(path) => Mode::Source(SrcRunner::new(copy_bytes(path.as_slice()))),
            None => Mode::Interactive(InteractiveRunner::new()),
        }
    }
}

} // verus!
