//! What every error can do, and the errors of reading a program.
pub mod err;
pub mod ioerr;
