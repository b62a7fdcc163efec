//! A single-pass bytecode compiler and stack machine for the Lox language.
//!
//! Source bytes are scanned into tokens and parsed by a Pratt parser, which
//! emits bytecode while it resolves each variable to a global, a slot of
//! the operand stack or a captured variable. The machine runs the bytecode
//! one instruction at a time.
//!
//! The machine does no input or output and no arithmetic on doubles. It
//! holds a number as the bits of a double, gathers the lines that a program
//! prints, and asks its driver for sums, products, quotients, numerals and
//! the results of host functions. The driver also gives the compiler the
//! value of each number literal.
pub mod args;
pub mod compiler;
pub mod errors;
pub mod instructions;
pub mod laws;
pub mod runners;
pub mod text;
pub mod values;
pub mod vm;
