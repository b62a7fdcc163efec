//! The machine: tables of names, host functions, and the interpreter loop.
pub mod natives;
pub mod state;
pub mod table;
pub mod vm;
