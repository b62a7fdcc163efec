//! The instruction set: what each instruction holds and what it does to the
//! machine, and the chunk that holds a function's instructions.
pub mod binary;
pub mod call;
pub mod chunk;
pub mod constant;
pub mod define;
pub mod err;
pub mod instructions;
pub mod jump;
pub mod print;
pub mod properties;
pub mod return_inst;
pub mod show;
pub mod unary;
