//! Runtime values and the objects they refer to.
pub mod err;
pub mod func;
pub mod number;
pub mod obj;
pub mod values;
