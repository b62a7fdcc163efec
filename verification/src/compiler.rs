//! From source bytes to bytecode: tokens, scanner, parse rules, lexical
//! state and the parser.
pub mod compiler;
pub mod emission;
pub mod err;
pub mod grammar;
pub mod parser;
pub mod rules;
pub mod scanner;
pub mod statements;
pub mod token;
