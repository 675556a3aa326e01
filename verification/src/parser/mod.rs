pub mod ast;
pub mod grammar;
pub mod parser;
pub mod rule;
