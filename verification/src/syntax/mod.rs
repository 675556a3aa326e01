pub mod compile;
pub mod error;
pub mod expr;
pub mod grammar;
pub mod lexer;
pub mod morpher;
pub mod parser;
pub mod peek;
pub mod rule;
pub mod token;
