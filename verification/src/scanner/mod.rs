pub mod lexer;
pub mod morpher;
pub mod token;
