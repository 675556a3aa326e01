pub mod ast;
pub mod repl;
