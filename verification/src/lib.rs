//! A small scripting-language toolchain: source text is lexed and parsed into
//! an abstract syntax tree, the tree is compiled to bytecode, and a stack
//! machine executes the bytecode.
//!
//! Numbers are IEEE-754 binary64 values carried as their 64-bit patterns. The
//! verified code never computes with them: arithmetic, comparison and the
//! decoding of number literals are left to the embedding program, which
//! also does the printing and keeps the machine running.
//!
//! The language has had two grammars. `scanner` and `parser` read the first,
//! in which blocks open with `then` and a line break; `syntax` reads the
//! second, in which they open with `do`, and it is the trees of the second
//! that `compiler` compiles and `vm` runs.

pub mod compiler;
pub mod error;
pub mod parser;
pub mod scanner;
pub mod syntax;
pub mod text;
pub mod type_system;
pub mod vm;
