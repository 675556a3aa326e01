pub mod balance;
pub mod chunk;
pub mod compiler;
pub mod disassembler;
pub mod instance;
pub mod laws;
pub mod local;
pub mod module_resolver;
pub mod object;
pub mod opcode;
pub mod rules;
pub mod typing;
pub mod value;
