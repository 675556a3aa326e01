use crate::syntax::token::TokenType;
use vstd::prelude::*;

verus! {

/// Why the lexer rejected a source text.
#[derive(Debug, Clone)]
pub enum SyntaxError {
    UnexpectedEOF,
    UnexpectedChar(char),
    UnterminatedString,
    ExpectAfter(&'static str, &'static str),
    ExpectBefore(&'static str, &'static str),
    Expect(&'static str),
    InvalidAssignment,
    TooManyArguments,
    TooManyParameters,
}

/// Why the parser rejected a token sequence.
#[derive(Debug, Clone, Copy, PartialEq, Eq, Structural)]
pub enum ParserError {
    /// No expression starts with this token.
    UnexpectedToken(TokenType),
    /// The first token type was needed where the second was found.
    Expect(TokenType, TokenType),
    /// A token was needed and none is left.
    UnexpectedEOF,
    /// The source holds a character that starts no token.
    UnexpectedChar(char),
    /// The source ends inside a string.
    UnterminatedString,
}

/// Why the compiler rejected a program.
#[derive(Debug, Clone, Copy, PartialEq, Eq, Structural)]
pub enum CompileError {
    /// A name is declared twice in one scope.
    DuplicateLocal,
    /// A local variable is read while its own initializer is compiled.
    OwnInitializer,
    /// A `return` stands outside any function.
    ReturnOutsideFunction,
    /// A call passes more arguments than one byte counts.
    TooManyArguments,
    /// A function declares more parameters than one byte counts.
    TooManyParameters,
    /// An array literal lists more elements than one byte counts.
    TooManyElements,
    /// A function needs more constants than one byte indexes.
    TooManyConstants,
    /// A function needs more local slots than one byte indexes.
    TooManyLocals,
    /// A jump spans more bytes than two bytes count.
    JumpTooLarge,
    /// Scopes are nested deeper than the compiler counts.
    TooManyScopes,
    /// A statement stands where a value is needed.
    ExpectedExpression,
    /// An imported module is not in the module table.
    UnresolvedImport,
    /// Imports are nested deeper than the compiler follows them.
    ImportTooDeep,
}

} // verus!
