use vstd::prelude::*;

verus! {

/// Why a source text is not a program.
#[derive(Debug, Clone)]
pub enum SyntaxError {
    UnexpectedEOF,
    UnexpectedChar(char),
    UnterminatedString,
    ExpectAfter(&'static str, &'static str),
    ExpectBefore(&'static str, &'static str),
    Expect(&'static str),
    InvalidAssignment,
    TooManyArguments,
    TooManyParameters,
}

} // verus!
