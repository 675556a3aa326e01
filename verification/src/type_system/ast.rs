use vstd::prelude::*;

verus! {

/// A term of the lambda calculus with `let`: what type inference for the
/// language reads.
#[derive(Debug, PartialEq, Eq)]
pub enum Syntax {
    Lambda { v: String, body: Box<Syntax> },
    Identifier { name: String },
    Apply { func: Box<Syntax>, arg: Box<Syntax> },
    Let { v: String, defn: Box<Syntax>, body: Box<Syntax> },
    LetRec { v: String, defn: Box<Syntax>, body: Box<Syntax> },
}

} // verus!
