use vstd::prelude::*;

verus! {

/// Why a run was aborted.
#[derive(Debug)]
pub enum RuntimeError {
    /// An operand has the wrong type for the operation: a non-number in
    /// arithmetic, a non-array indexed, a non-callable called, a property
    /// access on a non-instance, a constant of the wrong kind.
    ArgumentTypes,
    /// A value was needed from an empty stack.
    StackEmpty,
    /// An index (first field) lies beyond the end of the stack, of a frame's
    /// window or of an array, whose height or length is the second field.
    BadStackIndex(usize, usize),
    /// A global variable was read or assigned before it was defined.
    UndefinedGlobal(String),
    /// A property was read that the instance does not have.
    UndefinedProperty(String),
    /// A return was asked for while no frame is active.
    ReturnFromTopLevel,
    /// A closure that declares the first number of parameters was called with
    /// the second number of arguments.
    ArityMismatch(u8, u8),
    /// The bytecode at this offset is not an instruction: an unknown opcode,
    /// an operand cut short, a constant index outside the pool, or a jump
    /// that leaves the code.
    InvalidBytecode(usize),
}

/// The mathematical value of a `RuntimeError`.
pub ghost enum RuntimeErrorView {
    ArgumentTypes,
    StackEmpty,
    BadStackIndex(usize, usize),
    UndefinedGlobal(Seq<char>),
    UndefinedProperty(Seq<char>),
    ReturnFromTopLevel,
    ArityMismatch(u8, u8),
    InvalidBytecode(usize),
}

impl View for RuntimeError {
    type V = RuntimeErrorView;

    open spec fn view(&self) -> RuntimeErrorView {
        match self {
            RuntimeError::ArgumentTypes => RuntimeErrorView::ArgumentTypes,
            RuntimeError::StackEmpty => RuntimeErrorView::StackEmpty,
            RuntimeError::BadStackIndex(i, n) => RuntimeErrorView::BadStackIndex(*i, *n),
            RuntimeError::UndefinedGlobal(s) => RuntimeErrorView::UndefinedGlobal(s@),
            RuntimeError::UndefinedProperty(s) => RuntimeErrorView::UndefinedProperty(s@),
            RuntimeError::ReturnFromTopLevel => RuntimeErrorView::ReturnFromTopLevel,
            RuntimeError::ArityMismatch(e, g) => RuntimeErrorView::ArityMismatch(*e, *g),
            RuntimeError::InvalidBytecode(o) => RuntimeErrorView::InvalidBytecode(*o),
        }
    }
}

} // verus!
