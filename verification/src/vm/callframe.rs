use crate::compiler::object::GreenClosure;
use crate::compiler::value::{function_view, FunctionView};
use std::rc::Rc;
use vstd::prelude::*;

verus! {

/// One active call: the closure that runs, the offset of its next
/// instruction, and where its window of the stack starts. Slot 0 of the
/// window holds the callee, the slots behind it the arguments.
#[derive(Debug)]
pub struct CallFrame {
    pub closure: Rc<GreenClosure>,
    pub ip: usize,
    pub stack_start: usize,
}

/// The mathematical value of a `CallFrame`.
pub ghost struct FrameView {
    pub function: FunctionView,
    pub ip: int,
    pub stack_start: int,
}

impl View for CallFrame {
    type V = FrameView;

    open spec fn view(&self) -> FrameView {
        FrameView {
            function: function_view(*self.closure.function),
            ip: self.ip as int,
            stack_start: self.stack_start as int,
        }
    }
}

impl CallFrame {
    /// The frame of a call that is about to start: its first instruction is
    /// next.
    pub fn new(closure: Rc<GreenClosure>, stack_start: usize) -> (f: CallFrame)
        ensures
            f.closure == closure,
            f@ == (FrameView { function: closure@, ip: 0, stack_start: stack_start as int }),
    {
        CallFrame { closure, ip: 0, stack_start }
    }

    pub fn closure(&self) -> (c: &Rc<GreenClosure>)
        ensures
            *c == self.closure,
    {
        &self.closure
    }

    pub fn closure_mut(&mut self) -> (c: &mut Rc<GreenClosure>)
        ensures
            *c == old(self).closure,
            final(self).closure == *final(c),
            final(self).ip == old(self).ip,
            final(self).stack_start == old(self).stack_start,
    {
        &mut self.closure
    }

    pub fn ip(&self) -> (ip: &usize)
        ensures
            *ip == self@.ip,
    {
        &self.ip
    }

    pub fn ip_mut(&mut self) -> (ip: &mut usize)
        ensures
            *ip == old(self)@.ip,
            final(self)@ == (FrameView { ip: *final(ip) as int, ..old(self)@ }),
    {
        &mut self.ip
    }

    pub fn stack_start(&self) -> (s: &usize)
        ensures
            *s == self@.stack_start,
    {
        &self.stack_start
    }
}

} // verus!
