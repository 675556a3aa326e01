use crate::compiler::object::Instance;
use crate::vm::VM;
use vstd::prelude::*;

verus! {

impl VM {
    /// Puts `instance` on the heap and returns its handle. The heap only
    /// grows: a handle stays valid as long as the machine lives.
    pub fn allocate(&mut self, instance: Instance) -> (handle: usize)
        ensures
            handle == old(self)@.heap.len(),
            final(self)@.heap == old(self)@.heap.push(instance@),
            final(self)@.stack == old(self)@.stack,
            final(self)@.frames == old(self)@.frames,
            final(self)@.globals == old(self)@.globals,
    {
        let handle = self.heap.len();
        self.heap.push(instance);
        proof {
            assert(self@.heap =~= old(self)@.heap.push(instance@));
        }
        handle
    }
}

} // verus!
