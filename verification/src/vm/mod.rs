use crate::compiler::object::{GreenFunction, Instance};
use crate::compiler::value::{Value, values_view, ValueView};
use crate::vm::callframe::CallFrame;
use crate::vm::errors::RuntimeError;
use crate::vm::semantics::{load, run, VMView};
use crate::vm::vm::{Action, lands};
use vstd::hash_map::StringHashMap;
use vstd::prelude::*;

pub mod callframe;
pub mod errors;
pub mod gc;
pub mod laws;
pub mod program;
pub mod semantics;
pub mod vm;

verus! {

/// The stack machine: a value stack that all calls share, the active calls,
/// the global variables, and the heap of instances.
pub struct VM {
    pub stack: Vec<Value>,
    pub frames: Vec<CallFrame>,
    pub globals: StringHashMap<Value>,
    pub heap: Vec<Instance>,
}

impl View for VM {
    type V = VMView;

    open spec fn view(&self) -> VMView {
        VMView {
            stack: values_view(self.stack@),
            frames: self.frames@.map_values(|f: CallFrame| f@),
            globals: self.globals@.map_values(|v: Value| v@),
            heap: self.heap@.map_values(|i: Instance| i@),
        }
    }
}

impl VM {
    /// A machine with nothing on its stack, no call active, no globals and
    /// an empty heap.
    pub fn new() -> (vm: VM)
        ensures
            vm@ == (VMView {
                stack: Seq::empty(),
                frames: Seq::empty(),
                globals: Map::empty(),
                heap: Seq::empty(),
            }),
            vm@.wf(),
    {
        let vm = VM {
            stack: Vec::new(),
            frames: Vec::new(),
            globals: StringHashMap::new(),
            heap: Vec::new(),
        };
        proof {
            assert(vm@.stack =~= Seq::<ValueView>::empty());
            assert(vm@.frames =~= Seq::empty());
            assert(vm@.globals =~= Map::empty());
            assert(vm@.heap =~= Seq::empty());
        }
        vm
    }

    /// Loads `function` and runs it for up to `budget` instructions: until
    /// the machine asks for something, fails, or has spent the budget. The
    /// caller does what is asked and goes on with `run`, `resume` or
    /// `resume_index`. After a failure the machine is in the state in
    /// which the failing instruction began: what ran before it has taken
    /// effect, the instruction itself has not.
    pub fn interpret(&mut self, function: GreenFunction, budget: usize) -> (r: Result<
        Action,
        RuntimeError,
    >)
        ensures
            lands(run(load(old(self)@, function@), budget as nat), r, final(self)@),
            r is Ok && old(self)@.wf() ==> final(self)@.wf(),
    {
        self.load(function);
        self.run(budget)
    }
}

} // verus!
