use vstd::prelude::*;

verus! {

/// A block-scoped variable at compile time: its name and the depth of the
/// scope that declared it. Depth -1 marks a variable that is declared but
/// not yet initialized.
#[derive(Debug)]
pub struct Local {
    pub name: String,
    pub depth: i32,
}

/// The mathematical value of a `Local`.
pub ghost struct LocalView {
    pub name: Seq<char>,
    pub depth: int,
}

impl View for Local {
    type V = LocalView;

    open spec fn view(&self) -> LocalView {
        LocalView { name: self.name@, depth: self.depth as int }
    }
}

impl Local {
    /// The local called `name`, declared at `depth`.
    pub fn new(name: String, depth: i32) -> (l: Local)
        ensures
            l@ == (LocalView { name: name@, depth: depth as int }),
    {
        Local { name, depth }
    }

    /// The local's name.
    pub fn name(&self) -> (n: &String)
        ensures
            n@ == self@.name,
    {
        &self.name
    }

    /// The depth of the declaring scope.
    pub fn depth(&self) -> (d: &i32)
        ensures
            *d == self@.depth,
    {
        &self.depth
    }

    /// The depth of the declaring scope, to be set.
    pub fn depth_mut(&mut self) -> (d: &mut i32)
        ensures
            *d == old(self)@.depth,
            final(self)@ == (LocalView { name: old(self)@.name, depth: *final(d) as int }),
    {
        &mut self.depth
    }
}

} // verus!
