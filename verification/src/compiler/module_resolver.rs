use crate::syntax::parser::ModuleAst;
use vstd::prelude::*;

verus! {

/// Why an import failed.
#[derive(Debug, Clone, Copy, PartialEq, Eq, Structural)]
pub enum ImportModuleError {
    FailedImport,
}

/// The modules that a program may import, each under its dotted name. Whoever
/// reads the module files fills the table; the compiler only looks names up.
#[derive(Debug)]
pub struct ModuleTable {
    pub names: Vec<String>,
    pub modules: Vec<ModuleAst>,
}

impl ModuleTable {
    /// Every name has its module.
    pub open spec fn wf(&self) -> bool {
        self.names@.len() == self.modules@.len()
    }

    /// The first of the entries `from ..` that is called `name`.
    pub open spec fn find_from(&self, name: Seq<char>, from: int) -> Option<int>
        decreases self.names@.len() - from,
    {
        if from < 0 || from >= self.names@.len() {
            None
        } else if self.names@[from]@ == name {
            Some(from)
        } else {
            self.find_from(name, from + 1)
        }
    }

    /// The first entry called `name`.
    pub open spec fn find(&self, name: Seq<char>) -> Option<int> {
        self.find_from(name, 0)
    }

    /// What `find_from` finds is an entry called `name`.
    pub proof fn lemma_find_from(&self, name: Seq<char>, from: int)
        requires
            0 <= from,
        ensures
            self.find_from(name, from) matches Some(i) ==> from <= i < self.names@.len()
                && self.names@[i]@ == name,
        decreases self.names@.len() - from,
    {
        if from < self.names@.len() && self.names@[from]@ != name {
            self.lemma_find_from(name, from + 1);
        }
    }

    /// The table without entries.
    pub fn new() -> (t: ModuleTable)
        ensures
            t.wf(),
            t.names@.len() == 0,
            forall|name: Seq<char>| t.find(name) is None,
    {
        ModuleTable { names: Vec::new(), modules: Vec::new() }
    }

    /// Adds `module` under `name`, behind the entries that are there.
    pub fn insert(&mut self, name: String, module: ModuleAst)
        requires
            old(self).wf(),
        ensures
            final(self).wf(),
            final(self).names@ == old(self).names@.push(name),
            final(self).modules@ == old(self).modules@.push(module),
    {
        self.names.push(name);
        self.modules.push(module);
    }
}

/// The module called `module`: the first entry of that name in `table`, and
/// `FailedImport` if and only if there is none.
pub fn get_module_ast<'a>(table: &'a ModuleTable, module: &String) -> (r: Result<
    &'a ModuleAst,
    ImportModuleError,
>)
    requires
        table.wf(),
    ensures
        match r {
            Ok(m) => table.find(module@) matches Some(i) && *m == table.modules@[i],
            Err(e) => table.find(module@) is None,
        },
{
    let mut i: usize = 0;
    while i < table.names.len()
        invariant
            table.wf(),
            i <= table.names.len(),
            table.find(module@) == table.find_from(module@, i as int),
        decreases table.names.len() - i,
    {
        if table.names[i] == *module {
            return Ok(&table.modules[i]);
        }
        i += 1;
    }
    Err(ImportModuleError::FailedImport)
}

} // verus!
