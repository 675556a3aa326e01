use crate::compiler::opcode::Opcode;
use crate::compiler::value::{
    chunk_view, ChunkView, lemma_values_view, Value, values_view, ValueView,
};
use vstd::prelude::*;

verus! {

/// The most constants that one chunk can hold: an index is one byte.
pub const MAX_CONSTANTS: usize = 256;

/// A function's bytecode: the bytes, the constants that operands index, and
/// for each byte the source line that it came from.
#[derive(Debug)]
pub struct Chunk {
    pub name: Option<String>,
    pub code: Vec<u8>,
    pub constants: Vec<Value>,
    pub lines: Vec<usize>,
}

impl View for Chunk {
    type V = ChunkView;

    open spec fn view(&self) -> ChunkView {
        chunk_view(*self)
    }
}

impl ChunkView {
    /// The chunk without name, code or constants.
    pub open spec fn empty() -> ChunkView {
        ChunkView { name: None, code: Seq::empty(), constants: Seq::empty(), lines: Seq::empty() }
    }

    /// There is one line per byte, and every constant has a one-byte index.
    pub open spec fn wf(self) -> bool {
        &&& self.lines.len() == self.code.len()
        &&& self.constants.len() <= MAX_CONSTANTS
    }

    /// The line that a byte appended now belongs to: that of the byte before
    /// it, or 0 in an empty chunk.
    pub open spec fn current_line(self) -> usize {
        if self.lines.len() > 0 {
            self.lines.last()
        } else {
            0
        }
    }

    /// The chunk after `byte` was appended for source line `line`.
    pub open spec fn push(self, byte: u8, line: usize) -> ChunkView {
        ChunkView { code: self.code.push(byte), lines: self.lines.push(line), ..self }
    }

    /// The chunk after `value` was added to its constants.
    pub open spec fn with_constant(self, value: ValueView) -> ChunkView {
        ChunkView { constants: self.constants.push(value), ..self }
    }
}

impl Chunk {
    /// An empty chunk.
    pub fn new() -> (c: Chunk)
        ensures
            c@ == ChunkView::empty(),
            c@.wf(),
    {
        let c = Chunk { name: None, code: Vec::new(), constants: Vec::new(), lines: Vec::new() };
        proof {
            assert(values_view(c.constants@) =~= Seq::<ValueView>::empty());
        }
        c
    }

    /// Appends an opcode that stems from source line `line`.
    pub fn write(&mut self, opcode: Opcode, line: usize)
        ensures
            final(self)@ == old(self)@.push(opcode.byte(), line),
            old(self)@.wf() ==> final(self)@.wf(),
    {
        self.lines.push(line);
        self.code.push(opcode.to_byte());
    }

    /// Appends an operand byte; it belongs to the line of the byte before it.
    pub fn write_byte(&mut self, byte: u8)
        ensures
            final(self)@ == old(self)@.push(byte, old(self)@.current_line()),
            old(self)@.wf() ==> final(self)@.wf(),
    {
        let line = if self.lines.len() > 0 {
            self.lines[self.lines.len() - 1]
        } else {
            0
        };
        self.lines.push(line);
        self.code.push(byte);
    }

    /// Adds a constant and returns its index; `None`, and no change, when
    /// the chunk already holds `MAX_CONSTANTS` of them.
    pub fn add_constant(&mut self, value: Value) -> (index: Option<u8>)
        requires
            old(self)@.wf(),
        ensures
            final(self)@.wf(),
            match index {
                Some(i) => i == old(self)@.constants.len() && final(self)@ == old(self)@.with_constant(
                    value@,
                ),
                None => old(self)@.constants.len() == MAX_CONSTANTS && final(self)@ == old(self)@,
            },
    {
        let n = self.constants.len();
        proof {
            lemma_values_view(self.constants@);
        }
        if n >= MAX_CONSTANTS {
            return None;
        }
        self.constants.push(value);
        proof {
            assert(self.constants@ == old(self).constants@.push(value));
            assert(self@.constants == old(self)@.constants.push(value@));
        }
        Some(n as u8)
    }

    /// The chunk's name, to be set.
    pub fn name_mut(&mut self) -> (n: &mut Option<String>)
        ensures
            *n == old(self).name,
            final(self).name == *final(n),
            final(self).code == old(self).code,
            final(self).constants == old(self).constants,
            final(self).lines == old(self).lines,
    {
        &mut self.name
    }

    /// The bytes.
    pub fn code(&self) -> (c: &Vec<u8>)
        ensures
            c@ == self@.code,
    {
        &self.code
    }

    /// The bytes, to be patched. The caller keeps their number: there is one
    /// line for each.
    pub fn code_mut(&mut self) -> (c: &mut Vec<u8>)
        ensures
            *c == old(self).code,
            final(self).code == *final(c),
            final(self).name == old(self).name,
            final(self).constants == old(self).constants,
            final(self).lines == old(self).lines,
    {
        &mut self.code
    }

    /// The constants.
    pub fn constants(&self) -> (c: &Vec<Value>)
        ensures
            values_view(c@) == self@.constants,
    {
        &self.constants
    }

    /// The constant at `index`.
    pub fn read_constant(&self, index: usize) -> (v: &Value)
        requires
            index < self@.constants.len(),
        ensures
            v@ == self@.constants[index as int],
    {
        proof {
            lemma_values_view(self.constants@);
        }
        &self.constants[index]
    }
}

} // verus!
