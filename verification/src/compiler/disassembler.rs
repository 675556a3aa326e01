//! Reads bytecode back into instructions, for diagnostics.

use crate::compiler::chunk::Chunk;
use crate::compiler::opcode::Opcode;
use crate::compiler::rules::distance_of;
use crate::compiler::typing::{decodes, next_of, opcode_at, operand_at, target_of};
use vstd::prelude::*;

verus! {

/// What stands behind an opcode.
#[derive(Debug, Clone, Copy, PartialEq, Eq, Structural)]
pub enum Operand {
    /// Nothing.
    Nothing,
    /// The index of a constant.
    Constant(u8),
    /// A slot, or a count of arguments or elements.
    Byte(u8),
    /// The distance of a jump and, where it stays inside `usize`, the
    /// offset at which the jump lands.
    Jump(u16, Option<usize>),
}

/// An instruction: where it stands, what it does, its operand, and where
/// the instruction behind it starts.
#[derive(Debug, Clone, Copy, PartialEq, Eq, Structural)]
pub struct Instruction {
    pub offset: usize,
    pub opcode: Opcode,
    pub operand: Operand,
    pub next: usize,
}

/// How the operand of an opcode is read.
pub open spec fn operand_kind(opcode: Opcode) -> int {
    match opcode {
        Opcode::Constant
        | Opcode::DefineGlobal
        | Opcode::GetGlobal
        | Opcode::SetGlobal
        | Opcode::Closure
        | Opcode::Class
        | Opcode::GetProperty
        | Opcode::SetProperty => 1,
        Opcode::GetLocal | Opcode::SetLocal | Opcode::Call | Opcode::NewArray => 2,
        Opcode::JumpIfFalse | Opcode::Jump | Opcode::Loop => 3,
        _ => 0,
    }
}

/// The instruction at `offset`, where the bytes from there on are one.
pub open spec fn instruction_at(code: Seq<u8>, offset: int) -> Option<Instruction> {
    match opcode_at(code, offset) {
        Some(opcode) => if next_of(code, offset) <= code.len() {
            let target = target_of(code, offset);
            Some(
                Instruction {
                    offset: offset as usize,
                    opcode,
                    operand: if operand_kind(opcode) == 1 {
                        Operand::Constant(operand_at(code, offset))
                    } else if operand_kind(opcode) == 2 {
                        Operand::Byte(operand_at(code, offset))
                    } else if operand_kind(opcode) == 3 {
                        Operand::Jump(
                            distance_of(code[offset + 1], code[offset + 2]) as u16,
                            if 0 <= target <= usize::MAX {
                                Some(target as usize)
                            } else {
                                None
                            },
                        )
                    } else {
                        Operand::Nothing
                    },
                    next: next_of(code, offset) as usize,
                },
            )
        } else {
            None
        },
        None => None,
    }
}

/// The instructions from `offset` on, up to the end of the code or to the
/// first byte that starts none.
pub open spec fn instructions_from(code: Seq<u8>, offset: int) -> Seq<Instruction>
    decreases code.len() - offset,
{
    match instruction_at(code, offset) {
        Some(i) => if offset < i.next <= code.len() {
            seq![i] + instructions_from(code, i.next as int)
        } else {
            seq![i]
        },
        None => Seq::empty(),
    }
}

/// An instruction without operand.
pub fn simple_instruction(opcode: Opcode, offset: usize) -> (i: Instruction)
    requires
        offset < usize::MAX,
    ensures
        i == (Instruction { offset, opcode, operand: Operand::Nothing, next: (offset + 1) as usize }),
{
    Instruction { offset, opcode, operand: Operand::Nothing, next: offset + 1 }
}

/// An instruction whose operand is the index of a constant.
pub fn constant_instruction(chunk: &Chunk, opcode: Opcode, offset: usize) -> (i: Instruction)
    requires
        offset + 2 <= chunk.code@.len(),
    ensures
        i == (Instruction {
            offset,
            opcode,
            operand: Operand::Constant(chunk.code@[offset + 1]),
            next: (offset + 2) as usize,
        }),
{
    assert(offset + 2 <= chunk.code.len());
    let constant = chunk.code[offset + 1];
    Instruction { offset, opcode, operand: Operand::Constant(constant), next: offset + 2 }
}

/// An instruction whose operand is a slot or a count.
pub fn byte_instruction(chunk: &Chunk, opcode: Opcode, offset: usize) -> (i: Instruction)
    requires
        offset + 2 <= chunk.code@.len(),
    ensures
        i == (Instruction {
            offset,
            opcode,
            operand: Operand::Byte(chunk.code@[offset + 1]),
            next: (offset + 2) as usize,
        }),
{
    assert(offset + 2 <= chunk.code.len());
    let slot = chunk.code[offset + 1];
    Instruction { offset, opcode, operand: Operand::Byte(slot), next: offset + 2 }
}

/// A jump: forward, or backward where `backward` says so.
pub fn jump_instruction(chunk: &Chunk, opcode: Opcode, backward: bool, offset: usize) -> (i:
    Instruction)
    requires
        offset + 3 <= chunk.code@.len(),
    ensures
        i.offset == offset,
        i.opcode == opcode,
        i.next == offset + 3,
        i.operand == Operand::Jump(
            distance_of(chunk.code@[offset + 1], chunk.code@[offset + 2]) as u16,
            ({
                let distance = distance_of(chunk.code@[offset + 1], chunk.code@[offset + 2]);
                let target = if backward {
                    offset + 3 - distance
                } else {
                    offset + 3 + distance
                };
                if 0 <= target <= usize::MAX {
                    Some(target as usize)
                } else {
                    None
                }
            }),
        ),
{
    assert(offset + 3 <= chunk.code.len());
    let hi = chunk.code[offset + 1] as u16;
    let lo = chunk.code[offset + 2] as u16;
    let jump: u16 = hi * 256 + lo;
    let behind = offset + 3;
    let target = if backward {
        if jump as usize <= behind {
            Some(behind - jump as usize)
        } else {
            None
        }
    } else {
        if jump as usize <= usize::MAX - behind {
            Some(behind + jump as usize)
        } else {
            None
        }
    };
    Instruction { offset, opcode, operand: Operand::Jump(jump, target), next: behind }
}

/// The instruction at `offset`, or `None` where the bytes from there on
/// are none: an unknown opcode, or an operand cut short.
pub fn disassemble_instruction(chunk: &Chunk, offset: usize) -> (r: Option<Instruction>)
    ensures
        r == instruction_at(chunk@.code, offset as int),
{
    if offset >= chunk.code.len() {
        return None;
    }
    let instruction = match Opcode::from_byte(chunk.code[offset]) {
        Some(op) => op,
        None => {
            return None;
        },
    };
    if instruction.width() > chunk.code.len() - offset - 1 {
        return None;
    }
    Some(
        match instruction {
            Opcode::Return => simple_instruction(instruction, offset),
            Opcode::Constant => constant_instruction(chunk, instruction, offset),
            Opcode::Add => simple_instruction(instruction, offset),
            Opcode::Subtract => simple_instruction(instruction, offset),
            Opcode::Multiply => simple_instruction(instruction, offset),
            Opcode::Divide => simple_instruction(instruction, offset),
            Opcode::Print => simple_instruction(instruction, offset),
            Opcode::Equal => simple_instruction(instruction, offset),
            Opcode::Greater => simple_instruction(instruction, offset),
            Opcode::Less => simple_instruction(instruction, offset),
            Opcode::Not => simple_instruction(instruction, offset),
            Opcode::Negate => simple_instruction(instruction, offset),
            Opcode::DefineGlobal => constant_instruction(chunk, instruction, offset),
            Opcode::GetGlobal => constant_instruction(chunk, instruction, offset),
            Opcode::SetGlobal => constant_instruction(chunk, instruction, offset),
            Opcode::JumpIfFalse => jump_instruction(chunk, instruction, false, offset),
            Opcode::Jump => jump_instruction(chunk, instruction, false, offset),
            Opcode::Pop => simple_instruction(instruction, offset),
            Opcode::GetLocal => byte_instruction(chunk, instruction, offset),
            Opcode::SetLocal => byte_instruction(chunk, instruction, offset),
            Opcode::Nil => simple_instruction(instruction, offset),
            Opcode::Call => byte_instruction(chunk, instruction, offset),
            Opcode::Closure => constant_instruction(chunk, instruction, offset),
            Opcode::Loop => jump_instruction(chunk, instruction, true, offset),
            Opcode::NewArray => byte_instruction(chunk, instruction, offset),
            Opcode::IndexSubscript => simple_instruction(instruction, offset),
            Opcode::StoreSubscript => simple_instruction(instruction, offset),
            Opcode::Class => constant_instruction(chunk, instruction, offset),
            Opcode::GetProperty => constant_instruction(chunk, instruction, offset),
            Opcode::SetProperty => constant_instruction(chunk, instruction, offset),
        },
    )
}

/// The instructions of `chunk` in order, up to its end or to the first
/// byte that starts none.
pub fn disassemble(chunk: &Chunk) -> (r: Vec<Instruction>)
    ensures
        r@ == instructions_from(chunk@.code, 0),
{
    let mut out: Vec<Instruction> = Vec::new();
    let mut offset: usize = 0;
    loop
        invariant
            offset <= chunk.code.len(),
            instructions_from(chunk@.code, 0) == out@ + instructions_from(
                chunk@.code,
                offset as int,
            ),
        decreases chunk.code.len() - offset,
    {
        match disassemble_instruction(chunk, offset) {
            Some(i) => {
                let ghost before = out@;
                out.push(i);
                proof {
                    let rest = instructions_from(chunk@.code, i.next as int);
                    assert(before + (seq![i] + rest) =~= before.push(i) + rest);
                }
                offset = i.next;
            },
            None => {
                proof {
                    assert(out@ + Seq::<Instruction>::empty() =~= out@);
                }
                return out;
            },
        }
    }
}

/// Where bytes are whole instructions, reading them back instruction by
/// instruction reaches their end.
pub proof fn lemma_instructions_cover(code: Seq<u8>, from: int)
    requires
        0 <= from,
        code.len() <= usize::MAX,
        decodes(code, from, code.len() as int),
    ensures
        from < code.len() ==> instructions_from(code, from).len() > 0,
        forall|k: int|
            0 <= k < instructions_from(code, from).len() ==> opcode_at(
                code,
                (#[trigger] instructions_from(code, from)[k]).offset as int,
            ) == Some(instructions_from(code, from)[k].opcode),
        instructions_from(code, from).len() > 0 ==> instructions_from(code, from).last().next
            == code.len(),
    decreases code.len() - from,
{
    if from < code.len() {
        let i = instruction_at(code, from)->0;
        lemma_instructions_cover(code, i.next as int);
        let rest = instructions_from(code, i.next as int);
        let all = instructions_from(code, from);
        assert(all == seq![i] + rest);
        assert forall|k: int| 0 <= k < all.len() implies opcode_at(
            code,
            (#[trigger] all[k]).offset as int,
        ) == Some(all[k].opcode) by {
            if k > 0 {
                assert(all[k] == rest[k - 1]);
            }
        }
        if rest.len() > 0 {
            assert(all.last() == rest.last());
        }
    }
}

} // verus!
