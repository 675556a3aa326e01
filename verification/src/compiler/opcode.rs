use vstd::prelude::*;

verus! {

/// One instruction of the stack machine. An instruction is its opcode byte
/// followed by the operand bytes that `operand_width` counts.
#[derive(Debug, Clone, Copy, PartialEq, Eq, Structural)]
pub enum Opcode {
    Return,
    Constant,
    Add,
    Subtract,
    Multiply,
    Divide,
    Print,
    Equal,
    Greater,
    Less,
    Not,
    Negate,
    DefineGlobal,
    GetGlobal,
    SetGlobal,
    JumpIfFalse,
    Jump,
    Pop,
    GetLocal,
    SetLocal,
    Nil,
    Call,
    Closure,
    Loop,
    NewArray,
    IndexSubscript,
    StoreSubscript,
    Class,
    GetProperty,
    SetProperty,
}

/// Number of opcodes; the bytes `0 .. OPCODE_COUNT` each encode one.
pub const OPCODE_COUNT: u8 = 30;

impl Opcode {
    /// The byte that encodes this opcode.
    pub open spec fn byte(self) -> u8 {
        match self {
            Opcode::Return => 0u8,
            Opcode::Constant => 1u8,
            Opcode::Add => 2u8,
            Opcode::Subtract => 3u8,
            Opcode::Multiply => 4u8,
            Opcode::Divide => 5u8,
            Opcode::Print => 6u8,
            Opcode::Equal => 7u8,
            Opcode::Greater => 8u8,
            Opcode::Less => 9u8,
            Opcode::Not => 10u8,
            Opcode::Negate => 11u8,
            Opcode::DefineGlobal => 12u8,
            Opcode::GetGlobal => 13u8,
            Opcode::SetGlobal => 14u8,
            Opcode::JumpIfFalse => 15u8,
            Opcode::Jump => 16u8,
            Opcode::Pop => 17u8,
            Opcode::GetLocal => 18u8,
            Opcode::SetLocal => 19u8,
            Opcode::Nil => 20u8,
            Opcode::Call => 21u8,
            Opcode::Closure => 22u8,
            Opcode::Loop => 23u8,
            Opcode::NewArray => 24u8,
            Opcode::IndexSubscript => 25u8,
            Opcode::StoreSubscript => 26u8,
            Opcode::Class => 27u8,
            Opcode::GetProperty => 28u8,
            Opcode::SetProperty => 29u8,
        }
    }

    /// The opcode that a byte encodes, if any.
    pub open spec fn decode(byte: u8) -> Option<Opcode> {
        if byte == 0 {
            Some(Opcode::Return)
        } else if byte == 1 {
            Some(Opcode::Constant)
        } else if byte == 2 {
            Some(Opcode::Add)
        } else if byte == 3 {
            Some(Opcode::Subtract)
        } else if byte == 4 {
            Some(Opcode::Multiply)
        } else if byte == 5 {
            Some(Opcode::Divide)
        } else if byte == 6 {
            Some(Opcode::Print)
        } else if byte == 7 {
            Some(Opcode::Equal)
        } else if byte == 8 {
            Some(Opcode::Greater)
        } else if byte == 9 {
            Some(Opcode::Less)
        } else if byte == 10 {
            Some(Opcode::Not)
        } else if byte == 11 {
            Some(Opcode::Negate)
        } else if byte == 12 {
            Some(Opcode::DefineGlobal)
        } else if byte == 13 {
            Some(Opcode::GetGlobal)
        } else if byte == 14 {
            Some(Opcode::SetGlobal)
        } else if byte == 15 {
            Some(Opcode::JumpIfFalse)
        } else if byte == 16 {
            Some(Opcode::Jump)
        } else if byte == 17 {
            Some(Opcode::Pop)
        } else if byte == 18 {
            Some(Opcode::GetLocal)
        } else if byte == 19 {
            Some(Opcode::SetLocal)
        } else if byte == 20 {
            Some(Opcode::Nil)
        } else if byte == 21 {
            Some(Opcode::Call)
        } else if byte == 22 {
            Some(Opcode::Closure)
        } else if byte == 23 {
            Some(Opcode::Loop)
        } else if byte == 24 {
            Some(Opcode::NewArray)
        } else if byte == 25 {
            Some(Opcode::IndexSubscript)
        } else if byte == 26 {
            Some(Opcode::StoreSubscript)
        } else if byte == 27 {
            Some(Opcode::Class)
        } else if byte == 28 {
            Some(Opcode::GetProperty)
        } else if byte == 29 {
            Some(Opcode::SetProperty)
        } else {
            None
        }
    }

    /// How many operand bytes follow the opcode byte.
    pub open spec fn operand_width(self) -> nat {
        match self {
            Opcode::Constant
            | Opcode::DefineGlobal
            | Opcode::GetGlobal
            | Opcode::SetGlobal
            | Opcode::GetLocal
            | Opcode::SetLocal
            | Opcode::Call
            | Opcode::Closure
            | Opcode::NewArray
            | Opcode::Class
            | Opcode::GetProperty
            | Opcode::SetProperty => 1,
            Opcode::JumpIfFalse | Opcode::Jump | Opcode::Loop => 2,
            _ => 0,
        }
    }

    /// Encodes the opcode as its byte.
    pub fn to_byte(self) -> (byte: u8)
        ensures
            byte == self.byte(),
            byte < OPCODE_COUNT,
            Opcode::decode(byte) == Some(self),
    {
        match self {
            Opcode::Return => 0,
            Opcode::Constant => 1,
            Opcode::Add => 2,
            Opcode::Subtract => 3,
            Opcode::Multiply => 4,
            Opcode::Divide => 5,
            Opcode::Print => 6,
            Opcode::Equal => 7,
            Opcode::Greater => 8,
            Opcode::Less => 9,
            Opcode::Not => 10,
            Opcode::Negate => 11,
            Opcode::DefineGlobal => 12,
            Opcode::GetGlobal => 13,
            Opcode::SetGlobal => 14,
            Opcode::JumpIfFalse => 15,
            Opcode::Jump => 16,
            Opcode::Pop => 17,
            Opcode::GetLocal => 18,
            Opcode::SetLocal => 19,
            Opcode::Nil => 20,
            Opcode::Call => 21,
            Opcode::Closure => 22,
            Opcode::Loop => 23,
            Opcode::NewArray => 24,
            Opcode::IndexSubscript => 25,
            Opcode::StoreSubscript => 26,
            Opcode::Class => 27,
            Opcode::GetProperty => 28,
            Opcode::SetProperty => 29,
        }
    }

    /// Decodes a byte; `None` for a byte that encodes no opcode.
    pub fn from_byte(byte: u8) -> (opcode: Option<Opcode>)
        ensures
            opcode == Opcode::decode(byte),
            opcode is Some <==> byte < OPCODE_COUNT,
            opcode matches Some(op) ==> op.byte() == byte,
    {
        match byte {
            0 => Some(Opcode::Return),
            1 => Some(Opcode::Constant),
            2 => Some(Opcode::Add),
            3 => Some(Opcode::Subtract),
            4 => Some(Opcode::Multiply),
            5 => Some(Opcode::Divide),
            6 => Some(Opcode::Print),
            7 => Some(Opcode::Equal),
            8 => Some(Opcode::Greater),
            9 => Some(Opcode::Less),
            10 => Some(Opcode::Not),
            11 => Some(Opcode::Negate),
            12 => Some(Opcode::DefineGlobal),
            13 => Some(Opcode::GetGlobal),
            14 => Some(Opcode::SetGlobal),
            15 => Some(Opcode::JumpIfFalse),
            16 => Some(Opcode::Jump),
            17 => Some(Opcode::Pop),
            18 => Some(Opcode::GetLocal),
            19 => Some(Opcode::SetLocal),
            20 => Some(Opcode::Nil),
            21 => Some(Opcode::Call),
            22 => Some(Opcode::Closure),
            23 => Some(Opcode::Loop),
            24 => Some(Opcode::NewArray),
            25 => Some(Opcode::IndexSubscript),
            26 => Some(Opcode::StoreSubscript),
            27 => Some(Opcode::Class),
            28 => Some(Opcode::GetProperty),
            29 => Some(Opcode::SetProperty),
            _ => None,
        }
    }

    /// The number of operand bytes of this opcode.
    pub fn width(self) -> (n: usize)
        ensures
            n == self.operand_width(),
            n <= 2,
    {
        match self {
            Opcode::Constant
            | Opcode::DefineGlobal
            | Opcode::GetGlobal
            | Opcode::SetGlobal
            | Opcode::GetLocal
            | Opcode::SetLocal
            | Opcode::Call
            | Opcode::Closure
            | Opcode::NewArray
            | Opcode::Class
            | Opcode::GetProperty
            | Opcode::SetProperty => 1,
            Opcode::JumpIfFalse | Opcode::Jump | Opcode::Loop => 2,
            _ => 0,
        }
    }
}

/// Encoding and decoding are inverse: every opcode decodes from its own byte,
/// and a byte that decodes does so to the opcode that it encodes.
pub proof fn lemma_opcode_roundtrip(op: Opcode, byte: u8)
    ensures
        Opcode::decode(op.byte()) == Some(op),
        Opcode::decode(byte) matches Some(o) ==> o.byte() == byte,
        Opcode::decode(byte) is Some <==> byte < OPCODE_COUNT,
{
}

} // verus!
