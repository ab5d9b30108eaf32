//! The instruction tag registry: the fixed set of instruction identifiers and
//! the single bytes that stand for them.

use vstd::prelude::*;
use vstd::std_specs::convert::TryFromSpecImpl;

verus! {

/// An instruction identifier. Instruction tags occupy the band `0x10..=0x16`.
/// Instructions are ordered as their tags are.
///
/// The tag of an instruction is what [`OpCode::tag`] returns; a numeric cast
/// of the enum gives the position of the variant, not the tag.
#[derive(Debug, Clone, Copy, PartialEq, Eq, PartialOrd, Ord, Hash, Structural)]
pub enum OpCode {
    Constant,
    Negate,
    Add,
    Subtract,
    Multiply,
    Divide,
    Return,
}

/// Failure to resolve a byte to an instruction.
#[derive(Debug, Clone, Copy, PartialEq, Eq, Structural)]
pub enum OpCodeError {
    /// The byte is not an instruction tag; it is carried for diagnostics.
    InvalidOpCode(u8),
}

/// Lowest byte of the instruction tag band.
pub const OPCODE_TAG_MIN: u8 = 0x10;

/// Highest byte of the instruction tag band.
pub const OPCODE_TAG_MAX: u8 = 0x16;

/// The instruction that `byte` stands for, if it lies in the instruction band.
pub open spec fn opcode_of_tag(byte: u8) -> Option<OpCode> {
    if byte == 0x10 {
        Some(OpCode::Constant)
    } else if byte == 0x11 {
        Some(OpCode::Negate)
    } else if byte == 0x12 {
        Some(OpCode::Add)
    } else if byte == 0x13 {
        Some(OpCode::Subtract)
    } else if byte == 0x14 {
        Some(OpCode::Multiply)
    } else if byte == 0x15 {
        Some(OpCode::Divide)
    } else if byte == 0x16 {
        Some(OpCode::Return)
    } else {
        None
    }
}

/// What resolving `byte` yields: the instruction, or the error that carries the byte.
pub open spec fn decode_opcode_spec(byte: u8) -> Result<OpCode, OpCodeError> {
    match opcode_of_tag(byte) {
        Some(op) => Ok(op),
        None => Err(OpCodeError::InvalidOpCode(byte)),
    }
}

impl OpCode {
    /// The tag assigned to this instruction.
    pub open spec fn spec_tag(self) -> u8 {
        match self {
            OpCode::Constant => 0x10,
            OpCode::Negate => 0x11,
            OpCode::Add => 0x12,
            OpCode::Subtract => 0x13,
            OpCode::Multiply => 0x14,
            OpCode::Divide => 0x15,
            OpCode::Return => 0x16,
        }
    }

    /// Projects the instruction to its tag byte.
    #[verifier::when_used_as_spec(spec_tag)]
    pub fn tag(self) -> (byte: u8)
        ensures
            byte == self.spec_tag(),
            OPCODE_TAG_MIN <= byte <= OPCODE_TAG_MAX,
            opcode_of_tag(byte) == Some(self),
    {
        match self {
            OpCode::Constant => 0x10,
            OpCode::Negate => 0x11,
            OpCode::Add => 0x12,
            OpCode::Subtract => 0x13,
            OpCode::Multiply => 0x14,
            OpCode::Divide => 0x15,
            OpCode::Return => 0x16,
        }
    }
}

impl TryFrom<u8> for OpCode {
    type Error = OpCodeError;

    /// Resolves a byte to the instruction it stands for. Succeeds on exactly
    /// the bytes `0x10..=0x16`; any other byte is handed back in the error.
    fn try_from(value: u8) -> (result: Result<Self, Self::Error>)
        ensures
            result == decode_opcode_spec(value),
            result is Ok <==> OPCODE_TAG_MIN <= value <= OPCODE_TAG_MAX,
            result matches Ok(op) ==> op.spec_tag() == value,
            result matches Err(e) ==> e == OpCodeError::InvalidOpCode(value),
    {
        match value {
            0x10 => Ok(OpCode::Constant),
            0x11 => Ok(OpCode::Negate),
            0x12 => Ok(OpCode::Add),
            0x13 => Ok(OpCode::Subtract),
            0x14 => Ok(OpCode::Multiply),
            0x15 => Ok(OpCode::Divide),
            0x16 => Ok(OpCode::Return),
            _ => Err(OpCodeError::InvalidOpCode(value)),
        }
    }
}

impl TryFromSpecImpl<u8> for OpCode {
    open spec fn obeys_try_from_spec() -> bool {
        true
    }

    open spec fn try_from_spec(v: u8) -> Result<Self, Self::Error> {
        decode_opcode_spec(v)
    }
}

} // verus!
