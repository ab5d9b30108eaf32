//! The value type registry: the fixed set of runtime value kinds and the
//! single bytes that stand for them.

use crate::opcode::opcode_of_tag;
use crate::values::Value;
use vstd::prelude::*;
use vstd::std_specs::convert::{FromSpecImpl, TryFromSpecImpl};

verus! {

/// The kind of a runtime value. Value-kind tags occupy the band
/// `0x20..=0x24`, which shares no byte with the instruction band.
///
/// The tag of a kind is what [`Type::tag`] returns; a numeric cast of the
/// enum gives the position of the variant, not the tag.
#[derive(Debug, Clone, Copy, PartialEq, Eq, Structural)]
pub enum Type {
    Int,
    Float,
    Bool,
    Str,
    Char,
}

/// Failure to resolve a byte to a value kind.
#[derive(Debug, Clone, Copy, PartialEq, Eq, Structural)]
pub enum TypeError {
    /// The byte is not a value-kind tag; it is carried for diagnostics.
    InvalidType(u8),
}

/// Lowest byte of the value-kind tag band.
pub const TYPE_TAG_MIN: u8 = 0x20;

/// Highest byte of the value-kind tag band.
pub const TYPE_TAG_MAX: u8 = 0x24;

/// The value kind that `byte` stands for, if it lies in the value-kind band.
pub open spec fn type_of_tag(byte: u8) -> Option<Type> {
    if byte == 0x20 {
        Some(Type::Int)
    } else if byte == 0x21 {
        Some(Type::Float)
    } else if byte == 0x22 {
        Some(Type::Bool)
    } else if byte == 0x23 {
        Some(Type::Str)
    } else if byte == 0x24 {
        Some(Type::Char)
    } else {
        None
    }
}

/// What resolving `byte` yields: the kind, or the error that carries the byte.
pub open spec fn decode_type_spec(byte: u8) -> Result<Type, TypeError> {
    match type_of_tag(byte) {
        Some(ty) => Ok(ty),
        None => Err(TypeError::InvalidType(byte)),
    }
}

/// The two tag bands share no byte: nothing is both an instruction tag and
/// a value-kind tag.
pub proof fn lemma_tag_bands_disjoint(byte: u8)
    ensures
        !(opcode_of_tag(byte) is Some && type_of_tag(byte) is Some),
{
}

impl Type {
    /// The tag assigned to this kind.
    pub open spec fn spec_tag(self) -> u8 {
        match self {
            Type::Int => 0x20,
            Type::Float => 0x21,
            Type::Bool => 0x22,
            Type::Str => 0x23,
            Type::Char => 0x24,
        }
    }

    /// Projects the kind to its tag byte.
    #[verifier::when_used_as_spec(spec_tag)]
    pub fn tag(self) -> (byte: u8)
        ensures
            byte == self.spec_tag(),
            TYPE_TAG_MIN <= byte <= TYPE_TAG_MAX,
            type_of_tag(byte) == Some(self),
    {
        match self {
            Type::Int => 0x20,
            Type::Float => 0x21,
            Type::Bool => 0x22,
            Type::Str => 0x23,
            Type::Char => 0x24,
        }
    }

    /// The text that names this kind in messages.
    pub open spec fn spec_name(self) -> Seq<char> {
        match self {
            Type::Int => "Int"@,
            Type::Float => "Float"@,
            Type::Bool => "Bool"@,
            Type::Str => "String"@,
            Type::Char => "Char"@,
        }
    }

    /// The name of this kind as it is shown to a reader.
    pub fn name(self) -> (text: &'static str)
        ensures
            text@ == self.spec_name(),
    {
        match self {
            Type::Int => "Int",
            Type::Float => "Float",
            Type::Bool => "Bool",
            Type::Str => "String",
            Type::Char => "Char",
        }
    }
}

impl TryFrom<u8> for Type {
    type Error = TypeError;

    /// Resolves a byte to the value kind it stands for. Succeeds on exactly
    /// the bytes `0x20..=0x24`; any other byte is handed back in the error.
    fn try_from(value: u8) -> (result: Result<Self, Self::Error>)
        ensures
            result == decode_type_spec(value),
            result is Ok <==> TYPE_TAG_MIN <= value <= TYPE_TAG_MAX,
            result matches Ok(ty) ==> ty.spec_tag() == value,
            result matches Err(e) ==> e == TypeError::InvalidType(value),
    {
        match value {
            0x20 => Ok(Type::Int),
            0x21 => Ok(Type::Float),
            0x22 => Ok(Type::Bool),
            0x23 => Ok(Type::Str),
            0x24 => Ok(Type::Char),
            _ => Err(TypeError::InvalidType(value)),
        }
    }
}

impl TryFromSpecImpl<u8> for Type {
    open spec fn obeys_try_from_spec() -> bool {
        true
    }

    open spec fn try_from_spec(v: u8) -> Result<Self, Self::Error> {
        decode_type_spec(v)
    }
}

impl From<&Value> for Type {
    /// The kind of a value: one kind for each variant.
    fn from(value: &Value) -> (ty: Type)
        ensures
            ty == value@.type_of(),
    {
        match value {
            Value::Int(_) => Type::Int,
            Value::Float(_) => Type::Float,
            Value::Bool(_) => Type::Bool,
            Value::Str(_) => Type::Str,
            Value::Char(_) => Type::Char,
        }
    }
}

impl FromSpecImpl<&Value> for Type {
    open spec fn obeys_from_spec() -> bool {
        true
    }

    open spec fn from_spec(v: &Value) -> Type {
        v@.type_of()
    }
}

impl From<Value> for Type {
    /// The kind of a value: one kind for each variant.
    fn from(value: Value) -> (ty: Type)
        ensures
            ty == value@.type_of(),
    {
        Type::from(&value)
    }
}

impl FromSpecImpl<Value> for Type {
    open spec fn obeys_from_spec() -> bool {
        true
    }

    open spec fn from_spec(v: Value) -> Type {
        v@.type_of()
    }
}

} // verus!
