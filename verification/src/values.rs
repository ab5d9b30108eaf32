//! Runtime values, their construction from native values, and the narrowing
//! extractors back to native values.

use crate::types::{Type, TypeError};
use vstd::prelude::*;
use vstd::std_specs::convert::{FromSpecImpl, TryFromSpecImpl};

verus! {

/// A runtime value: exactly one of five kinds, each with its native payload.
///
/// A `Float` holds the IEEE-754 bit pattern of a 64-bit number, so two floats
/// are equal exactly when their bits are: NaN payloads, the sign of zero and
/// the infinities are all told apart.
#[derive(Debug, PartialEq, Eq)]
pub enum Value {
    Int(isize),
    Float(u64),
    Bool(bool),
    Str(String),
    Char(char),
}

/// The mathematical content of a [`Value`].
pub enum ValueView {
    Int(int),
    Float(u64),
    Bool(bool),
    Str(Seq<char>),
    Char(char),
}

impl ValueView {
    /// The kind of a value: a total map, one kind for each variant.
    pub open spec fn type_of(self) -> Type {
        match self {
            ValueView::Int(_) => Type::Int,
            ValueView::Float(_) => Type::Float,
            ValueView::Bool(_) => Type::Bool,
            ValueView::Str(_) => Type::Str,
            ValueView::Char(_) => Type::Char,
        }
    }
}

impl View for Value {
    type V = ValueView;

    open spec fn view(&self) -> ValueView {
        match self {
            Value::Int(i) => ValueView::Int(*i as int),
            Value::Float(bits) => ValueView::Float(*bits),
            Value::Bool(b) => ValueView::Bool(*b),
            Value::Str(s) => ValueView::Str(s@),
            Value::Char(c) => ValueView::Char(*c),
        }
    }
}

/// Why a value could not be narrowed or a buffer could not be decoded.
#[derive(Debug, Clone, Copy, PartialEq, Eq, Structural)]
pub enum ValueError {
    /// A native value of kind `to` was asked of a value of kind `from`.
    InvalidConversion { from: Type, to: Type },
    /// The buffer is empty, so it has no tag byte.
    NoTag,
    /// The payload length is not what the kind named by the tag requires.
    IncompatibleSize,
    /// The tag byte names no value kind.
    Type(TypeError),
}

impl From<TypeError> for ValueError {
    /// A failure of the value type registry, as a failure to decode.
    fn from(error: TypeError) -> (result: ValueError)
        ensures
            result == ValueError::Type(error),
    {
        ValueError::Type(error)
    }
}

impl FromSpecImpl<TypeError> for ValueError {
    open spec fn obeys_from_spec() -> bool {
        true
    }

    open spec fn from_spec(v: TypeError) -> ValueError {
        ValueError::Type(v)
    }
}

impl From<i8> for Value {
    /// The integer, widened to the platform width.
    fn from(value: i8) -> (result: Value)
        ensures
            result == Value::Int(value as isize),
            result@ == ValueView::Int(value as int),
    {
        Value::Int(value as isize)
    }
}

impl FromSpecImpl<i8> for Value {
    open spec fn obeys_from_spec() -> bool {
        true
    }

    open spec fn from_spec(v: i8) -> Value {
        Value::Int(v as isize)
    }
}

impl From<i16> for Value {
    /// The integer, widened to the platform width.
    fn from(value: i16) -> (result: Value)
        ensures
            result == Value::Int(value as isize),
            result@ == ValueView::Int(value as int),
    {
        Value::Int(value as isize)
    }
}

impl FromSpecImpl<i16> for Value {
    open spec fn obeys_from_spec() -> bool {
        true
    }

    open spec fn from_spec(v: i16) -> Value {
        Value::Int(v as isize)
    }
}

impl From<i32> for Value {
    /// The integer, widened to the platform width.
    fn from(value: i32) -> (result: Value)
        ensures
            result == Value::Int(value as isize),
            result@ == ValueView::Int(value as int),
    {
        Value::Int(value as isize)
    }
}

impl FromSpecImpl<i32> for Value {
    open spec fn obeys_from_spec() -> bool {
        true
    }

    open spec fn from_spec(v: i32) -> Value {
        Value::Int(v as isize)
    }
}

impl From<i64> for Value {
    /// The integer at the platform width: itself where it fits, and
    /// otherwise its low-order bits, read as a signed number.
    fn from(value: i64) -> (result: Value)
        ensures
            result == Value::Int(value as isize),
            isize::MIN <= value <= isize::MAX ==> result@ == ValueView::Int(value as int),
    {
        Value::Int(#[verifier::truncate] (value as isize))
    }
}

impl FromSpecImpl<i64> for Value {
    open spec fn obeys_from_spec() -> bool {
        true
    }

    open spec fn from_spec(v: i64) -> Value {
        Value::Int(v as isize)
    }
}

impl From<i128> for Value {
    /// The integer at the platform width: itself where it fits, and
    /// otherwise its low-order bits, read as a signed number.
    fn from(value: i128) -> (result: Value)
        ensures
            result == Value::Int(value as isize),
            isize::MIN <= value <= isize::MAX ==> result@ == ValueView::Int(value as int),
    {
        Value::Int(#[verifier::truncate] (value as isize))
    }
}

impl FromSpecImpl<i128> for Value {
    open spec fn obeys_from_spec() -> bool {
        true
    }

    open spec fn from_spec(v: i128) -> Value {
        Value::Int(v as isize)
    }
}

impl From<isize> for Value {
    fn from(value: isize) -> (result: Value)
        ensures
            result == Value::Int(value),
    {
        Value::Int(value)
    }
}

impl FromSpecImpl<isize> for Value {
    open spec fn obeys_from_spec() -> bool {
        true
    }

    open spec fn from_spec(v: isize) -> Value {
        Value::Int(v)
    }
}

impl From<u8> for Value {
    /// The integer, widened to the platform width.
    fn from(value: u8) -> (result: Value)
        ensures
            result == Value::Int(value as isize),
            result@ == ValueView::Int(value as int),
    {
        Value::Int(value as isize)
    }
}

impl FromSpecImpl<u8> for Value {
    open spec fn obeys_from_spec() -> bool {
        true
    }

    open spec fn from_spec(v: u8) -> Value {
        Value::Int(v as isize)
    }
}

impl From<u16> for Value {
    /// The integer, widened to the platform width.
    fn from(value: u16) -> (result: Value)
        ensures
            result == Value::Int(value as isize),
            result@ == ValueView::Int(value as int),
    {
        Value::Int(value as isize)
    }
}

impl FromSpecImpl<u16> for Value {
    open spec fn obeys_from_spec() -> bool {
        true
    }

    open spec fn from_spec(v: u16) -> Value {
        Value::Int(v as isize)
    }
}

impl From<u32> for Value {
    /// The integer at the platform width: itself where it fits, and
    /// otherwise its low-order bits, read as a signed number.
    fn from(value: u32) -> (result: Value)
        ensures
            result == Value::Int(value as isize),
            isize::MIN <= value <= isize::MAX ==> result@ == ValueView::Int(value as int),
    {
        Value::Int(#[verifier::truncate] (value as isize))
    }
}

impl FromSpecImpl<u32> for Value {
    open spec fn obeys_from_spec() -> bool {
        true
    }

    open spec fn from_spec(v: u32) -> Value {
        Value::Int(v as isize)
    }
}

impl From<u64> for Value {
    /// The integer at the platform width: itself where it fits, and
    /// otherwise its low-order bits, read as a signed number.
    fn from(value: u64) -> (result: Value)
        ensures
            result == Value::Int(value as isize),
            isize::MIN <= value <= isize::MAX ==> result@ == ValueView::Int(value as int),
    {
        Value::Int(#[verifier::truncate] (value as isize))
    }
}

impl FromSpecImpl<u64> for Value {
    open spec fn obeys_from_spec() -> bool {
        true
    }

    open spec fn from_spec(v: u64) -> Value {
        Value::Int(v as isize)
    }
}

impl From<u128> for Value {
    /// The integer at the platform width: itself where it fits, and
    /// otherwise its low-order bits, read as a signed number.
    fn from(value: u128) -> (result: Value)
        ensures
            result == Value::Int(value as isize),
            isize::MIN <= value <= isize::MAX ==> result@ == ValueView::Int(value as int),
    {
        Value::Int(#[verifier::truncate] (value as isize))
    }
}

impl FromSpecImpl<u128> for Value {
    open spec fn obeys_from_spec() -> bool {
        true
    }

    open spec fn from_spec(v: u128) -> Value {
        Value::Int(v as isize)
    }
}

impl From<usize> for Value {
    /// The integer at the platform width: itself where it fits, and
    /// otherwise its low-order bits, read as a signed number.
    fn from(value: usize) -> (result: Value)
        ensures
            result == Value::Int(value as isize),
            isize::MIN <= value <= isize::MAX ==> result@ == ValueView::Int(value as int),
    {
        Value::Int(#[verifier::truncate] (value as isize))
    }
}

impl FromSpecImpl<usize> for Value {
    open spec fn obeys_from_spec() -> bool {
        true
    }

    open spec fn from_spec(v: usize) -> Value {
        Value::Int(v as isize)
    }
}

impl From<bool> for Value {
    fn from(value: bool) -> (result: Value)
        ensures
            result == Value::Bool(value),
    {
        Value::Bool(value)
    }
}

impl FromSpecImpl<bool> for Value {
    open spec fn obeys_from_spec() -> bool {
        true
    }

    open spec fn from_spec(v: bool) -> Value {
        Value::Bool(v)
    }
}

impl From<String> for Value {
    fn from(value: String) -> (result: Value)
        ensures
            result == Value::Str(value),
    {
        Value::Str(value)
    }
}

impl FromSpecImpl<String> for Value {
    open spec fn obeys_from_spec() -> bool {
        true
    }

    open spec fn from_spec(v: String) -> Value {
        Value::Str(v)
    }
}

impl From<&str> for Value {
    /// Copies the text into a value that owns it.
    fn from(value: &str) -> (result: Value)
        ensures
            result@ == ValueView::Str(value@),
    {
        Value::Str(value.to_owned())
    }
}

impl FromSpecImpl<&str> for Value {
    open spec fn obeys_from_spec() -> bool {
        false
    }

    open spec fn from_spec(v: &str) -> Value {
        arbitrary()
    }
}

impl From<char> for Value {
    fn from(value: char) -> (result: Value)
        ensures
            result == Value::Char(value),
    {
        Value::Char(value)
    }
}

impl FromSpecImpl<char> for Value {
    open spec fn obeys_from_spec() -> bool {
        true
    }

    open spec fn from_spec(v: char) -> Value {
        Value::Char(v)
    }
}

/// What narrowing `value` to a native integer yields.
pub open spec fn int_of_spec(value: Value) -> Result<isize, ValueError> {
    match value {
        Value::Int(i) => Ok(i),
        _ => Err(ValueError::InvalidConversion { from: value@.type_of(), to: Type::Int }),
    }
}

/// What narrowing `value` to the bits of a native float yields.
pub open spec fn float_bits_of_spec(value: Value) -> Result<u64, ValueError> {
    match value {
        Value::Float(bits) => Ok(bits),
        _ => Err(ValueError::InvalidConversion { from: value@.type_of(), to: Type::Float }),
    }
}

impl TryFrom<Value> for isize {
    type Error = ValueError;

    /// Narrows a value to a native integer. Succeeds exactly on `Int`; any
    /// other kind is named in the error, beside the kind that was asked for.
    fn try_from(value: Value) -> (result: Result<Self, Self::Error>)
        ensures
            result == int_of_spec(value),
            result is Ok <==> value is Int,
    {
        match value {
            Value::Int(i) => Ok(i),
            _ => Err(ValueError::InvalidConversion { from: Type::from(&value), to: Type::Int }),
        }
    }
}

impl TryFromSpecImpl<Value> for isize {
    open spec fn obeys_try_from_spec() -> bool {
        true
    }

    open spec fn try_from_spec(v: Value) -> Result<Self, Self::Error> {
        int_of_spec(v)
    }
}

impl Clone for Value {
    fn clone(&self) -> (result: Value)
        ensures
            result == *self,
    {
        match self {
            Value::Int(i) => Value::Int(*i),
            Value::Float(bits) => Value::Float(*bits),
            Value::Bool(b) => Value::Bool(*b),
            Value::Str(s) => Value::Str(s.clone()),
            Value::Char(c) => Value::Char(*c),
        }
    }
}

impl Value {
    /// The kind of this value.
    pub fn type_of(&self) -> (ty: Type)
        ensures
            ty == self@.type_of(),
    {
        Type::from(self)
    }

    /// Narrows a value to the bit pattern of a native float. Succeeds exactly
    /// on `Float`; any other kind is named in the error, beside the kind that
    /// was asked for.
    pub fn float_bits(&self) -> (result: Result<u64, ValueError>)
        ensures
            result == float_bits_of_spec(*self),
            result is Ok <==> *self is Float,
    {
        match self {
            Value::Float(bits) => Ok(*bits),
            _ => Err(ValueError::InvalidConversion { from: Type::from(self), to: Type::Float }),
        }
    }
}

} // verus!
