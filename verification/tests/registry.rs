use bytecode::opcode::{OpCode, OpCodeError, OPCODE_TAG_MAX, OPCODE_TAG_MIN};
use bytecode::types::{Type, TypeError, TYPE_TAG_MAX, TYPE_TAG_MIN};
use bytecode::values::Value;

const OPCODES: [(u8, OpCode); 7] = [
    (0x10, OpCode::Constant),
    (0x11, OpCode::Negate),
    (0x12, OpCode::Add),
    (0x13, OpCode::Subtract),
    (0x14, OpCode::Multiply),
    (0x15, OpCode::Divide),
    (0x16, OpCode::Return),
];

const TYPES: [(u8, Type); 5] = [
    (0x20, Type::Int),
    (0x21, Type::Float),
    (0x22, Type::Bool),
    (0x23, Type::Str),
    (0x24, Type::Char),
];

#[test]
fn opcode_tags_are_the_assigned_bytes() {
    for (byte, op) in OPCODES {
        assert_eq!(op.tag(), byte);
        assert_eq!(OpCode::try_from(byte), Ok(op));
    }
}

#[test]
fn opcode_decoding_succeeds_exactly_on_its_band() {
    for byte in 0u8..=255 {
        let result = OpCode::try_from(byte);
        if (0x10..=0x16).contains(&byte) {
            let op = result.expect("a byte of the band is an instruction");
            assert_eq!(op.tag(), byte);
        } else {
            assert_eq!(result, Err(OpCodeError::InvalidOpCode(byte)));
        }
    }
}

#[test]
fn opcode_error_carries_the_offending_byte() {
    assert_eq!(OpCode::try_from(0x17), Err(OpCodeError::InvalidOpCode(0x17)));
    assert_eq!(OpCode::try_from(0x0F), Err(OpCodeError::InvalidOpCode(0x0F)));
    assert_eq!(OpCode::try_from(0x00), Err(OpCodeError::InvalidOpCode(0x00)));
    assert_eq!(OpCode::try_from(0xFF), Err(OpCodeError::InvalidOpCode(0xFF)));
}

#[test]
fn opcodes_are_ordered_as_their_tags() {
    for (low_byte, low) in OPCODES {
        for (high_byte, high) in OPCODES {
            assert_eq!(low.cmp(&high), low_byte.cmp(&high_byte));
        }
    }
}

#[test]
fn type_tags_are_the_assigned_bytes() {
    for (byte, ty) in TYPES {
        assert_eq!(ty.tag(), byte);
        assert_eq!(Type::try_from(byte), Ok(ty));
    }
}

#[test]
fn type_decoding_succeeds_exactly_on_its_band() {
    for byte in 0u8..=255 {
        let result = Type::try_from(byte);
        if (0x20..=0x24).contains(&byte) {
            let ty = result.expect("a byte of the band is a value kind");
            assert_eq!(ty.tag(), byte);
        } else {
            assert_eq!(result, Err(TypeError::InvalidType(byte)));
        }
    }
}

#[test]
fn type_error_carries_the_offending_byte() {
    assert_eq!(Type::try_from(0x25), Err(TypeError::InvalidType(0x25)));
    assert_eq!(Type::try_from(0x1F), Err(TypeError::InvalidType(0x1F)));
    assert_eq!(Type::try_from(0x10), Err(TypeError::InvalidType(0x10)));
}

#[test]
fn tag_bands_are_disjoint() {
    assert_eq!((OPCODE_TAG_MIN, OPCODE_TAG_MAX), (0x10, 0x16));
    assert_eq!((TYPE_TAG_MIN, TYPE_TAG_MAX), (0x20, 0x24));
    for byte in 0u8..=255 {
        assert!(!(OpCode::try_from(byte).is_ok() && Type::try_from(byte).is_ok()));
    }
}

#[test]
fn every_value_has_the_kind_of_its_variant() {
    let cases = [
        (Value::Int(7), Type::Int),
        (Value::Float(1.5f64.to_bits()), Type::Float),
        (Value::Bool(false), Type::Bool),
        (Value::Str(String::from("text")), Type::Str),
        (Value::Char('c'), Type::Char),
    ];
    for (value, ty) in cases {
        assert_eq!(value.type_of(), ty);
        assert_eq!(Type::from(&value), ty);
        assert_eq!(Type::from(value), ty);
    }
}

#[test]
fn kinds_are_named_for_a_reader() {
    assert_eq!(Type::Int.name(), "Int");
    assert_eq!(Type::Float.name(), "Float");
    assert_eq!(Type::Bool.name(), "Bool");
    assert_eq!(Type::Str.name(), "String");
    assert_eq!(Type::Char.name(), "Char");
}
