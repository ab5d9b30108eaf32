use bytecode::types::Type;
use bytecode::values::{Value, ValueError};
use std::convert::TryFrom;

/// Helper function to perform a roundtrip: Value -> Vec<u8> -> Value
fn roundtrip(value: Value) -> Result<Value, ValueError> {
    let bytes: Vec<u8> = value.into();
    Value::try_from(bytes)
}

/// Assert that two values are equal with special handling for floats.
/// Floats are held as their bit representation, so NaN and signed zero
/// compare by bits.
fn assert_value_eq_roundtrip(original: &Value, roundtripped: &Value) {
    match (original, roundtripped) {
        (Value::Int(i1), Value::Int(i2)) => assert_eq!(i1, i2, "Int values differ"),
        (Value::Float(f1), Value::Float(f2)) => {
            assert_eq!(f1, f2, "Float values differ (comparing bits)")
        }
        (Value::Bool(b1), Value::Bool(b2)) => assert_eq!(b1, b2, "Bool values differ"),
        (Value::Str(s1), Value::Str(s2)) => assert_eq!(s1, s2, "String values differ"),
        (Value::Char(c1), Value::Char(c2)) => assert_eq!(c1, c2, "Char values differ"),
        _ => panic!(
            "Type mismatch: original = {:?}, roundtripped = {:?}",
            original, roundtripped
        ),
    }
}

/// A small deterministic generator, so that the sampled round trips below
/// are the same on every run.
struct Sampler(u64);

impl Sampler {
    fn next(&mut self) -> u64 {
        self.0 ^= self.0 << 13;
        self.0 ^= self.0 >> 7;
        self.0 ^= self.0 << 17;
        self.0
    }
}

/// Int values roundtrip through the byte encoding.
#[test]
#[allow(clippy::expect_used)]
fn test_int_roundtrip() {
    let mut sampler = Sampler(0x9E37_79B9_7F4A_7C15);
    for _ in 0..2000 {
        let original = Value::Int(sampler.next() as isize);
        let roundtripped = roundtrip(original.clone()).expect("Int roundtrip should succeed");
        assert_value_eq_roundtrip(&original, &roundtripped);
    }
}

/// Float values roundtrip bit for bit, whatever the bits stand for: NaN
/// payloads, infinities, subnormals and signed zero included.
#[test]
#[allow(clippy::expect_used)]
fn test_float_roundtrip() {
    let mut sampler = Sampler(0xD1B5_4A32_D192_ED03);
    for _ in 0..2000 {
        let value = f64::from_bits(sampler.next());
        let original = Value::Float(value.to_bits());
        let roundtripped = roundtrip(original.clone()).expect("Float roundtrip should succeed");
        assert_value_eq_roundtrip(&original, &roundtripped);
    }
}

/// Bool values roundtrip through the byte encoding.
#[test]
#[allow(clippy::expect_used)]
fn test_bool_roundtrip() {
    for value in [false, true] {
        let original = Value::Bool(value);
        let roundtripped = roundtrip(original.clone()).expect("Bool roundtrip should succeed");
        assert_value_eq_roundtrip(&original, &roundtripped);
    }
}

/// Strings of up to 256 chars drawn from U+0000..=U+00FF roundtrip.
#[test]
#[allow(clippy::expect_used)]
fn test_string_roundtrip() {
    let mut sampler = Sampler(0x2545_F491_4F6C_DD1D);
    for _ in 0..500 {
        let len = (sampler.next() % 257) as usize;
        let value: String = (0..len).map(|_| (sampler.next() % 256) as u8 as char).collect();
        let original = Value::Str(value);
        let roundtripped = roundtrip(original.clone()).expect("String roundtrip should succeed");
        assert_value_eq_roundtrip(&original, &roundtripped);
    }
}

/// Every char that one byte can hold roundtrips.
#[test]
#[allow(clippy::expect_used)]
fn test_char_roundtrip() {
    for byte in 0u8..=255u8 {
        let original = Value::Char(byte as char);
        let roundtripped = roundtrip(original.clone()).expect("Char roundtrip should succeed");
        assert_value_eq_roundtrip(&original, &roundtripped);
    }
}

// Negative tests for malformed buffers

#[test]
fn test_empty_buffer_returns_no_tag_error() {
    let result = Value::try_from(Vec::new());
    assert!(result.is_err(), "Empty buffer should return error");
    match result {
        Err(ValueError::NoTag) => {} // Expected
        other => panic!("Expected NoTag error, got: {:?}", other),
    }
}

#[test]
fn test_int_with_wrong_size_returns_error() {
    // Int type tag but only 4 bytes instead of required 8
    let buffer = vec![Type::Int.tag(), 1, 2, 3, 4];
    let result = Value::try_from(buffer);
    assert!(result.is_err(), "Int with wrong size should return error");
    match result {
        Err(ValueError::IncompatibleSize) => {} // Expected
        other => panic!("Expected IncompatibleSize error, got: {:?}", other),
    }
}

#[test]
fn test_float_with_wrong_size_returns_error() {
    // Float type tag but only 3 bytes instead of required 8
    let buffer = vec![Type::Float.tag(), 1, 2, 3];
    let result = Value::try_from(buffer);
    assert!(result.is_err(), "Float with wrong size should return error");
    match result {
        Err(ValueError::IncompatibleSize) => {} // Expected
        other => panic!("Expected IncompatibleSize error, got: {:?}", other),
    }
}

#[test]
fn test_bool_with_wrong_size_returns_error() {
    // Bool type tag but 3 bytes instead of required 1
    let buffer = vec![Type::Bool.tag(), 1, 2, 3];
    let result = Value::try_from(buffer);
    assert!(result.is_err(), "Bool with wrong size should return error");
    match result {
        Err(ValueError::IncompatibleSize) => {} // Expected
        other => panic!("Expected IncompatibleSize error, got: {:?}", other),
    }
}

#[test]
fn test_char_with_wrong_size_returns_error() {
    // Char type tag but 3 bytes instead of required 1
    let buffer = vec![Type::Char.tag(), 1, 2, 3];
    let result = Value::try_from(buffer);
    assert!(result.is_err(), "Char with wrong size should return error");
    match result {
        Err(ValueError::IncompatibleSize) => {} // Expected
        other => panic!("Expected IncompatibleSize error, got: {:?}", other),
    }
}

#[test]
fn test_string_with_insufficient_data_returns_error() {
    // String type tag but less than 4 bytes for length prefix
    let buffer = vec![Type::Str.tag(), 1, 2];
    let result = Value::try_from(buffer);
    assert!(
        result.is_err(),
        "String with insufficient data should return error"
    );
    match result {
        Err(ValueError::IncompatibleSize) => {} // Expected
        other => panic!("Expected IncompatibleSize error, got: {:?}", other),
    }
}

#[test]
fn test_string_with_mismatched_length_returns_error() {
    // String type tag with length=10 but only 3 bytes of data
    let mut buffer = vec![Type::Str.tag()];
    buffer.extend_from_slice(&10u32.to_le_bytes()); // Claim 10 bytes
    buffer.extend_from_slice(&[65, 66, 67]); // But only provide 3 bytes
    let result = Value::try_from(buffer);
    assert!(
        result.is_err(),
        "String with mismatched length should return error"
    );
    match result {
        Err(ValueError::IncompatibleSize) => {} // Expected
        other => panic!("Expected IncompatibleSize error, got: {:?}", other),
    }
}

#[test]
fn test_invalid_type_tag_returns_error() {
    // Invalid type tag (not in range 0x20..=0x24)
    let buffer = vec![0xFF, 1, 2, 3, 4, 5, 6, 7, 8];
    let result = Value::try_from(buffer);
    assert!(result.is_err(), "Invalid type tag should return error");
    match result {
        Err(ValueError::Type(_)) => {} // Expected
        other => panic!("Expected TypeError, got: {:?}", other),
    }
}

// Edge case tests for specific values

#[test]
#[allow(clippy::expect_used)]
fn test_float_special_values_roundtrip() {
    let special_values = vec![
        f64::NAN,
        f64::INFINITY,
        f64::NEG_INFINITY,
        0.0,
        -0.0,
        f64::MIN,
        f64::MAX,
        f64::EPSILON,
    ];

    for &value in &special_values {
        let original = Value::Float(value.to_bits());
        let roundtripped = roundtrip(original.clone()).expect("Float roundtrip should succeed");
        assert_value_eq_roundtrip(&original, &roundtripped);
    }
}

#[test]
#[allow(clippy::expect_used)]
fn test_string_edge_cases_roundtrip() {
    let test_cases = vec![
        String::from(""),              // Empty string
        String::from("a"),             // Single char
        String::from("Hello, World!"), // ASCII
        String::from("ðŸ¦€"),            // Emoji (multi-byte UTF-8)
        String::from("æ—¥æœ¬èªž"),        // Non-ASCII characters
        "a".repeat(1000),              // Long string
    ];

    for value in test_cases {
        let original = Value::Str(value);
        let roundtripped = roundtrip(original.clone()).expect("String roundtrip should succeed");
        assert_value_eq_roundtrip(&original, &roundtripped);
    }
}

#[test]
#[allow(clippy::expect_used)]
fn test_int_edge_cases_roundtrip() {
    let edge_cases = vec![isize::MIN, isize::MAX, 0, -1, 1, -1000, 1000];

    for &value in &edge_cases {
        let original = Value::Int(value);
        let roundtripped = roundtrip(original.clone()).expect("Int roundtrip should succeed");
        assert_value_eq_roundtrip(&original, &roundtripped);
    }
}
