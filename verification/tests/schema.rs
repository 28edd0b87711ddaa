//! Schema model: value coercions and model-level validation.
use pacgen::parse::{Access, BitRange, SchemaError};
use pacgen::schema::{Field, Register, StringOrNumber, ValidationError};

fn plain_field(name: &str, bit_range: BitRange) -> Field {
    Field {
        name: name.to_string(),
        bit_range,
        description: String::new(),
        access: None,
        default_value: None,
        enums: None,
    }
}

fn register_with(fields: Vec<Field>, size: usize) -> Register {
    Register {
        name: "reg".to_string(),
        offset: 0,
        size,
        access: Access::ReadWrite,
        description: String::new(),
        fields: Some(fields),
    }
}

#[test]
fn string_or_number_coerces_both_ways() {
    assert_eq!(StringOrNumber::Number(42).to_text(), "42");
    assert_eq!(StringOrNumber::Text("0x2a".to_string()).to_text(), "0x2a");
    assert_eq!(StringOrNumber::Number(42).to_number(), Ok(42));
    assert_eq!(StringOrNumber::Text("0x2a".to_string()).to_number(), Ok(42));
    assert_eq!(StringOrNumber::Text("0b101".to_string()).to_number(), Ok(5));
    assert_eq!(
        StringOrNumber::Text("nope".to_string()).to_number(),
        Err(SchemaError::MalformedNumber)
    );
}

#[test]
fn valid_field_lists_pass_validation() {
    let reg = register_with(
        vec![
            plain_field("a", BitRange::Single(0)),
            plain_field("b", BitRange::Range(7, 4)),
            plain_field("c", BitRange::Range(31, 8)),
        ],
        32,
    );
    assert!(pacgen::schema::validate_register(&reg).is_ok());
    // A register without fields is an opaque word: nothing to check.
    let opaque = Register { fields: None, ..register_with(Vec::new(), 32) };
    assert!(pacgen::schema::validate_register(&opaque).is_ok());
}

#[test]
fn validation_names_the_offending_fields() {
    let oob = register_with(vec![plain_field("wide", BitRange::Range(16, 0))], 16);
    match pacgen::schema::validate_register(&oob) {
        Err(ValidationError::FieldOutOfBounds { register, field }) => {
            assert_eq!(register, "reg");
            assert_eq!(field, "wide");
        }
        other => panic!("expected FieldOutOfBounds, got {:?}", other.is_ok()),
    }

    let clash = register_with(
        vec![
            plain_field("lo", BitRange::Range(3, 0)),
            plain_field("hi", BitRange::Range(8, 3)),
        ],
        32,
    );
    match pacgen::schema::validate_register(&clash) {
        Err(ValidationError::OverlappingFields { register, first, second }) => {
            assert_eq!(register, "reg");
            assert_eq!(first, "lo");
            assert_eq!(second, "hi");
        }
        other => panic!("expected OverlappingFields, got {:?}", other.is_ok()),
    }
}
