//! Enum synthesis: wildcard patterns, decode order, default
//! selection and collision detection.
use pacgen::enumsynth::{
    decode_enum_value, default_variant_index, encoding_bits, find_ambiguous, parse_enum_encoding,
    EnumEncoding,
};
use pacgen::parse::SchemaError;
use pacgen::schema::{EnumValue, StringOrNumber};

fn value(name: &str, v: StringOrNumber, is_default: Option<bool>) -> EnumValue {
    EnumValue {
        name: name.to_string(),
        value: v,
        description: String::new(),
        is_default,
    }
}

#[test]
fn numbers_encode_exactly() {
    assert_eq!(
        parse_enum_encoding(&StringOrNumber::Number(5)),
        Ok(EnumEncoding::Exact(5))
    );
    assert_eq!(
        parse_enum_encoding(&StringOrNumber::Text("0x1f".to_string())),
        Ok(EnumEncoding::Exact(31))
    );
    assert_eq!(
        parse_enum_encoding(&StringOrNumber::Text("0b0101".to_string())),
        Ok(EnumEncoding::Exact(5))
    );
}

#[test]
fn wildcard_pattern_gives_mask_and_fixed_bits() {
    assert_eq!(
        parse_enum_encoding(&StringOrNumber::Text("0b0XXX".to_string())),
        Ok(EnumEncoding::Wildcard { mask: 0b1000, fixed: 0b0000 })
    );
    assert_eq!(
        parse_enum_encoding(&StringOrNumber::Text("0b1X0X".to_string())),
        Ok(EnumEncoding::Wildcard { mask: 0b1010, fixed: 0b1000 })
    );
}

#[test]
fn bad_value_strings_are_malformed() {
    assert_eq!(
        parse_enum_encoding(&StringOrNumber::Text("0bX2X".to_string())),
        Err(SchemaError::MalformedNumber)
    );
    assert_eq!(
        parse_enum_encoding(&StringOrNumber::Text("0xXX".to_string())),
        Err(SchemaError::MalformedNumber)
    );
    assert_eq!(
        parse_enum_encoding(&StringOrNumber::Text(String::new())),
        Err(SchemaError::MalformedNumber)
    );
}

#[test]
fn wildcard_decode_matches_on_fixed_bits_only() {
    // Pattern 0b0XXX: mask 8, fixed 0.
    let encs = vec![EnumEncoding::Wildcard { mask: 0b1000, fixed: 0b0000 }];
    assert_eq!(decode_enum_value(&encs, 0b0101), Some(0));
    assert_eq!(decode_enum_value(&encs, 0b1101), None);
}

#[test]
fn exact_values_win_over_wildcards_on_a_tie() {
    // The exact value 3 also matches the wildcard pattern, but the
    // exact match is tried first and wins.
    let encs = vec![
        EnumEncoding::Wildcard { mask: 0b1000, fixed: 0b0000 },
        EnumEncoding::Exact(3),
    ];
    assert_eq!(decode_enum_value(&encs, 3), Some(1));
    assert_eq!(decode_enum_value(&encs, 5), Some(0));
}

#[test]
fn earlier_declarations_win_within_a_tier() {
    let encs = vec![
        EnumEncoding::Exact(7),
        EnumEncoding::Exact(7),
        EnumEncoding::Wildcard { mask: 0, fixed: 0 },
        EnumEncoding::Wildcard { mask: 1, fixed: 0 },
    ];
    assert_eq!(decode_enum_value(&encs, 7), Some(0));
    assert_eq!(decode_enum_value(&encs, 2), Some(2));
}

#[test]
fn default_falls_back_to_first_declared_value() {
    let values = vec![
        value("A", StringOrNumber::Number(0), Some(false)),
        value("B", StringOrNumber::Number(1), Some(false)),
    ];
    assert_eq!(default_variant_index(&values), Some(0));
}

#[test]
fn explicit_default_mark_wins() {
    let values = vec![
        value("A", StringOrNumber::Number(0), None),
        value("B", StringOrNumber::Number(1), Some(true)),
        value("C", StringOrNumber::Number(2), Some(true)),
    ];
    assert_eq!(default_variant_index(&values), Some(1));
    assert_eq!(default_variant_index(&Vec::new()), None);
}

#[test]
fn colliding_tables_are_detected() {
    // Duplicate exact values.
    let dup = vec![EnumEncoding::Exact(1), EnumEncoding::Exact(1)];
    assert!(find_ambiguous(&dup).is_some());
    // A wildcard that matches an exact value's word.
    let wild = vec![
        EnumEncoding::Wildcard { mask: 0b1000, fixed: 0 },
        EnumEncoding::Exact(0b0011),
    ];
    assert!(find_ambiguous(&wild).is_some());
    // A clean table.
    let ok = vec![
        EnumEncoding::Exact(2),
        EnumEncoding::Exact(3),
        EnumEncoding::Wildcard { mask: 0b1000, fixed: 0b1000 },
    ];
    assert!(find_ambiguous(&ok).is_none());
}

#[test]
fn encoding_bits_take_the_fixed_word() {
    assert_eq!(encoding_bits(&EnumEncoding::Exact(9)), 9);
    assert_eq!(
        encoding_bits(&EnumEncoding::Wildcard { mask: 0b1010, fixed: 0b1000 }),
        0b1000
    );
}
