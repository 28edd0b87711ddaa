//! Schema-boundary parsing: numbers, bit ranges and access modes.
use pacgen::parse::{
    parse_bin_string, parse_dec_string, parse_hex_string, parse_num_string, render_bin_string,
    render_dec_string, render_hex_string, Access, BitRange, SchemaError,
};

#[test]
fn hex_strings_parse() {
    assert_eq!(parse_hex_string("0x1f"), Ok(31));
    assert_eq!(parse_hex_string("ff"), Ok(255));
    assert_eq!(parse_hex_string("0xDEADBEEF"), Ok(0xdead_beef));
    assert_eq!(parse_hex_string("0x0"), Ok(0));
}

#[test]
fn bin_strings_parse() {
    assert_eq!(parse_bin_string("0b101"), Ok(5));
    assert_eq!(parse_bin_string("0"), Ok(0));
    assert_eq!(parse_bin_string("0b11111111"), Ok(255));
}

#[test]
fn dec_strings_parse() {
    assert_eq!(parse_dec_string("123"), Ok(123));
    assert_eq!(parse_dec_string("0"), Ok(0));
}

#[test]
fn num_strings_dispatch_on_radix_marker() {
    assert_eq!(parse_num_string("0x10"), Ok(16));
    assert_eq!(parse_num_string("0b10"), Ok(2));
    assert_eq!(parse_num_string("10"), Ok(10));
}

#[test]
fn malformed_numbers_are_rejected() {
    assert_eq!(parse_num_string(""), Err(SchemaError::MalformedNumber));
    assert_eq!(parse_num_string("0x"), Err(SchemaError::MalformedNumber));
    assert_eq!(parse_num_string("0b"), Err(SchemaError::MalformedNumber));
    assert_eq!(parse_num_string("12a"), Err(SchemaError::MalformedNumber));
    assert_eq!(parse_num_string("0xZZ"), Err(SchemaError::MalformedNumber));
    assert_eq!(parse_num_string("0b012"), Err(SchemaError::MalformedNumber));
    assert_eq!(parse_num_string("-4"), Err(SchemaError::MalformedNumber));
    // Far too many digits to fit a machine word.
    assert_eq!(
        parse_num_string("99999999999999999999999999999999"),
        Err(SchemaError::MalformedNumber)
    );
}

#[test]
fn parse_inverts_render_in_every_radix() {
    for n in [0usize, 1, 2, 7, 8, 31, 100, 4096, 0xdead_beef, usize::MAX] {
        assert_eq!(parse_num_string(&render_hex_string(n)), Ok(n));
        assert_eq!(parse_num_string(&render_bin_string(n)), Ok(n));
        assert_eq!(parse_num_string(&render_dec_string(n)), Ok(n));
    }
}

#[test]
fn render_uses_expected_digits() {
    assert_eq!(render_hex_string(31), "0x1f");
    assert_eq!(render_bin_string(5), "0b101");
    assert_eq!(render_dec_string(123), "123");
    assert_eq!(render_dec_string(0), "0");
}

#[test]
fn bit_range_span_parses() {
    assert_eq!(BitRange::from_string("[7:0]"), Ok(BitRange::Range(7, 0)));
}

#[test]
fn bit_range_single_parses() {
    assert_eq!(BitRange::from_string("[3]"), Ok(BitRange::Single(3)));
}

#[test]
fn bit_range_three_parts_is_malformed() {
    assert_eq!(
        BitRange::from_string("[1:2:3]"),
        Err(SchemaError::MalformedBitRange)
    );
}

#[test]
fn bit_range_garbage_is_malformed() {
    assert_eq!(BitRange::from_string(""), Err(SchemaError::MalformedBitRange));
    assert_eq!(BitRange::from_string("[]"), Err(SchemaError::MalformedBitRange));
    assert_eq!(BitRange::from_string("[a]"), Err(SchemaError::MalformedBitRange));
    assert_eq!(BitRange::from_string("7:0"), Err(SchemaError::MalformedBitRange));
    assert_eq!(BitRange::from_string("[7:0"), Err(SchemaError::MalformedBitRange));
}

#[test]
fn bit_range_normalizes_to_low_high() {
    assert_eq!(BitRange::Range(7, 0).get_bit_range(), (0, 7));
    assert_eq!(BitRange::Range(0, 7).get_bit_range(), (0, 7));
    assert_eq!(BitRange::Single(3).get_bit_range(), (3, 3));
    assert!(BitRange::Single(3).is_single_bit());
    assert!(BitRange::Range(4, 4).is_single_bit());
    assert!(!BitRange::Range(7, 0).is_single_bit());
    assert_eq!(BitRange::Range(7, 0).width(), 8);
}

#[test]
fn access_tokens_parse_case_sensitively() {
    assert_eq!(Access::from_string("read-only"), Ok(Access::ReadOnly));
    assert_eq!(Access::from_string("write-only"), Ok(Access::WriteOnly));
    assert_eq!(Access::from_string("read-write"), Ok(Access::ReadWrite));
    assert_eq!(Access::from_string("write-to-clear"), Ok(Access::WriteToClear));
    assert_eq!(
        Access::from_string("READ-ONLY"),
        Err(SchemaError::UnknownAccessMode)
    );
    assert_eq!(Access::from_string("rw"), Err(SchemaError::UnknownAccessMode));
    assert_eq!(Access::from_string(""), Err(SchemaError::UnknownAccessMode));
}

#[test]
fn access_capabilities_follow_the_mode() {
    assert!(Access::ReadOnly.can_read() && !Access::ReadOnly.can_write());
    assert!(!Access::WriteOnly.can_read() && Access::WriteOnly.can_write());
    assert!(Access::ReadWrite.can_read() && Access::ReadWrite.can_write());
    assert!(Access::WriteToClear.can_read() && Access::WriteToClear.can_write());
}
