//! The schema model: the in-memory form of a parsed peripheral
//! description, with normalized numeric values, and the model-level
//! validation that every later stage relies on.
use vstd::prelude::*;
use vstd::string::StringExecFns;

use crate::parse::{
    parse_num_string, render_dec_string, spec_parse_num, spec_render_digits, Access, BitRange,
    SchemaError,
};

verus! {

/// A schema value that may be written as a number or as a string;
/// enumerated values use the string form for wildcard bit patterns.
#[derive(Clone, Debug)]
pub enum StringOrNumber {
    Text(String),
    Number(usize),
}

impl StringOrNumber {
    /// The text form of the value: a number renders in decimal.
    pub fn to_text(&self) -> (r: String)
        ensures
            match self {
                StringOrNumber::Text(s) => r@ == s@,
                StringOrNumber::Number(n) => r@ == spec_render_digits(*n as nat, 10),
            },
    {
        match self {
            StringOrNumber::Text(s) => s.clone(),
            StringOrNumber::Number(n) => render_dec_string(*n),
        }
    }

    /// The numeric form of the value: a string must parse in one of
    /// the three radix grammars.
    pub fn to_number(&self) -> (r: Result<usize, SchemaError>)
        ensures
            match self {
                StringOrNumber::Text(s) => match r {
                    Ok(n) => spec_parse_num(s@) == Some(n as nat),
                    Err(e) => e == SchemaError::MalformedNumber && (spec_parse_num(s@) is None
                        || spec_parse_num(s@).unwrap() > usize::MAX),
                },
                StringOrNumber::Number(n) => r == Ok::<usize, SchemaError>(*n),
            },
    {
        match self {
            StringOrNumber::Text(s) => parse_num_string(s.as_str()),
            StringOrNumber::Number(n) => Ok(*n),
        }
    }
}

/// One enumerated value of a field: a name, an encoding that is an
/// exact number or a wildcard bit-pattern string, and an optional
/// default mark.
#[derive(Clone, Debug)]
pub struct EnumValue {
    pub name: String,
    pub value: StringOrNumber,
    pub description: String,
    pub is_default: Option<bool>,
}

/// The enumerated meaning of a field: a named, ordered set of values.
#[derive(Clone, Debug)]
pub struct Enum {
    pub name: String,
    pub values: Vec<EnumValue>,
}

/// A named, contiguous bit range within a register, with its own
/// access mode, optional default value and optional enumeration.
#[derive(Clone, Debug)]
pub struct Field {
    pub name: String,
    pub bit_range: BitRange,
    pub description: String,
    pub access: Option<Access>,
    pub default_value: Option<usize>,
    pub enums: Option<Enum>,
}

/// A fixed-width memory-mapped storage unit at a byte offset from its
/// peripheral's base, with a declared access mode and optional fields.
#[derive(Clone, Debug)]
pub struct Register {
    pub name: String,
    pub offset: usize,
    pub size: usize,
    pub access: Access,
    pub description: String,
    pub fields: Option<Vec<Field>>,
}

/// A memory-mapped device: a base address and its registers in
/// declaration order.
#[derive(Clone, Debug)]
pub struct Peripheral {
    pub name: String,
    pub base_address: usize,
    pub registers: Vec<Register>,
}

/// The top-level unit: a named set of peripherals with a declared
/// register storage width and a freestanding-runtime flag.
#[derive(Clone, Debug)]
pub struct PeripheralAccess {
    pub name: String,
    pub register_size: usize,
    pub is_no_std: Option<bool>,
    pub peripherals: Vec<Peripheral>,
}

/// A unit description that names its peripherals by file instead of
/// holding them inline.
#[derive(Clone, Debug)]
pub struct Manifest {
    pub name: String,
    pub register_size: usize,
    pub is_no_std: Option<bool>,
    pub peripherals: Vec<String>,
}

/// A defect in the parsed model, reported with enough identity for a
/// human to locate it in the schema.
#[derive(Clone, Debug)]
pub enum ValidationError {
    /// A field's bit range leaves the `[0, register width)` interval.
    FieldOutOfBounds { register: String, field: String },
    /// Two sibling fields claim a common bit.
    OverlappingFields { register: String, first: String, second: String },
    /// A wildcard enum pattern also matches another value of the same
    /// enumeration, or two exact values collide.
    AmbiguousEnumPattern { enum_name: String, value: String },
    /// A value string deeper in the model failed to parse.
    Malformed(SchemaError),
}

/// Whether a field's bit range lies entirely within a register of
/// `size` bits.
pub open spec fn spec_field_in_bounds(f: Field, size: usize) -> bool {
    f.bit_range.spec_normalized().1 < size
}

/// Whether two fields claim no common bit.
pub open spec fn spec_fields_disjoint(a: Field, b: Field) -> bool {
    a.bit_range.spec_normalized().1 < b.bit_range.spec_normalized().0
        || b.bit_range.spec_normalized().1 < a.bit_range.spec_normalized().0
}

/// Whether every field of the sequence fits a register of `size` bits.
pub open spec fn spec_all_in_bounds(fields: Seq<Field>, size: usize) -> bool {
    forall|i: int| 0 <= i < fields.len() ==> spec_field_in_bounds(#[trigger] fields[i], size)
}

/// Whether no two fields of the sequence overlap.
pub open spec fn spec_no_overlap(fields: Seq<Field>) -> bool {
    forall|i: int, j: int|
        0 <= i < j < fields.len() ==> spec_fields_disjoint(#[trigger] fields[i], #[trigger] fields[j])
}

/// Validates a register's field list: every bit range must lie within
/// the register's width, and no two sibling fields may overlap.
///
/// Returns `Ok` exactly when both hold; `FieldOutOfBounds` exactly
/// when some field leaves the register, naming one; otherwise
/// `OverlappingFields` exactly when two fields collide, naming a pair.
#[verifier::loop_isolation(false)]
pub fn validate_register(reg: &Register) -> (r: Result<(), ValidationError>)
    ensures
        match reg.fields {
            Some(fields) => match r {
                Ok(_) => spec_all_in_bounds(fields@, reg.size) && spec_no_overlap(fields@),
                Err(e) => match e {
                    ValidationError::FieldOutOfBounds { register, field } => !spec_all_in_bounds(
                        fields@,
                        reg.size,
                    ) && register@ == reg.name@,
                    ValidationError::OverlappingFields { register, first, second } =>
                        spec_all_in_bounds(fields@, reg.size) && !spec_no_overlap(fields@)
                        && register@ == reg.name@,
                    _ => false,
                },
            },
            None => r == Ok::<(), ValidationError>(()),
        },
{
    let fields = match &reg.fields {
        Some(fields) => fields,
        None => {
            return Ok(());
        },
    };
    let n = fields.len();
    let mut i: usize = 0;
    while i < n
        invariant
            0 <= i <= n,
            n == fields@.len(),
            forall|k: int| 0 <= k < i ==> spec_field_in_bounds(#[trigger] fields@[k], reg.size),
        decreases n - i,
    {
        let f = &fields[i];
        let (_, high) = f.bit_range.get_bit_range();
        if high >= reg.size {
            proof {
                assert(!spec_field_in_bounds(fields@[i as int], reg.size));
                assert(!spec_all_in_bounds(fields@, reg.size));
            }
            return Err(
                ValidationError::FieldOutOfBounds {
                    register: reg.name.clone(),
                    field: f.name.clone(),
                },
            );
        }
        i = i + 1;
    }
    let mut a: usize = 0;
    while a < n
        invariant
            0 <= a <= n,
            n == fields@.len(),
            spec_all_in_bounds(fields@, reg.size),
            forall|i2: int, j2: int|
                0 <= i2 < j2 < fields@.len() && i2 < a ==> spec_fields_disjoint(
                    #[trigger] fields@[i2],
                    #[trigger] fields@[j2],
                ),
        decreases n - a,
    {
        let (a_low, a_high) = fields[a].bit_range.get_bit_range();
        let mut b: usize = a + 1;
        while b < n
            invariant
                0 <= a < b <= n,
                n == fields@.len(),
                spec_all_in_bounds(fields@, reg.size),
                a_low == fields@[a as int].bit_range.spec_normalized().0,
                a_high == fields@[a as int].bit_range.spec_normalized().1,
                forall|j2: int|
                    a < j2 < b ==> spec_fields_disjoint(
                        fields@[a as int],
                        #[trigger] fields@[j2],
                    ),
            decreases n - b,
        {
            let (b_low, b_high) = fields[b].bit_range.get_bit_range();
            if !(a_high < b_low || b_high < a_low) {
                proof {
                    assert(!spec_fields_disjoint(fields@[a as int], fields@[b as int]));
                    assert(!spec_no_overlap(fields@));
                }
                return Err(
                    ValidationError::OverlappingFields {
                        register: reg.name.clone(),
                        first: fields[a].name.clone(),
                        second: fields[b].name.clone(),
                    },
                );
            }
            b = b + 1;
        }
        a = a + 1;
    }
    Ok(())
}

} // verus!
