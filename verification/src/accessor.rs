//! Accessor generator: derives, per register, the abstract description
//! of the accessor API it is entitled to — which fields get getters
//! and setters, under which write discipline, with which storage
//! types and names, which enumerated decode tables back them, and the
//! reset word that the declared defaults assemble.
//!
//! The description is language-neutral; rendering it into source text
//! is a separate concern outside this crate's scope.
use vstd::prelude::*;
use vstd::string::StringExecFns;

use crate::bits::{set_field128, with_field128};
use crate::enumsynth::{
    default_variant_index, encoding_bits, find_ambiguous, parse_enum_encoding, spec_default_index,
    spec_encoding, spec_encoding_bits, spec_unambiguous, EnumEncoding,
};
use crate::layout::{get_smallest_rust_type, spec_smallest_uint, UintTy};
use crate::names::{pascal_of, snake_of, to_pascal_case, to_snake_case};
use crate::parse::Access;
use crate::schema::{spec_all_in_bounds, spec_no_overlap, validate_register};
use crate::schema::{Enum, EnumValue, Field, Peripheral, Register, ValidationError};

verus! {

/// The shape of the value one field accessor moves.
#[derive(Clone, Copy, Debug, PartialEq, Eq, Structural)]
pub enum ValueShape {
    /// A single bit, read and written as a flag.
    Bit,
    /// A plain multi-bit field, held in the smallest covering storage
    /// type.
    Word(UintTy),
    /// A field decoded through its enumerated value table.
    Enumerated,
}

/// One synthesized variant of a generated enum type.
pub struct VariantSpec {
    /// The declared value name.
    pub name: String,
    /// The variant identifier the generated type uses.
    pub variant_name: String,
    /// The synthesized encoding: exact word or wildcard pair.
    pub encoding: EnumEncoding,
    /// Whether this variant is the enum's default.
    pub is_default: bool,
}

/// A generated enum type backing one field.
pub struct EnumSpec {
    /// The declared enumeration name.
    pub name: String,
    /// The type identifier the generated code uses.
    pub ty_name: String,
    /// The variants, in declaration order.
    pub variants: Vec<VariantSpec>,
}

/// The generated accessor set of one field.
pub struct FieldOp {
    /// The declared field name.
    pub name: String,
    /// The getter identifier.
    pub getter_name: String,
    /// The builder-style setter identifier.
    pub setter_name: String,
    /// The normalized low bit of the field.
    pub low: usize,
    /// The normalized high bit of the field.
    pub high: usize,
    /// The shape of the value the accessors move.
    pub shape: ValueShape,
    /// Whether a getter is emitted: the field and its register must
    /// both be readable.
    pub has_getter: bool,
    /// Whether a setter is emitted: the field and its register must
    /// both be writable.
    pub has_setter: bool,
    /// Whether the setter may read-modify-write; a write-only
    /// register cannot be read back, so its setters write the other
    /// bits as zero.
    pub masked_setter: bool,
    /// The enum type backing the field, when it declares one.
    pub enum_spec: Option<EnumSpec>,
}

/// Whether the field's effective access — the narrower of its own
/// mode and its register's — grants reads.
pub open spec fn spec_field_readable(f: Field, reg_access: Access) -> bool {
    (match f.access {
        Some(a) => a.spec_can_read(),
        None => true,
    }) && reg_access.spec_can_read()
}

/// Whether the field's effective access grants writes.
pub open spec fn spec_field_writable(f: Field, reg_access: Access) -> bool {
    (match f.access {
        Some(a) => a.spec_can_write(),
        None => true,
    }) && reg_access.spec_can_write()
}

/// The shape of a field's accessor value: enumerated when it declares
/// values, a flag for one bit, otherwise the smallest covering word.
pub open spec fn spec_field_shape(f: Field) -> ValueShape {
    if f.enums is Some {
        ValueShape::Enumerated
    } else if f.bit_range.spec_normalized().0 == f.bit_range.spec_normalized().1 {
        ValueShape::Bit
    } else {
        ValueShape::Word(
            spec_smallest_uint(
                (f.bit_range.spec_normalized().1 - f.bit_range.spec_normalized().0
                    + 1) as usize,
            ),
        )
    }
}

/// Whether a synthesized enum matches its declaration: names carried
/// over, encodings synthesized value for value, exactly the first
/// marked value (or the first declared) is the default, and the table
/// is free of collisions.
pub open spec fn spec_enum_matches(es: EnumSpec, e: Enum) -> bool {
    &&& es.name@ == e.name@
    &&& es.ty_name@ == pascal_of(e.name@)
    &&& e.values@.len() > 0
    &&& es.variants@.len() == e.values@.len()
    &&& forall|i: int|
        0 <= i < e.values@.len() ==> {
            &&& (#[trigger] es.variants@[i]).name@ == e.values@[i].name@
            &&& es.variants@[i].variant_name@ == pascal_of(e.values@[i].name@)
            &&& Some(es.variants@[i].encoding) == spec_encoding(e.values@[i].value)
            &&& es.variants@[i].is_default == (Some(i) == spec_default_index(e.values@))
        }
    &&& spec_unambiguous(es.variants@.map_values(|v: VariantSpec| v.encoding))
}

/// Whether a field's generated accessor set matches its declaration
/// under the owning register's access mode.
pub open spec fn spec_field_op_matches(op: FieldOp, f: Field, reg_access: Access) -> bool {
    &&& op.name@ == f.name@
    &&& op.getter_name@ == snake_of(f.name@)
    &&& op.setter_name@ == "with_"@ + snake_of(f.name@)
    &&& op.low == f.bit_range.spec_normalized().0
    &&& op.high == f.bit_range.spec_normalized().1
    &&& op.shape == spec_field_shape(f)
    &&& op.has_getter == spec_field_readable(f, reg_access)
    &&& op.has_setter == spec_field_writable(f, reg_access)
    &&& op.masked_setter == reg_access.spec_can_read()
    &&& match (op.enum_spec, f.enums) {
        (Some(es), Some(e)) => spec_enum_matches(es, e),
        (None, None) => true,
        _ => false,
    }
}

/// The word a field contributes to the all-zero reset base: its
/// declared default value, or its enum's default variant encoding;
/// a field with neither leaves the word unchanged.
pub open spec fn spec_field_default(w: u128, f: Field) -> u128 {
    let lo = f.bit_range.spec_normalized().0;
    let hi = f.bit_range.spec_normalized().1;
    match f.default_value {
        Some(dv) => if lo == hi {
            with_field128(
                w,
                lo,
                hi,
                if dv != 0 {
                    1u128
                } else {
                    0u128
                },
            )
        } else {
            with_field128(w, lo, hi, dv as u128)
        },
        None => match f.enums {
            Some(e) => match spec_default_index(e.values@) {
                Some(i) => match spec_encoding(e.values@[i].value) {
                    Some(enc) => with_field128(w, lo, hi, spec_encoding_bits(enc) as u128),
                    None => w,
                },
                None => w,
            },
            None => w,
        },
    }
}

/// The reset word assembled by the first `i` fields, defaults applied
/// in declaration order over an all-zero base.
pub open spec fn spec_reset_word(fields: Seq<Field>, i: int) -> u128
    decreases i,
{
    if i <= 0 {
        0
    } else {
        spec_field_default(spec_reset_word(fields, i - 1), fields[i - 1])
    }
}

/// Everything the generator demands of one register's fields: bit
/// ranges inside both the declared width and the 128-bit storage
/// ceiling, no overlap, and every declared enum synthesizable without
/// collisions.
pub open spec fn spec_register_valid(reg: Register) -> bool {
    &&& reg.fields is Some
    &&& spec_all_in_bounds(reg.fields.unwrap()@, reg.size)
    &&& spec_no_overlap(reg.fields.unwrap()@)
    &&& forall|i: int|
        0 <= i < reg.fields.unwrap()@.len() ==> (#[trigger] reg.fields.unwrap()@[i]).bit_range.spec_normalized().1 < 128
}

/// Whether an enumeration can be synthesized at all: it has values,
/// each value's encoding is well formed, and the resulting table is
/// free of collisions.
pub open spec fn spec_enum_synthesizable(e: Enum) -> bool {
    &&& e.values@.len() > 0
    &&& forall|j: int|
        0 <= j < e.values@.len() ==> spec_encoding((#[trigger] e.values@[j]).value) is Some
    &&& spec_unambiguous(
        e.values@.map_values(|v: EnumValue| spec_encoding(v.value).unwrap()),
    )
}

/// Synthesizes the generated enum type of one field.
#[verifier::loop_isolation(false)]
fn synth_enum(e: &Enum) -> (r: Result<EnumSpec, ValidationError>)
    requires
        e.values@.len() > 0,
    ensures
        match r {
            Ok(es) => spec_enum_synthesizable(*e) && spec_enum_matches(es, *e),
            Err(err) => !spec_enum_synthesizable(*e) && match err {
                ValidationError::Malformed(se) => se == crate::parse::SchemaError::MalformedNumber,
                ValidationError::AmbiguousEnumPattern { enum_name, value: _ } => enum_name@
                    == e.name@,
                _ => false,
            },
        },
{
    let n = e.values.len();
    let mut encodings: Vec<EnumEncoding> = Vec::new();
    let mut i: usize = 0;
    while i < n
        invariant
            0 <= i <= n,
            encodings@.len() == i,
            forall|k: int|
                0 <= k < i ==> Some(#[trigger] encodings@[k]) == spec_encoding(
                    e.values@[k].value,
                ),
        decreases n - i,
    {
        match parse_enum_encoding(&e.values[i].value) {
            Ok(enc) => {
                encodings.push(enc);
            },
            Err(se) => {
                proof {
                    assert(spec_encoding(e.values@[i as int].value) is None);
                }
                return Err(ValidationError::Malformed(se));
            },
        }
        i = i + 1;
    }
    proof {
        assert(e.values@.map_values(|v: EnumValue| spec_encoding(v.value).unwrap())
            =~= encodings@);
    }
    match find_ambiguous(&encodings) {
        Some(k) => {
            proof {
                assert(!spec_unambiguous(
                    e.values@.map_values(|v: EnumValue| spec_encoding(v.value).unwrap()),
                ));
            }
            return Err(
                ValidationError::AmbiguousEnumPattern {
                    enum_name: e.name.clone(),
                    value: e.values[k].name.clone(),
                },
            );
        },
        None => {},
    }
    let default_index = match default_variant_index(&e.values) {
        Some(d) => d,
        None => {
            proof {
                assert(false);
            }
            return Err(ValidationError::Malformed(crate::parse::SchemaError::MalformedNumber));
        },
    };
    let mut variants: Vec<VariantSpec> = Vec::new();
    let mut j: usize = 0;
    while j < n
        invariant
            0 <= j <= n,
            variants@.len() == j,
            spec_default_index(e.values@) == Some(default_index as int),
            forall|k: int|
                0 <= k < j ==> {
                    &&& (#[trigger] variants@[k]).name@ == e.values@[k].name@
                    &&& variants@[k].variant_name@ == pascal_of(e.values@[k].name@)
                    &&& Some(variants@[k].encoding) == spec_encoding(e.values@[k].value)
                    &&& variants@[k].is_default == (Some(k) == spec_default_index(e.values@))
                },
            forall|k: int|
                0 <= k < j ==> #[trigger] variants@[k].encoding == encodings@[k],
        decreases n - j,
    {
        let v = VariantSpec {
            name: e.values[j].name.clone(),
            variant_name: to_pascal_case(e.values[j].name.as_str()),
            encoding: encodings[j],
            is_default: j == default_index,
        };
        variants.push(v);
        j = j + 1;
    }
    let es = EnumSpec {
        name: e.name.clone(),
        ty_name: to_pascal_case(e.name.as_str()),
        variants,
    };
    proof {
        assert(es.variants@.map_values(|v: VariantSpec| v.encoding) =~= encodings@);
        assert forall|k: int| 0 <= k < e.values@.len() implies spec_encoding(
            (#[trigger] e.values@[k]).value,
        ) is Some by {
            assert(Some(encodings@[k]) == spec_encoding(e.values@[k].value));
        }
    }
    Ok(es)
}

/// Derives the accessor set of one field under its register's access
/// mode.
fn gen_field_op(f: &Field, reg_access: Access) -> (r: Result<FieldOp, ValidationError>)
    requires
        f.bit_range.spec_normalized().1 < 128,
        f.enums is Some ==> f.enums.unwrap().values@.len() > 0,
    ensures
        match r {
            Ok(op) => spec_field_op_matches(op, *f, reg_access) && (f.enums is Some
                ==> spec_enum_synthesizable(f.enums.unwrap())),
            Err(err) => f.enums is Some && !spec_enum_synthesizable(f.enums.unwrap())
                && match err {
                ValidationError::Malformed(se) => se == crate::parse::SchemaError::MalformedNumber,
                ValidationError::AmbiguousEnumPattern { enum_name, value: _ } => enum_name@
                    == f.enums.unwrap().name@,
                _ => false,
            },
        },
{
    let (low, high) = f.bit_range.get_bit_range();
    let enum_spec: Option<EnumSpec> = match &f.enums {
        Some(e) => match synth_enum(e) {
            Ok(es) => Some(es),
            Err(err) => {
                proof {
                    assert(f.enums.unwrap() == *e);
                }
                return Err(err);
            },
        },
        None => None,
    };
    let shape = if enum_spec.is_some() {
        ValueShape::Enumerated
    } else if low == high {
        ValueShape::Bit
    } else {
        ValueShape::Word(get_smallest_rust_type(high - low + 1))
    };
    let field_readable = match &f.access {
        Some(a) => a.can_read(),
        None => true,
    };
    let field_writable = match &f.access {
        Some(a) => a.can_write(),
        None => true,
    };
    let snake = to_snake_case(f.name.as_str());
    let setter_name = String::from_str("with_").concat(snake.as_str());
    Ok(
        FieldOp {
            name: f.name.clone(),
            getter_name: snake,
            setter_name,
            low,
            high,
            shape,
            has_getter: field_readable && reg_access.can_read(),
            has_setter: field_writable && reg_access.can_write(),
            masked_setter: reg_access.can_read(),
            enum_spec,
        },
    )
}

/// Applies one field's default into a register word under assembly.
fn field_default_apply(w: u128, f: &Field) -> (r: u128)
    requires
        f.bit_range.spec_normalized().1 < 128,
        f.enums is Some ==> f.enums.unwrap().values@.len() > 0,
    ensures
        r == spec_field_default(w, *f),
{
    let (lo, hi) = f.bit_range.get_bit_range();
    match f.default_value {
        Some(dv) => {
            let x: u128 = if lo == hi {
                if dv != 0 {
                    1
                } else {
                    0
                }
            } else {
                dv as u128
            };
            set_field128(w, lo, hi, x)
        },
        None => match &f.enums {
            Some(e) => match default_variant_index(&e.values) {
                Some(i) => match parse_enum_encoding(&e.values[i].value) {
                    Ok(enc) => {
                        let b = encoding_bits(&enc);
                        set_field128(w, lo, hi, b as u128)
                    },
                    Err(_) => w,
                },
                None => w,
            },
            None => w,
        },
    }
}

/// The generated accessor API of one register with fields.
pub struct RegisterApi {
    /// The declared register name.
    pub name: String,
    /// The module identifier the register's accessor code lives in.
    pub module_name: String,
    /// The identifier of the register's accessor type.
    pub struct_name: String,
    /// The identifier of the register's builder type.
    pub builder_name: String,
    /// The storage type covering the register's declared width.
    pub ty: UintTy,
    /// Whether the register exposes a read operation.
    pub readable: bool,
    /// Whether the register exposes a write operation and a
    /// zero-initialized builder.
    pub writable: bool,
    /// Whether the register exposes a read-modify-write operation:
    /// only when it is both readable and writable.
    pub has_modify: bool,
    /// The reset word: every declared default applied over zero.
    pub reset_value: u128,
    /// The per-field accessor sets, in declaration order.
    pub fields: Vec<FieldOp>,
}

/// Whether a generated register API matches its declaration.
pub open spec fn spec_register_api_matches(api: RegisterApi, reg: Register) -> bool {
    &&& api.name@ == reg.name@
    &&& api.module_name@ == snake_of(reg.name@)
    &&& api.struct_name@ == pascal_of(reg.name@) + "Register"@
    &&& api.builder_name@ == pascal_of(reg.name@) + "Builder"@
    &&& api.ty == spec_smallest_uint(reg.size)
    &&& api.readable == reg.access.spec_can_read()
    &&& api.writable == reg.access.spec_can_write()
    &&& api.has_modify == (reg.access.spec_can_read() && reg.access.spec_can_write())
    &&& api.reset_value == spec_reset_word(
        reg.fields.unwrap()@,
        reg.fields.unwrap()@.len() as int,
    )
    &&& api.fields@.len() == reg.fields.unwrap()@.len()
    &&& forall|i: int|
        0 <= i < api.fields@.len() ==> spec_field_op_matches(
            #[trigger] api.fields@[i],
            reg.fields.unwrap()@[i],
            reg.access,
        )
}

/// Whether every enumeration declared by the register's fields can be
/// synthesized.
pub open spec fn spec_register_enums_ok(reg: Register) -> bool {
    forall|i: int|
        0 <= i < reg.fields.unwrap()@.len() && (#[trigger] reg.fields.unwrap()@[i]).enums
            is Some ==> spec_enum_synthesizable(reg.fields.unwrap()@[i].enums.unwrap())
}

/// Everything register generation demands: fields declared, in
/// bounds, disjoint, within the 128-bit storage ceiling, and every
/// enum table synthesizable.
pub open spec fn spec_register_generatable(reg: Register) -> bool {
    spec_register_valid(reg) && spec_register_enums_ok(reg)
}

/// Derives the full accessor API of one register with fields: the
/// identifiers, the storage type, the operation set its access mode
/// entitles it to, the reset word, and each field's accessors.
#[verifier::loop_isolation(false)]
pub fn gen_register_api(reg: &Register) -> (r: Result<RegisterApi, ValidationError>)
    requires
        reg.fields is Some,
        forall|i: int|
            0 <= i < reg.fields.unwrap()@.len() && (#[trigger] reg.fields.unwrap()@[i]).enums
                is Some ==> reg.fields.unwrap()@[i].enums.unwrap().values@.len() > 0,
    ensures
        match r {
            Ok(api) => spec_register_generatable(*reg) && spec_register_api_matches(api, *reg),
            Err(err) => !spec_register_generatable(*reg) && match err {
                ValidationError::FieldOutOfBounds { register, field: _ } => register@
                    == reg.name@,
                ValidationError::OverlappingFields { register, first: _, second: _ } => register@
                    == reg.name@,
                ValidationError::Malformed(se) => se
                    == crate::parse::SchemaError::MalformedNumber,
                ValidationError::AmbiguousEnumPattern { enum_name: _, value: _ } => true,
            },
        },
{
    match validate_register(reg) {
        Ok(_) => {},
        Err(err) => {
            return Err(err);
        },
    }
    let fields = match &reg.fields {
        Some(fields) => fields,
        None => {
            proof {
                assert(false);
            }
            return Err(ValidationError::Malformed(crate::parse::SchemaError::MalformedNumber));
        },
    };
    let n = fields.len();

    // The storage ceiling: no field may live above bit 127.
    let mut i: usize = 0;
    while i < n
        invariant
            0 <= i <= n,
            n == fields@.len(),
            forall|k: int|
                0 <= k < i ==> (#[trigger] fields@[k]).bit_range.spec_normalized().1 < 128,
        decreases n - i,
    {
        let (_, high) = fields[i].bit_range.get_bit_range();
        if high >= 128 {
            return Err(
                ValidationError::FieldOutOfBounds {
                    register: reg.name.clone(),
                    field: fields[i].name.clone(),
                },
            );
        }
        i = i + 1;
    }

    // Assemble the reset word, defaults applied in declaration order.
    let mut reset: u128 = 0;
    let mut j: usize = 0;
    while j < n
        invariant
            0 <= j <= n,
            reset == spec_reset_word(fields@, j as int),
        decreases n - j,
    {
        reset = field_default_apply(reset, &fields[j]);
        j = j + 1;
    }

    // Derive each field's accessor set.
    let mut ops: Vec<FieldOp> = Vec::new();
    let mut k: usize = 0;
    while k < n
        invariant
            0 <= k <= n,
            ops@.len() == k,
            forall|t: int|
                0 <= t < k ==> spec_field_op_matches(
                    #[trigger] ops@[t],
                    fields@[t],
                    reg.access,
                ),
            forall|t: int|
                0 <= t < k && (#[trigger] fields@[t]).enums is Some ==> spec_enum_synthesizable(
                    fields@[t].enums.unwrap(),
                ),
        decreases n - k,
    {
        match gen_field_op(&fields[k], reg.access) {
            Ok(op) => {
                ops.push(op);
            },
            Err(err) => {
                return Err(err);
            },
        }
        k = k + 1;
    }

    let pascal = to_pascal_case(reg.name.as_str());
    let api = RegisterApi {
        name: reg.name.clone(),
        module_name: to_snake_case(reg.name.as_str()),
        struct_name: pascal.clone().concat("Register"),
        builder_name: pascal.concat("Builder"),
        ty: get_smallest_rust_type(reg.size),
        readable: reg.access.can_read(),
        writable: reg.access.can_write(),
        has_modify: reg.access.can_read() && reg.access.can_write(),
        reset_value: reset,
        fields: ops,
    };
    Ok(api)
}

/// The generated accessor API of one peripheral: its register-block
/// layout and, for each register that declares fields, the register's
/// own API.
pub struct PeripheralApi {
    /// The declared peripheral name.
    pub name: String,
    /// The module identifier the peripheral's code lives in.
    pub module_name: String,
    /// The peripheral's absolute base address.
    pub base_address: usize,
    /// The block layout, one slot per register in declaration order.
    pub slots: Vec<crate::layout::BlockSlot>,
    /// Aligned with `slots`: the register API where the register
    /// declares fields, nothing where it is an opaque word.
    pub registers: Vec<Option<RegisterApi>>,
}

/// Whether every enumeration under a register's fields declares at
/// least one value.
pub open spec fn spec_enums_nonempty(reg: Register) -> bool {
    reg.fields is Some ==> forall|i: int|
        0 <= i < reg.fields.unwrap()@.len() && (#[trigger] reg.fields.unwrap()@[i]).enums
            is Some ==> reg.fields.unwrap()@[i].enums.unwrap().values@.len() > 0
}

/// Derives the accessor API of a whole peripheral: the block layout
/// with reserved padding and overlap diagnostics, and each
/// field-bearing register's API. Fails on the first register whose
/// declaration cannot be generated from.
#[verifier::loop_isolation(false)]
pub fn gen_peripheral_api(p: &Peripheral) -> (r: Result<PeripheralApi, ValidationError>)
    requires
        forall|i: int|
            0 <= i < p.registers@.len() ==> (#[trigger] p.registers@[i]).offset + p.registers@[i].size
                / 8 <= usize::MAX,
        forall|i: int|
            0 <= i < p.registers@.len() ==> spec_enums_nonempty(#[trigger] p.registers@[i]),
    ensures
        match r {
            Ok(api) => {
                &&& api.name@ == p.name@
                &&& api.module_name@ == snake_of(p.name@)
                &&& api.base_address == p.base_address
                &&& api.slots@.len() == p.registers@.len()
                &&& forall|i: int|
                    0 <= i < p.registers@.len() ==> {
                        &&& (#[trigger] api.slots@[i]).name@ == p.registers@[i].name@
                        &&& api.slots@[i].reserved_before == crate::layout::spec_reserved_words(
                            crate::layout::spec_high_water(p.registers@, i),
                            p.registers@[i].offset,
                            4,
                        )
                        &&& api.slots@[i].has_fields == (p.registers@[i].fields is Some)
                        &&& api.slots@[i].access == p.registers@[i].access
                        &&& api.slots@[i].overlaps_previous == (p.registers@[i].offset
                            < crate::layout::spec_high_water(p.registers@, i))
                    }
                &&& api.registers@.len() == p.registers@.len()
                &&& forall|i: int|
                    0 <= i < p.registers@.len() ==> match #[trigger] api.registers@[i] {
                        Some(rapi) => p.registers@[i].fields is Some
                            && spec_register_generatable(p.registers@[i])
                            && spec_register_api_matches(rapi, p.registers@[i]),
                        None => p.registers@[i].fields is None,
                    }
            },
            Err(_) => exists|i: int|
                0 <= i < p.registers@.len() && (#[trigger] p.registers@[i]).fields is Some
                    && !spec_register_generatable(p.registers@[i]),
        },
{
    let slots = crate::layout::layout_register_block(p);
    let n = p.registers.len();
    let mut apis: Vec<Option<RegisterApi>> = Vec::new();
    let mut i: usize = 0;
    while i < n
        invariant
            0 <= i <= n,
            apis@.len() == i,
            forall|k: int|
                0 <= k < i ==> match #[trigger] apis@[k] {
                    Some(rapi) => p.registers@[k].fields is Some && spec_register_generatable(
                        p.registers@[k],
                    ) && spec_register_api_matches(rapi, p.registers@[k]),
                    None => p.registers@[k].fields is None,
                },
        decreases n - i,
    {
        let reg = &p.registers[i];
        if reg.fields.is_some() {
            match gen_register_api(reg) {
                Ok(rapi) => {
                    apis.push(Some(rapi));
                },
                Err(err) => {
                    return Err(err);
                },
            }
        } else {
            apis.push(None);
        }
        i = i + 1;
    }
    Ok(
        PeripheralApi {
            name: p.name.clone(),
            module_name: to_snake_case(p.name.as_str()),
            base_address: p.base_address,
            slots,
            registers: apis,
        },
    )
}

/// The generated crate-level description: the freestanding flag and
/// one module per peripheral.
pub struct LibApi {
    /// Whether the generated crate assumes a minimal runtime; the
    /// schema's flag, with freestanding as the documented default.
    pub no_std: bool,
    /// The peripheral module identifiers, in declaration order.
    pub module_names: Vec<String>,
}

/// Derives the crate-level description of a unit: the freestanding
/// flag, defaulting to freestanding when the schema is silent, and
/// the module name of every peripheral.
#[verifier::loop_isolation(false)]
pub fn gen_lib_api(pac: &crate::schema::PeripheralAccess) -> (r: LibApi)
    ensures
        r.no_std == (match pac.is_no_std {
            Some(b) => b,
            None => true,
        }),
        r.module_names@.len() == pac.peripherals@.len(),
        forall|i: int|
            0 <= i < pac.peripherals@.len() ==> (#[trigger] r.module_names@[i])@ == snake_of(
                pac.peripherals@[i].name@,
            ),
{
    let no_std = match pac.is_no_std {
        Some(b) => b,
        None => true,
    };
    let n = pac.peripherals.len();
    let mut names: Vec<String> = Vec::new();
    let mut i: usize = 0;
    while i < n
        invariant
            0 <= i <= n,
            names@.len() == i,
            forall|k: int|
                0 <= k < i ==> (#[trigger] names@[k])@ == snake_of(pac.peripherals@[k].name@),
        decreases n - i,
    {
        let m = to_snake_case(pac.peripherals[i].name.as_str());
        names.push(m);
        i = i + 1;
    }
    LibApi { no_std, module_names: names }
}

} // verus!
