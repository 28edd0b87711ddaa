//! Accessor generation: operation sets per access mode, write
//! disciplines, identifiers, defaults and error reporting.
use pacgen::accessor::{gen_lib_api, gen_peripheral_api, gen_register_api, ValueShape};
use pacgen::config::{gen_cargo_toml, resolve_config, Config, ConfigOption};
use pacgen::enumsynth::EnumEncoding;
use pacgen::layout::UintTy;
use pacgen::parse::{Access, BitRange, SchemaError};
use pacgen::schema::{
    Enum, EnumValue, Field, Peripheral, PeripheralAccess, Register, StringOrNumber,
    ValidationError,
};

fn field(name: &str, bit_range: BitRange) -> Field {
    Field {
        name: name.to_string(),
        bit_range,
        description: String::new(),
        access: None,
        default_value: None,
        enums: None,
    }
}

fn enum_value(name: &str, v: usize) -> EnumValue {
    EnumValue {
        name: name.to_string(),
        value: StringOrNumber::Number(v),
        description: String::new(),
        is_default: None,
    }
}

fn mode_enum() -> Enum {
    Enum {
        name: "mode_select".to_string(),
        values: vec![
            enum_value("normal", 0),
            enum_value("echo", 1),
            enum_value("local_loop", 2),
            enum_value("remote_loop", 3),
        ],
    }
}

/// A 32-bit read-write register with a single-bit `enable` field
/// (default false) and a 3-bit enumerated `mode` field.
fn control_register() -> Register {
    let mut enable = field("enable", BitRange::Single(0));
    enable.default_value = Some(0);
    let mut mode = field("mode", BitRange::Range(3, 1));
    mode.enums = Some(mode_enum());
    Register {
        name: "control".to_string(),
        offset: 0,
        size: 32,
        access: Access::ReadWrite,
        description: String::new(),
        fields: Some(vec![enable, mode]),
    }
}

#[test]
fn read_write_register_generates_full_accessor_set() {
    let api = gen_register_api(&control_register()).unwrap();
    assert_eq!(api.name, "control");
    assert_eq!(api.module_name, "control");
    assert_eq!(api.struct_name, "ControlRegister");
    assert_eq!(api.builder_name, "ControlBuilder");
    assert_eq!(api.ty, UintTy::U32);
    assert!(api.readable && api.writable && api.has_modify);
    // enable=false and mode=first declared variant (0) leave the
    // reset word zero.
    assert_eq!(api.reset_value, 0);

    let enable = &api.fields[0];
    assert!(enable.has_getter && enable.has_setter && enable.masked_setter);
    assert_eq!(enable.shape, ValueShape::Bit);
    assert_eq!((enable.low, enable.high), (0, 0));
    assert_eq!(enable.getter_name, "enable");
    assert_eq!(enable.setter_name, "with_enable");

    let mode = &api.fields[1];
    assert!(mode.has_getter && mode.has_setter && mode.masked_setter);
    assert_eq!(mode.shape, ValueShape::Enumerated);
    assert_eq!((mode.low, mode.high), (1, 3));
    let es = mode.enum_spec.as_ref().unwrap();
    assert_eq!(es.ty_name, "ModeSelect");
    assert_eq!(es.variants.len(), 4);
    assert_eq!(es.variants[0].variant_name, "Normal");
    assert_eq!(es.variants[0].encoding, EnumEncoding::Exact(0));
    assert!(es.variants[0].is_default);
    assert!(!es.variants[1].is_default);
}

#[test]
fn defaults_assemble_the_reset_word() {
    let mut enable = field("enable", BitRange::Single(0));
    enable.default_value = Some(1);
    let mut level = field("level", BitRange::Range(7, 4));
    level.default_value = Some(0b1010);
    let mut sel = field("sel", BitRange::Range(9, 8));
    sel.enums = Some(Enum {
        name: "sel".to_string(),
        values: vec![
            enum_value("a", 1),
            EnumValue {
                name: "b".to_string(),
                value: StringOrNumber::Number(2),
                description: String::new(),
                is_default: Some(true),
            },
        ],
    });
    let reg = Register {
        name: "cfg".to_string(),
        offset: 0,
        size: 32,
        access: Access::ReadWrite,
        description: String::new(),
        fields: Some(vec![enable, level, sel]),
    };
    let api = gen_register_api(&reg).unwrap();
    assert_eq!(api.reset_value, 1 | (0b1010 << 4) | (2 << 8));
}

#[test]
fn write_only_registers_use_unmasked_setters() {
    let reg = Register {
        name: "irq_disable".to_string(),
        offset: 0,
        size: 32,
        access: Access::WriteOnly,
        description: String::new(),
        fields: Some(vec![field("tovr", BitRange::Single(12))]),
    };
    let api = gen_register_api(&reg).unwrap();
    assert!(!api.readable && api.writable && !api.has_modify);
    let op = &api.fields[0];
    assert!(!op.has_getter);
    assert!(op.has_setter);
    assert!(!op.masked_setter);
}

#[test]
fn read_only_registers_generate_no_setters() {
    let reg = Register {
        name: "status".to_string(),
        offset: 0,
        size: 32,
        access: Access::ReadOnly,
        description: String::new(),
        fields: Some(vec![field("busy", BitRange::Single(0))]),
    };
    let api = gen_register_api(&reg).unwrap();
    assert!(api.readable && !api.writable && !api.has_modify);
    assert!(api.fields[0].has_getter);
    assert!(!api.fields[0].has_setter);
}

#[test]
fn field_access_narrows_the_register_mode() {
    let mut ro_field = field("counter", BitRange::Range(15, 8));
    ro_field.access = Some(Access::ReadOnly);
    let reg = Register {
        name: "mixed".to_string(),
        offset: 0,
        size: 32,
        access: Access::ReadWrite,
        description: String::new(),
        fields: Some(vec![ro_field]),
    };
    let api = gen_register_api(&reg).unwrap();
    let op = &api.fields[0];
    assert!(op.has_getter);
    assert!(!op.has_setter);
    assert_eq!(op.shape, ValueShape::Word(UintTy::U8));
}

#[test]
fn out_of_bounds_fields_are_rejected() {
    let reg = Register {
        name: "small".to_string(),
        offset: 0,
        size: 8,
        access: Access::ReadWrite,
        description: String::new(),
        fields: Some(vec![field("wide", BitRange::Range(8, 0))]),
    };
    match gen_register_api(&reg) {
        Err(ValidationError::FieldOutOfBounds { register, field }) => {
            assert_eq!(register, "small");
            assert_eq!(field, "wide");
        },
        other => panic!("expected FieldOutOfBounds, got {:?}", other.is_ok()),
    }
}

#[test]
fn overlapping_fields_are_rejected() {
    let reg = Register {
        name: "clash".to_string(),
        offset: 0,
        size: 32,
        access: Access::ReadWrite,
        description: String::new(),
        fields: Some(vec![
            field("a", BitRange::Range(4, 0)),
            field("b", BitRange::Range(7, 4)),
        ]),
    };
    match gen_register_api(&reg) {
        Err(ValidationError::OverlappingFields { register, first, second }) => {
            assert_eq!(register, "clash");
            assert_eq!(first, "a");
            assert_eq!(second, "b");
        },
        other => panic!("expected OverlappingFields, got {:?}", other.is_ok()),
    }
}

#[test]
fn ambiguous_enum_patterns_are_rejected() {
    let mut f = field("sel", BitRange::Range(3, 0));
    f.enums = Some(Enum {
        name: "sel_values".to_string(),
        values: vec![
            EnumValue {
                name: "low_half".to_string(),
                value: StringOrNumber::Text("0b0XXX".to_string()),
                description: String::new(),
                is_default: None,
            },
            enum_value("three", 3),
        ],
    });
    let reg = Register {
        name: "amb".to_string(),
        offset: 0,
        size: 32,
        access: Access::ReadWrite,
        description: String::new(),
        fields: Some(vec![f]),
    };
    match gen_register_api(&reg) {
        Err(ValidationError::AmbiguousEnumPattern { enum_name, .. }) => {
            assert_eq!(enum_name, "sel_values");
        },
        other => panic!("expected AmbiguousEnumPattern, got {:?}", other.is_ok()),
    }
}

#[test]
fn malformed_enum_values_are_rejected() {
    let mut f = field("sel", BitRange::Range(3, 0));
    f.enums = Some(Enum {
        name: "sel_values".to_string(),
        values: vec![EnumValue {
            name: "bad".to_string(),
            value: StringOrNumber::Text("zz".to_string()),
            description: String::new(),
            is_default: None,
        }],
    });
    let reg = Register {
        name: "bad_values".to_string(),
        offset: 0,
        size: 32,
        access: Access::ReadWrite,
        description: String::new(),
        fields: Some(vec![f]),
    };
    match gen_register_api(&reg) {
        Err(ValidationError::Malformed(e)) => assert_eq!(e, SchemaError::MalformedNumber),
        other => panic!("expected Malformed, got {:?}", other.is_ok()),
    }
}

#[test]
fn peripheral_api_carries_layout_and_register_apis() {
    let p = Peripheral {
        name: "MyUart".to_string(),
        base_address: 0xe000_1000,
        registers: vec![
            control_register(),
            Register {
                name: "scratch".to_string(),
                offset: 12,
                size: 32,
                access: Access::ReadWrite,
                description: String::new(),
                fields: None,
            },
        ],
    };
    let api = gen_peripheral_api(&p).unwrap();
    assert_eq!(api.name, "MyUart");
    assert_eq!(api.module_name, "my_uart");
    assert_eq!(api.base_address, 0xe000_1000);
    assert_eq!(api.slots.len(), 2);
    assert_eq!(api.slots[1].reserved_before, 2);
    assert!(api.registers[0].is_some());
    assert!(api.registers[1].is_none());
    assert_eq!(api.registers[0].as_ref().unwrap().struct_name, "ControlRegister");
}

#[test]
fn lib_api_names_peripheral_modules() {
    let pac = PeripheralAccess {
        name: "chip".to_string(),
        register_size: 32,
        is_no_std: None,
        peripherals: vec![
            Peripheral {
                name: "MyUart".to_string(),
                base_address: 0,
                registers: Vec::new(),
            },
            Peripheral {
                name: "SpiFlash".to_string(),
                base_address: 0,
                registers: Vec::new(),
            },
        ],
    };
    let api = gen_lib_api(&pac);
    assert!(api.no_std);
    assert_eq!(api.module_names, vec!["my_uart".to_string(), "spi_flash".to_string()]);

    let hosted = PeripheralAccess {
        name: "chip".to_string(),
        register_size: 32,
        is_no_std: Some(false),
        peripherals: Vec::new(),
    };
    assert!(!gen_lib_api(&hosted).no_std);
}

#[test]
fn cargo_manifest_splices_versions() {
    let config = resolve_config(&ConfigOption {
        bit_field_version: None,
        volatile_register_version: Some("0.2.1".to_string()),
    });
    assert_eq!(config.bit_field_version, "0.10.2");
    assert_eq!(config.volatile_register_version, "0.2.1");
    let text = gen_cargo_toml(
        "my_pac",
        &Config {
            bit_field_version: "0.10.2".to_string(),
            volatile_register_version: "0.2.2".to_string(),
        },
    );
    let expected = "[package]\nname = \"my_pac\"\nversion = \"0.1.0\"\nedition = \"2021\"\n\n[dependencies]\nbit_field = \"0.10.2\"\nvolatile-register = \"0.2.2\"\n";
    assert_eq!(text, expected);
}
