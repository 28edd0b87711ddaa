//! Layout engine: storage width selection, reserved regions and the
//! register-block walk.
use pacgen::layout::{calculate_reserved_region, get_smallest_rust_type, layout_register_block,
    UintTy};
use pacgen::parse::Access;
use pacgen::schema::{Peripheral, Register};
use pacgen::usize_to_bool;

fn opaque_register(name: &str, offset: usize, size: usize, access: Access) -> Register {
    Register {
        name: name.to_string(),
        offset,
        size,
        access,
        description: String::new(),
        fields: None,
    }
}

#[test]
fn minimal_width_selection_boundaries() {
    assert_eq!(get_smallest_rust_type(1), UintTy::U8);
    assert_eq!(get_smallest_rust_type(8), UintTy::U8);
    assert_eq!(get_smallest_rust_type(9), UintTy::U16);
    assert_eq!(get_smallest_rust_type(16), UintTy::U16);
    assert_eq!(get_smallest_rust_type(17), UintTy::U32);
    assert_eq!(get_smallest_rust_type(32), UintTy::U32);
    assert_eq!(get_smallest_rust_type(33), UintTy::U64);
    assert_eq!(get_smallest_rust_type(64), UintTy::U64);
    assert_eq!(get_smallest_rust_type(65), UintTy::U128);
    assert_eq!(get_smallest_rust_type(128), UintTy::U128);
    // Above the ceiling, widths clamp to the 128-bit type.
    assert_eq!(get_smallest_rust_type(129), UintTy::U128);
    assert_eq!(get_smallest_rust_type(4096), UintTy::U128);
}

#[test]
fn storage_bit_counts() {
    assert_eq!(get_smallest_rust_type(3).bits(), 8);
    assert_eq!(get_smallest_rust_type(12).bits(), 16);
    assert_eq!(get_smallest_rust_type(120).bits(), 128);
}

#[test]
fn reserved_regions_touching_offsets() {
    assert_eq!(calculate_reserved_region(4, 4, None), 0);
}

#[test]
fn reserved_regions_gap_in_words() {
    assert_eq!(calculate_reserved_region(4, 12, None), 2);
}

#[test]
fn reserved_regions_overlap_clamps_to_zero() {
    assert_eq!(calculate_reserved_region(12, 4, None), 0);
}

#[test]
fn reserved_regions_with_custom_word_size() {
    assert_eq!(calculate_reserved_region(0, 16, Some(8)), 2);
    assert_eq!(calculate_reserved_region(0, 6, None), 1);
}

#[test]
fn block_layout_tracks_high_water_mark() {
    let p = Peripheral {
        name: "uart".to_string(),
        base_address: 0xe000_0000,
        registers: vec![
            opaque_register("control", 0, 32, Access::ReadWrite),
            opaque_register("mode", 4, 32, Access::ReadWrite),
            // A gap: bytes 8..16 are unused, so two reserved words.
            opaque_register("status", 16, 32, Access::ReadOnly),
        ],
    };
    let slots = layout_register_block(&p);
    assert_eq!(slots.len(), 3);
    assert_eq!(slots[0].reserved_before, 0);
    assert_eq!(slots[1].reserved_before, 0);
    assert_eq!(slots[2].reserved_before, 2);
    assert!(!slots[0].overlaps_previous);
    assert!(!slots[2].overlaps_previous);
    assert_eq!(slots[2].name, "status");
    assert!(!slots[2].has_fields);
    assert_eq!(slots[2].access, Access::ReadOnly);
}

#[test]
fn block_layout_flags_overlapping_offsets() {
    let p = Peripheral {
        name: "dev".to_string(),
        base_address: 0,
        registers: vec![
            opaque_register("first", 0, 32, Access::ReadWrite),
            // Starts before the previous register's end offset of 4.
            opaque_register("second", 2, 32, Access::ReadWrite),
        ],
    };
    let slots = layout_register_block(&p);
    assert_eq!(slots[1].reserved_before, 0);
    assert!(slots[1].overlaps_previous);
}

#[test]
fn nonzero_counts_read_as_true() {
    assert!(!usize_to_bool(0));
    assert!(usize_to_bool(1));
    assert!(usize_to_bool(7));
}
