//! Layout engine: walks a peripheral's registers in declaration order,
//! tracks the high-water-mark byte offset, sizes the reserved padding
//! that keeps later registers at their declared offsets, and picks the
//! minimal storage width for a declared bit width.
use vstd::prelude::*;

use crate::parse::Access;
use crate::schema::{Peripheral, Register};

verus! {

/// The unsigned storage types a register or field can be held in.
#[derive(Clone, Copy, Debug, PartialEq, Eq, Structural)]
pub enum UintTy {
    U8,
    U16,
    U32,
    U64,
    U128,
}

impl UintTy {
    /// The width of the storage type, in bits.
    pub open spec fn spec_bits(self) -> u32 {
        match self {
            UintTy::U8 => 8,
            UintTy::U16 => 16,
            UintTy::U32 => 32,
            UintTy::U64 => 64,
            UintTy::U128 => 128,
        }
    }

    /// The width of the storage type, in bits.
    pub fn bits(&self) -> (r: u32)
        ensures
            r == self.spec_bits(),
    {
        match *self {
            UintTy::U8 => 8,
            UintTy::U16 => 16,
            UintTy::U32 => 32,
            UintTy::U64 => 64,
            UintTy::U128 => 128,
        }
    }
}

/// The smallest storage type whose capacity covers `size` bits;
/// anything above 128 bits is clamped to the 128-bit type, a
/// deliberate ceiling.
pub open spec fn spec_smallest_uint(size: usize) -> UintTy {
    if 1 <= size <= 8 {
        UintTy::U8
    } else if 9 <= size <= 16 {
        UintTy::U16
    } else if 17 <= size <= 32 {
        UintTy::U32
    } else if 33 <= size <= 64 {
        UintTy::U64
    } else {
        UintTy::U128
    }
}

/// Picks the smallest storage type that can hold `size` bits.
pub fn get_smallest_rust_type(size: usize) -> (r: UintTy)
    ensures
        r == spec_smallest_uint(size),
{
    if 1 <= size && size <= 8 {
        UintTy::U8
    } else if 9 <= size && size <= 16 {
        UintTy::U16
    } else if 17 <= size && size <= 32 {
        UintTy::U32
    } else if 33 <= size && size <= 64 {
        UintTy::U64
    } else {
        UintTy::U128
    }
}

/// The number of reserved padding words between the end of the
/// previous register and the start of the current one; zero when the
/// offsets touch or overlap (non-negative clamp).
pub open spec fn spec_reserved_words(
    previous_offset: usize,
    current_offset: usize,
    word_bytes: usize,
) -> usize {
    if current_offset > previous_offset {
        (((current_offset - previous_offset) as int / word_bytes as int)) as usize
    } else {
        0
    }
}

/// Sizes the reserved region between two register offsets, in words of
/// `register_size` bytes (32-bit words when unspecified).
pub fn calculate_reserved_region(
    previous_offset: usize,
    current_offset: usize,
    register_size: Option<usize>,
) -> (r: usize)
    requires
        register_size is Some ==> register_size.unwrap() > 0,
    ensures
        r == spec_reserved_words(
            previous_offset,
            current_offset,
            match register_size {
                Some(s) => s,
                None => 4,
            },
        ),
{
    let word_bytes: usize = match register_size {
        Some(s) => s,
        None => 4,
    };
    if current_offset > previous_offset {
        (current_offset - previous_offset) / word_bytes
    } else {
        0
    }
}

/// One register's place in the generated register-block layout.
pub struct BlockSlot {
    /// The register's schema name.
    pub name: String,
    /// 32-bit reserved padding words to emit before this register.
    pub reserved_before: usize,
    /// Whether the register declares fields and so gets a module and
    /// an accessor type of its own; without fields it is an opaque
    /// word of its access mode.
    pub has_fields: bool,
    /// The register's declared access mode.
    pub access: Access,
    /// Whether the register starts before the previous register ends:
    /// a layout-overlap diagnostic.
    pub overlaps_previous: bool,
}

/// The end offset of the register laid out just before index `i`, or
/// zero at the front: the high-water mark the reserved-region
/// calculation runs against.
pub open spec fn spec_high_water(regs: Seq<Register>, i: int) -> usize {
    if i <= 0 {
        0
    } else {
        (regs[i - 1].offset + regs[i - 1].size / 8) as usize
    }
}

/// Computes the register-block layout of a peripheral: every register
/// in declaration order, each with the reserved padding owed before it
/// and an overlap diagnostic where the declared offsets collide.
pub fn layout_register_block(p: &Peripheral) -> (r: Vec<BlockSlot>)
    requires
        forall|i: int|
            0 <= i < p.registers@.len() ==> p.registers@[i].offset + p.registers@[i].size / 8
                <= usize::MAX,
    ensures
        r@.len() == p.registers@.len(),
        forall|i: int|
            0 <= i < r@.len() ==> {
                &&& (#[trigger] r@[i]).name@ == p.registers@[i].name@
                &&& r@[i].reserved_before == spec_reserved_words(
                    spec_high_water(p.registers@, i),
                    p.registers@[i].offset,
                    4,
                )
                &&& r@[i].has_fields == (p.registers@[i].fields is Some)
                &&& r@[i].access == p.registers@[i].access
                &&& r@[i].overlaps_previous == (p.registers@[i].offset < spec_high_water(
                    p.registers@,
                    i,
                ))
            },
{
    let mut slots: Vec<BlockSlot> = Vec::new();
    let mut high_water: usize = 0;
    let n = p.registers.len();
    let mut i: usize = 0;
    while i < n
        invariant
            0 <= i <= n,
            n == p.registers@.len(),
            forall|k: int|
                0 <= k < p.registers@.len() ==> p.registers@[k].offset + p.registers@[k].size / 8
                    <= usize::MAX,
            high_water == spec_high_water(p.registers@, i as int),
            slots@.len() == i,
            forall|k: int|
                0 <= k < i ==> {
                    &&& (#[trigger] slots@[k]).name@ == p.registers@[k].name@
                    &&& slots@[k].reserved_before == spec_reserved_words(
                        spec_high_water(p.registers@, k),
                        p.registers@[k].offset,
                        4,
                    )
                    &&& slots@[k].has_fields == (p.registers@[k].fields is Some)
                    &&& slots@[k].access == p.registers@[k].access
                    &&& slots@[k].overlaps_previous == (p.registers@[k].offset < spec_high_water(
                        p.registers@,
                        k,
                    ))
                },
        decreases n - i,
    {
        let reg = &p.registers[i];
        let reserved = calculate_reserved_region(high_water, reg.offset, None);
        let slot = BlockSlot {
            name: reg.name.clone(),
            reserved_before: reserved,
            has_fields: reg.fields.is_some(),
            access: reg.access,
            overlaps_previous: reg.offset < high_water,
        };
        slots.push(slot);
        high_water = reg.offset + reg.size / 8;
        i = i + 1;
    }
    slots
}

} // verus!
