//! Generator for type-safe, bit-exact register accessors.
//!
//! A declarative description of a memory-mapped peripheral (registers,
//! bit fields, enumerated values, access modes) is turned into an
//! abstract accessor-API description: the register-block layout with
//! reserved padding, the storage width of every register and field, the
//! enumerated decode tables including wildcard patterns, and the
//! getter/setter set each field is entitled to under its access mode.
//!
//! The traits below state the semantics that every generated accessor
//! must have; the `uart` module holds a register map written in exactly
//! that style and verified against them.
use vstd::prelude::*;

pub mod accessor;
pub mod bits;
pub mod config;
pub mod enumsynth;
pub mod layout;
pub mod names;
pub mod parse;
pub mod schema;
pub mod uart;

use crate::bits::{bit_of, bit_word, field_of, field_word, with_bit, with_field};
use crate::bits::{get_bit32, get_field32, make_field_word32, set_bit32, set_field32};

verus! {

/// A register value: a 32-bit word read from or destined for one
/// memory-mapped location.
pub trait Register: Sized {
    /// The raw word this value stands for.
    spec fn spec_raw(&self) -> u32;
}

/// A register whose word may be read.
pub trait Read: Register {
    /// Returns the raw word.
    fn read(&self) -> (r: u32)
        ensures
            r == self.spec_raw(),
    ;
}

/// A register whose word may be written.
pub trait Write: Register {
    /// Replaces the raw word with `value`.
    fn write(&mut self, value: u32)
        ensures
            final(self).spec_raw() == value,
    ;
}

/// A register that may be read and written: supports read-modify-write.
pub trait ReadWrite: Read + Write {
    /// Applies `f` to the current word and stores the result.
    fn modify<F: FnOnce(u32) -> u32>(&mut self, f: F)
        requires
            call_requires(f, (old(self).spec_raw(),)),
        ensures
            call_ensures(f, (old(self).spec_raw(),), final(self).spec_raw()),
    {
        let v = self.read();
        let m = f(v);
        self.write(m);
    }
}

/// Single-bit reads on a readable register.
pub trait BitAccessRead: Read {
    /// Reads bit `bit` of the register word.
    fn read_bit(&self, bit: u32) -> (r: bool)
        requires
            bit < 32,
        ensures
            r == bit_of(self.spec_raw(), bit),
    {
        let v = self.read();
        get_bit32(v, bit)
    }
}

/// Single-bit writes on a write-only register: the word cannot be read
/// back, so the write fills every other bit with zero.
pub trait BitAccessWrite: Write {
    /// Stores a word that holds `value` at `bit` and zero elsewhere.
    fn write_bit_no_mask(&mut self, bit: u32, value: bool)
        requires
            bit < 32,
        ensures
            final(self).spec_raw() == bit_word(bit, value),
    {
        let w = if value {
            1u32 << bit
        } else {
            0u32
        };
        self.write(w);
    }
}

/// Single-bit updates on a readable and writable register: the write is
/// masked, so every bit outside the one named is preserved.
pub trait BitAccessReadWrite: BitAccessRead + BitAccessWrite {
    /// Replaces bit `bit` with `value` and keeps all other bits.
    fn write_bit(&mut self, bit: u32, value: bool)
        requires
            bit < 32,
        ensures
            final(self).spec_raw() == with_bit(old(self).spec_raw(), bit, value),
    {
        let v = self.read();
        let w = set_bit32(v, bit, value);
        self.write(w);
    }

    /// Applies `f` to bit `bit` and stores the result back into that
    /// bit, keeping all other bits.
    fn modify_bit<F: FnOnce(bool) -> bool>(&mut self, bit: u32, f: F)
        requires
            bit < 32,
            call_requires(f, (bit_of(old(self).spec_raw(), bit),)),
        ensures
            exists|b: bool|
                #[trigger] call_ensures(f, (bit_of(old(self).spec_raw(), bit),), b)
                    && final(self).spec_raw() == with_bit(old(self).spec_raw(), bit, b),
    {
        let v = self.read_bit(bit);
        let b = f(v);
        self.write_bit(bit, b);
    }
}

/// Multi-bit field reads on a readable register. A field is the
/// inclusive bit span `[high:low]` of the register word.
pub trait FieldAccessRead: Read {
    /// Reads the field `[high:low]`, shifted down to bit 0.
    fn read_field(&self, low: u32, high: u32) -> (r: u32)
        requires
            low <= high < 32,
        ensures
            r == field_of(self.spec_raw(), low, high),
    {
        let v = self.read();
        get_field32(v, low, high)
    }
}

/// Multi-bit field writes on a write-only register: the word cannot be
/// read back, so bits outside the field are written as zero.
pub trait FieldAccessWrite: Write {
    /// Stores a word holding `value` in `[high:low]` and zero elsewhere.
    fn write_field_no_mask(&mut self, low: u32, high: u32, value: u32)
        requires
            low <= high < 32,
        ensures
            final(self).spec_raw() == field_word(low, high, value),
    {
        let w = make_field_word32(low, high, value);
        self.write(w);
    }
}

/// Multi-bit field updates on a readable and writable register: the
/// write is masked, so every bit outside the field is preserved.
pub trait FieldAccessReadWrite: FieldAccessRead + FieldAccessWrite {
    /// Replaces the field `[high:low]` with `value` (truncated to the
    /// field width) and keeps all other bits.
    fn write_field(&mut self, low: u32, high: u32, value: u32)
        requires
            low <= high < 32,
        ensures
            final(self).spec_raw() == with_field(old(self).spec_raw(), low, high, value),
    {
        let v = self.read();
        let w = set_field32(v, low, high, value);
        self.write(w);
    }

    /// Applies `f` to the field `[high:low]` and stores the result back
    /// into that field, keeping all other bits.
    fn modify_field<F: FnOnce(u32) -> u32>(&mut self, low: u32, high: u32, f: F)
        requires
            low <= high < 32,
            call_requires(f, (field_of(old(self).spec_raw(), low, high),)),
        ensures
            exists|m: u32|
                #[trigger] call_ensures(f, (field_of(old(self).spec_raw(), low, high),), m)
                    && final(self).spec_raw() == with_field(old(self).spec_raw(), low, high, m),
    {
        let v = self.read_field(low, high);
        let m = f(v);
        self.write_field(low, high, m);
    }
}

/// A writable register with a declared reset value.
pub trait Resettable: Write {
    /// The reset value of the register.
    spec fn spec_reset_value() -> u32;

    /// Returns the reset value of the register.
    fn reset_value() -> (r: u32)
        ensures
            r == Self::spec_reset_value(),
    ;

    /// Writes the reset value to the register.
    fn reset(&mut self)
        ensures
            final(self).spec_raw() == Self::spec_reset_value(),
    {
        let v = Self::reset_value();
        self.write(v);
    }
}

/// Truncating conversion from a schema count to a flag: any nonzero
/// count stands for `true`.
pub fn usize_to_bool(value: usize) -> (r: bool)
    ensures
        r == (value != 0),
{
    value != 0
}

} // verus!
