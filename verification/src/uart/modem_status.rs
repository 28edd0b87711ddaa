//! Modem status register: modem input line state and deltas.
use vstd::prelude::*;

use crate::bits::{bit_of, bit_word, with_bit};
use crate::{BitAccessRead, BitAccessReadWrite, BitAccessWrite, FieldAccessRead, FieldAccessReadWrite, FieldAccessWrite, Read, ReadWrite, Register, Resettable, Write};

verus! {

/// The ModemStatus word.
#[derive(Clone, Copy, Debug, PartialEq, Eq, Structural)]
pub struct ModemStatus {
    pub value: u32,
}

impl Register for ModemStatus {
    open spec fn spec_raw(&self) -> u32 {
        self.value
    }
}

impl Read for ModemStatus {
    fn read(&self) -> u32 {
        self.value
    }
}

impl Write for ModemStatus {
    fn write(&mut self, value: u32) {
        self.value = value;
    }
}

impl ReadWrite for ModemStatus {

}

impl BitAccessRead for ModemStatus {

}

impl BitAccessWrite for ModemStatus {

}

impl BitAccessReadWrite for ModemStatus {

}

impl FieldAccessRead for ModemStatus {

}

impl FieldAccessWrite for ModemStatus {

}

impl FieldAccessReadWrite for ModemStatus {

}

impl Resettable for ModemStatus {
    open spec fn spec_reset_value() -> u32 {
        0
    }

    fn reset_value() -> u32 {
        0
    }
}

impl ModemStatus {
    /// Wraps a raw modem status word word.
    pub fn new(value: u32) -> (r: Self)
        ensures
            r.value == value,
    {
        ModemStatus { value }
    }

    /// Flow control mode
    pub fn get_fcms(&self) -> (r: bool)
        ensures
            r == bit_of(self.value, 8),
    {
        self.read_bit(8)
    }

    /// Flow control mode
    pub fn set_fcms(&mut self, value: bool)
        ensures
            final(self).value == with_bit(old(self).value, 8, value),
    {
        self.write_bit(8, value);
    }

    /// Data carrier detect input state
    pub fn get_dcd(&self) -> (r: bool)
        ensures
            r == bit_of(self.value, 7),
    {
        self.read_bit(7)
    }

    /// Ring indicator input state
    pub fn get_ri(&self) -> (r: bool)
        ensures
            r == bit_of(self.value, 6),
    {
        self.read_bit(6)
    }

    /// Data set ready input state
    pub fn get_dsr(&self) -> (r: bool)
        ensures
            r == bit_of(self.value, 5),
    {
        self.read_bit(5)
    }

    /// Clear to send input state
    pub fn get_cts(&self) -> (r: bool)
        ensures
            r == bit_of(self.value, 4),
    {
        self.read_bit(4)
    }

    /// Delta data carrier detect, write a one to clear
    pub fn set_dcdx(&mut self, value: bool)
        ensures
            final(self).value == bit_word(3, value),
    {
        self.write_bit_no_mask(3, value);
    }

    /// Trailing edge ring indicator, write a one to clear
    pub fn set_rix(&mut self, value: bool)
        ensures
            final(self).value == bit_word(2, value),
    {
        self.write_bit_no_mask(2, value);
    }

    /// Delta data set ready, write a one to clear
    pub fn set_dsrx(&mut self, value: bool)
        ensures
            final(self).value == bit_word(1, value),
    {
        self.write_bit_no_mask(1, value);
    }

    /// Delta clear to send, write a one to clear
    pub fn set_ctsx(&mut self, value: bool)
        ensures
            final(self).value == bit_word(0, value),
    {
        self.write_bit_no_mask(0, value);
    }
}

} // verus!
