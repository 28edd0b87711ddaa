//! Interrupt disable register: write-only; writing a one to a bit
//! disables the matching interrupt.
use vstd::prelude::*;

use crate::bits::{bit_word};
use crate::{BitAccessWrite, FieldAccessWrite, Register, Resettable, Write};

verus! {

/// The InterruptDisable word.
#[derive(Clone, Copy, Debug, PartialEq, Eq, Structural)]
pub struct InterruptDisable {
    pub value: u32,
}

impl Register for InterruptDisable {
    open spec fn spec_raw(&self) -> u32 {
        self.value
    }
}

impl Write for InterruptDisable {
    fn write(&mut self, value: u32) {
        self.value = value;
    }
}

impl BitAccessWrite for InterruptDisable {

}

impl FieldAccessWrite for InterruptDisable {

}

impl Resettable for InterruptDisable {
    open spec fn spec_reset_value() -> u32 {
        0
    }

    fn reset_value() -> u32 {
        0
    }
}

impl InterruptDisable {
    /// Wraps a raw interrupt disable register word.
    pub fn new(value: u32) -> (r: Self)
        ensures
            r.value == value,
    {
        InterruptDisable { value }
    }

    /// Transmitter FIFO overflow interrupt
    pub fn set_tovr(&mut self, value: bool)
        ensures
            final(self).value == bit_word(12, value),
    {
        self.write_bit_no_mask(12, value);
    }

    /// Transmitter FIFO nearly full interrupt
    pub fn set_tnful(&mut self, value: bool)
        ensures
            final(self).value == bit_word(11, value),
    {
        self.write_bit_no_mask(11, value);
    }

    /// Transmitter FIFO trigger interrupt
    pub fn set_ttrig(&mut self, value: bool)
        ensures
            final(self).value == bit_word(10, value),
    {
        self.write_bit_no_mask(10, value);
    }

    /// Delta modem status indicator interrupt
    pub fn set_ixr_dms(&mut self, value: bool)
        ensures
            final(self).value == bit_word(9, value),
    {
        self.write_bit_no_mask(9, value);
    }

    /// Receiver timeout error interrupt
    pub fn set_ixr_tout(&mut self, value: bool)
        ensures
            final(self).value == bit_word(8, value),
    {
        self.write_bit_no_mask(8, value);
    }

    /// Receiver parity error interrupt
    pub fn set_ixr_parity(&mut self, value: bool)
        ensures
            final(self).value == bit_word(7, value),
    {
        self.write_bit_no_mask(7, value);
    }

    /// Receiver framing error interrupt
    pub fn set_ixr_framing(&mut self, value: bool)
        ensures
            final(self).value == bit_word(6, value),
    {
        self.write_bit_no_mask(6, value);
    }

    /// Receiver overflow error interrupt
    pub fn set_ixr_over(&mut self, value: bool)
        ensures
            final(self).value == bit_word(5, value),
    {
        self.write_bit_no_mask(5, value);
    }

    /// Transmitter FIFO full interrupt
    pub fn set_ixr_txfull(&mut self, value: bool)
        ensures
            final(self).value == bit_word(4, value),
    {
        self.write_bit_no_mask(4, value);
    }

    /// Transmitter FIFO empty interrupt
    pub fn set_ixr_txempty(&mut self, value: bool)
        ensures
            final(self).value == bit_word(3, value),
    {
        self.write_bit_no_mask(3, value);
    }

    /// Receiver FIFO full interrupt
    pub fn set_ixr_rxfull(&mut self, value: bool)
        ensures
            final(self).value == bit_word(2, value),
    {
        self.write_bit_no_mask(2, value);
    }

    /// Receiver FIFO empty interrupt
    pub fn set_ixr_rxempty(&mut self, value: bool)
        ensures
            final(self).value == bit_word(1, value),
    {
        self.write_bit_no_mask(1, value);
    }

    /// Receiver FIFO trigger interrupt
    pub fn set_ixr_rxovr(&mut self, value: bool)
        ensures
            final(self).value == bit_word(0, value),
    {
        self.write_bit_no_mask(0, value);
    }
}

} // verus!
