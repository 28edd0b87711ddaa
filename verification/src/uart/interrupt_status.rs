//! Interrupt status register: write-to-clear; writing a one to a bit
//! clears the matching sticky status.
use vstd::prelude::*;

use crate::bits::{bit_word};
use crate::{BitAccessWrite, FieldAccessWrite, Register, Resettable, Write};

verus! {

/// The InterruptStatus word.
#[derive(Clone, Copy, Debug, PartialEq, Eq, Structural)]
pub struct InterruptStatus {
    pub value: u32,
}

impl Register for InterruptStatus {
    open spec fn spec_raw(&self) -> u32 {
        self.value
    }
}

impl Write for InterruptStatus {
    fn write(&mut self, value: u32) {
        self.value = value;
    }
}

impl BitAccessWrite for InterruptStatus {

}

impl FieldAccessWrite for InterruptStatus {

}

impl Resettable for InterruptStatus {
    open spec fn spec_reset_value() -> u32 {
        0
    }

    fn reset_value() -> u32 {
        0
    }
}

impl InterruptStatus {
    /// Wraps a raw interrupt status register word.
    pub fn new(value: u32) -> (r: Self)
        ensures
            r.value == value,
    {
        InterruptStatus { value }
    }

    /// Transmitter FIFO overflow interrupt status
    pub fn set_tovr(&mut self, value: bool)
        ensures
            final(self).value == bit_word(12, value),
    {
        self.write_bit_no_mask(12, value);
    }

    /// Transmitter FIFO nearly full interrupt status
    pub fn set_tnful(&mut self, value: bool)
        ensures
            final(self).value == bit_word(11, value),
    {
        self.write_bit_no_mask(11, value);
    }

    /// Transmitter FIFO trigger interrupt status
    pub fn set_ttrig(&mut self, value: bool)
        ensures
            final(self).value == bit_word(10, value),
    {
        self.write_bit_no_mask(10, value);
    }

    /// Delta modem status indicator interrupt status
    pub fn set_ixr_dms(&mut self, value: bool)
        ensures
            final(self).value == bit_word(9, value),
    {
        self.write_bit_no_mask(9, value);
    }

    /// Receiver timeout error interrupt status
    pub fn set_ixr_tout(&mut self, value: bool)
        ensures
            final(self).value == bit_word(8, value),
    {
        self.write_bit_no_mask(8, value);
    }

    /// Receiver parity error interrupt status
    pub fn set_ixr_parity(&mut self, value: bool)
        ensures
            final(self).value == bit_word(7, value),
    {
        self.write_bit_no_mask(7, value);
    }

    /// Receiver framing error interrupt status
    pub fn set_ixr_framing(&mut self, value: bool)
        ensures
            final(self).value == bit_word(6, value),
    {
        self.write_bit_no_mask(6, value);
    }

    /// Receiver overflow error interrupt status
    pub fn set_ixr_over(&mut self, value: bool)
        ensures
            final(self).value == bit_word(5, value),
    {
        self.write_bit_no_mask(5, value);
    }

    /// Transmitter FIFO full interrupt status
    pub fn set_ixr_txfull(&mut self, value: bool)
        ensures
            final(self).value == bit_word(4, value),
    {
        self.write_bit_no_mask(4, value);
    }

    /// Transmitter FIFO empty interrupt status
    pub fn set_ixr_txempty(&mut self, value: bool)
        ensures
            final(self).value == bit_word(3, value),
    {
        self.write_bit_no_mask(3, value);
    }

    /// Receiver FIFO full interrupt status
    pub fn set_ixr_rxfull(&mut self, value: bool)
        ensures
            final(self).value == bit_word(2, value),
    {
        self.write_bit_no_mask(2, value);
    }

    /// Receiver FIFO empty interrupt status
    pub fn set_ixr_rxempty(&mut self, value: bool)
        ensures
            final(self).value == bit_word(1, value),
    {
        self.write_bit_no_mask(1, value);
    }

    /// Receiver FIFO trigger interrupt status
    pub fn set_ixr_rxovr(&mut self, value: bool)
        ensures
            final(self).value == bit_word(0, value),
    {
        self.write_bit_no_mask(0, value);
    }
}

} // verus!
