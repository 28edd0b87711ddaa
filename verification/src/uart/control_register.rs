//! Control register: software resets, receiver/transmitter enables and
//! break control. Read-write; every field is a single bit.
use vstd::prelude::*;

use crate::bits::{bit_of, with_bit};
use crate::{
    BitAccessRead, BitAccessReadWrite, BitAccessWrite, FieldAccessRead, FieldAccessReadWrite,
    FieldAccessWrite, Read, ReadWrite, Register, Resettable, Write,
};

verus! {

/// The control register word.
#[derive(Clone, Copy, Debug, PartialEq, Eq, Structural)]
pub struct ControlRegister {
    pub value: u32,
}

impl Register for ControlRegister {
    open spec fn spec_raw(&self) -> u32 {
        self.value
    }
}

impl Read for ControlRegister {
    fn read(&self) -> u32 {
        self.value
    }
}

impl Write for ControlRegister {
    fn write(&mut self, value: u32) {
        self.value = value;
    }
}

impl ReadWrite for ControlRegister {

}

impl BitAccessRead for ControlRegister {

}

impl BitAccessWrite for ControlRegister {

}

impl BitAccessReadWrite for ControlRegister {

}

impl FieldAccessRead for ControlRegister {

}

impl FieldAccessWrite for ControlRegister {

}

impl FieldAccessReadWrite for ControlRegister {

}

impl Resettable for ControlRegister {
    open spec fn spec_reset_value() -> u32 {
        0
    }

    fn reset_value() -> u32 {
        0
    }
}

impl ControlRegister {
    /// Wraps a raw control register word.
    pub fn new(value: u32) -> (r: Self)
        ensures
            r.value == value,
    {
        ControlRegister { value }
    }

    /// Software reset for RX data path
    pub fn get_sw_rx_rst(&self) -> (r: bool)
        ensures
            r == bit_of(self.value, 0),
    {
        self.read_bit(0)
    }

    /// Software reset for RX data path
    pub fn set_sw_rx_rst(&mut self, value: bool)
        ensures
            final(self).value == with_bit(old(self).value, 0, value),
    {
        self.write_bit(0, value);
    }

    /// Software reset for TX data path
    pub fn get_sw_tx_rst(&self) -> (r: bool)
        ensures
            r == bit_of(self.value, 1),
    {
        self.read_bit(1)
    }

    /// Software reset for TX data path
    pub fn set_sw_tx_rst(&mut self, value: bool)
        ensures
            final(self).value == with_bit(old(self).value, 1, value),
    {
        self.write_bit(1, value);
    }

    /// Receiver enable
    pub fn get_rx_en(&self) -> (r: bool)
        ensures
            r == bit_of(self.value, 2),
    {
        self.read_bit(2)
    }

    /// Receiver enable
    pub fn set_rx_en(&mut self, value: bool)
        ensures
            final(self).value == with_bit(old(self).value, 2, value),
    {
        self.write_bit(2, value);
    }

    /// Receiver disable
    pub fn get_rx_dis(&self) -> (r: bool)
        ensures
            r == bit_of(self.value, 3),
    {
        self.read_bit(3)
    }

    /// Receiver disable
    pub fn set_rx_dis(&mut self, value: bool)
        ensures
            final(self).value == with_bit(old(self).value, 3, value),
    {
        self.write_bit(3, value);
    }

    /// Transmitter enable
    pub fn get_tx_en(&self) -> (r: bool)
        ensures
            r == bit_of(self.value, 4),
    {
        self.read_bit(4)
    }

    /// Transmitter enable
    pub fn set_tx_en(&mut self, value: bool)
        ensures
            final(self).value == with_bit(old(self).value, 4, value),
    {
        self.write_bit(4, value);
    }

    /// Transmitter disable
    pub fn get_tx_dis(&self) -> (r: bool)
        ensures
            r == bit_of(self.value, 5),
    {
        self.read_bit(5)
    }

    /// Transmitter disable
    pub fn set_tx_dis(&mut self, value: bool)
        ensures
            final(self).value == with_bit(old(self).value, 5, value),
    {
        self.write_bit(5, value);
    }

    /// Restart RX timeout counter
    pub fn get_restart_rx_timeout_counter(&self) -> (r: bool)
        ensures
            r == bit_of(self.value, 6),
    {
        self.read_bit(6)
    }

    /// Restart RX timeout counter
    pub fn set_restart_rx_timeout_counter(&mut self, value: bool)
        ensures
            final(self).value == with_bit(old(self).value, 6, value),
    {
        self.write_bit(6, value);
    }

    /// Start TX break
    pub fn get_start_tx_break(&self) -> (r: bool)
        ensures
            r == bit_of(self.value, 7),
    {
        self.read_bit(7)
    }

    /// Start TX break
    pub fn set_start_tx_break(&mut self, value: bool)
        ensures
            final(self).value == with_bit(old(self).value, 7, value),
    {
        self.write_bit(7, value);
    }

    /// Stop TX break
    pub fn get_stop_tx_break(&self) -> (r: bool)
        ensures
            r == bit_of(self.value, 8),
    {
        self.read_bit(8)
    }

    /// Stop TX break
    pub fn set_stop_tx_break(&mut self, value: bool)
        ensures
            final(self).value == with_bit(old(self).value, 8, value),
    {
        self.write_bit(8, value);
    }
}

} // verus!
