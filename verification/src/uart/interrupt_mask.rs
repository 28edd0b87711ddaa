//! Interrupt mask register: read-only view of which interrupts are
//! currently enabled.
use vstd::prelude::*;

use crate::bits::{bit_of};
use crate::{BitAccessRead, FieldAccessRead, Read, Register};

verus! {

/// The InterruptMask word.
#[derive(Clone, Copy, Debug, PartialEq, Eq, Structural)]
pub struct InterruptMask {
    pub value: u32,
}

impl Register for InterruptMask {
    open spec fn spec_raw(&self) -> u32 {
        self.value
    }
}

impl Read for InterruptMask {
    fn read(&self) -> u32 {
        self.value
    }
}

impl BitAccessRead for InterruptMask {

}

impl FieldAccessRead for InterruptMask {

}

impl InterruptMask {
    /// Wraps a raw interrupt mask register word.
    pub fn new(value: u32) -> (r: Self)
        ensures
            r.value == value,
    {
        InterruptMask { value }
    }

    /// Transmitter FIFO overflow interrupt mask state
    pub fn get_tovr(&self) -> (r: bool)
        ensures
            r == bit_of(self.value, 12),
    {
        self.read_bit(12)
    }

    /// Transmitter FIFO nearly full interrupt mask state
    pub fn get_tnful(&self) -> (r: bool)
        ensures
            r == bit_of(self.value, 11),
    {
        self.read_bit(11)
    }

    /// Transmitter FIFO trigger interrupt mask state
    pub fn get_ttrig(&self) -> (r: bool)
        ensures
            r == bit_of(self.value, 10),
    {
        self.read_bit(10)
    }

    /// Delta modem status indicator interrupt mask state
    pub fn get_ixr_dms(&self) -> (r: bool)
        ensures
            r == bit_of(self.value, 9),
    {
        self.read_bit(9)
    }

    /// Receiver timeout error interrupt mask state
    pub fn get_ixr_tout(&self) -> (r: bool)
        ensures
            r == bit_of(self.value, 8),
    {
        self.read_bit(8)
    }

    /// Receiver parity error interrupt mask state
    pub fn get_ixr_parity(&self) -> (r: bool)
        ensures
            r == bit_of(self.value, 7),
    {
        self.read_bit(7)
    }

    /// Receiver framing error interrupt mask state
    pub fn get_ixr_framing(&self) -> (r: bool)
        ensures
            r == bit_of(self.value, 6),
    {
        self.read_bit(6)
    }

    /// Receiver overflow error interrupt mask state
    pub fn get_ixr_over(&self) -> (r: bool)
        ensures
            r == bit_of(self.value, 5),
    {
        self.read_bit(5)
    }

    /// Transmitter FIFO full interrupt mask state
    pub fn get_ixr_txfull(&self) -> (r: bool)
        ensures
            r == bit_of(self.value, 4),
    {
        self.read_bit(4)
    }

    /// Transmitter FIFO empty interrupt mask state
    pub fn get_ixr_txempty(&self) -> (r: bool)
        ensures
            r == bit_of(self.value, 3),
    {
        self.read_bit(3)
    }

    /// Receiver FIFO full interrupt mask state
    pub fn get_ixr_rxfull(&self) -> (r: bool)
        ensures
            r == bit_of(self.value, 2),
    {
        self.read_bit(2)
    }

    /// Receiver FIFO empty interrupt mask state
    pub fn get_ixr_rxempty(&self) -> (r: bool)
        ensures
            r == bit_of(self.value, 1),
    {
        self.read_bit(1)
    }

    /// Receiver FIFO trigger interrupt mask state
    pub fn get_ixr_rxovr(&self) -> (r: bool)
        ensures
            r == bit_of(self.value, 0),
    {
        self.read_bit(0)
    }
}

} // verus!
