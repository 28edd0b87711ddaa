//! Channel status register: read-only FIFO and activity status.
use vstd::prelude::*;

use crate::bits::{bit_of};
use crate::{BitAccessRead, FieldAccessRead, Read, Register};

verus! {

/// The ChannelStatus word.
#[derive(Clone, Copy, Debug, PartialEq, Eq, Structural)]
pub struct ChannelStatus {
    pub value: u32,
}

impl Register for ChannelStatus {
    open spec fn spec_raw(&self) -> u32 {
        self.value
    }
}

impl Read for ChannelStatus {
    fn read(&self) -> u32 {
        self.value
    }
}

impl BitAccessRead for ChannelStatus {

}

impl FieldAccessRead for ChannelStatus {

}

impl ChannelStatus {
    /// Wraps a raw channel status word word.
    pub fn new(value: u32) -> (r: Self)
        ensures
            r.value == value,
    {
        ChannelStatus { value }
    }

    /// Transmitter FIFO nearly full status
    pub fn get_tnful(&self) -> (r: bool)
        ensures
            r == bit_of(self.value, 14),
    {
        self.read_bit(14)
    }

    /// Transmitter FIFO trigger status
    pub fn get_ttrig(&self) -> (r: bool)
        ensures
            r == bit_of(self.value, 13),
    {
        self.read_bit(13)
    }

    /// Receiver flow delay trigger status
    pub fn get_flowdel(&self) -> (r: bool)
        ensures
            r == bit_of(self.value, 12),
    {
        self.read_bit(12)
    }

    /// Transmitter active status
    pub fn get_tactive(&self) -> (r: bool)
        ensures
            r == bit_of(self.value, 11),
    {
        self.read_bit(11)
    }

    /// Receiver active status
    pub fn get_ractive(&self) -> (r: bool)
        ensures
            r == bit_of(self.value, 10),
    {
        self.read_bit(10)
    }

    /// Transmitter FIFO full status
    pub fn get_txfull(&self) -> (r: bool)
        ensures
            r == bit_of(self.value, 4),
    {
        self.read_bit(4)
    }

    /// Transmitter FIFO empty status
    pub fn get_txempty(&self) -> (r: bool)
        ensures
            r == bit_of(self.value, 3),
    {
        self.read_bit(3)
    }

    /// Receiver FIFO full status
    pub fn get_rxfull(&self) -> (r: bool)
        ensures
            r == bit_of(self.value, 2),
    {
        self.read_bit(2)
    }

    /// Receiver FIFO empty status
    pub fn get_rxempty(&self) -> (r: bool)
        ensures
            r == bit_of(self.value, 1),
    {
        self.read_bit(1)
    }

    /// Receiver FIFO overflow status
    pub fn get_rxovr(&self) -> (r: bool)
        ensures
            r == bit_of(self.value, 0),
    {
        self.read_bit(0)
    }
}

} // verus!
