//! Receiver FIFO trigger level register.
use vstd::prelude::*;

use crate::bits::{field_of, with_field};
use crate::{BitAccessRead, BitAccessReadWrite, BitAccessWrite, FieldAccessRead, FieldAccessReadWrite, FieldAccessWrite, Read, ReadWrite, Register, Resettable, Write};

verus! {

/// The RxFifoTriggerLevel word.
#[derive(Clone, Copy, Debug, PartialEq, Eq, Structural)]
pub struct RxFifoTriggerLevel {
    pub value: u32,
}

impl Register for RxFifoTriggerLevel {
    open spec fn spec_raw(&self) -> u32 {
        self.value
    }
}

impl Read for RxFifoTriggerLevel {
    fn read(&self) -> u32 {
        self.value
    }
}

impl Write for RxFifoTriggerLevel {
    fn write(&mut self, value: u32) {
        self.value = value;
    }
}

impl ReadWrite for RxFifoTriggerLevel {

}

impl BitAccessRead for RxFifoTriggerLevel {

}

impl BitAccessWrite for RxFifoTriggerLevel {

}

impl BitAccessReadWrite for RxFifoTriggerLevel {

}

impl FieldAccessRead for RxFifoTriggerLevel {

}

impl FieldAccessWrite for RxFifoTriggerLevel {

}

impl FieldAccessReadWrite for RxFifoTriggerLevel {

}

impl Resettable for RxFifoTriggerLevel {
    open spec fn spec_reset_value() -> u32 {
        0
    }

    fn reset_value() -> u32 {
        0
    }
}

impl RxFifoTriggerLevel {
    /// Wraps a raw receiver FIFO trigger level word word.
    pub fn new(value: u32) -> (r: Self)
        ensures
            r.value == value,
    {
        RxFifoTriggerLevel { value }
    }

    /// Receiver FIFO trigger level
    pub fn get_rx_trig(&self) -> (r: u32)
        ensures
            r == field_of(self.value, 0, 5),
    {
        self.read_field(0, 5)
    }

    /// Receiver FIFO trigger level
    pub fn set_rx_trig(&mut self, value: u32)
        ensures
            final(self).value == with_field(old(self).value, 0, 5, value),
    {
        self.write_field(0, 5, value);
    }
}

} // verus!
