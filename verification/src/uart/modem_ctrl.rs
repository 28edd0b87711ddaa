//! Modem control register: flow control and modem output lines.
use vstd::prelude::*;

use crate::bits::{bit_of, with_bit};
use crate::{BitAccessRead, BitAccessReadWrite, BitAccessWrite, FieldAccessRead, FieldAccessReadWrite, FieldAccessWrite, Read, ReadWrite, Register, Resettable, Write};

verus! {

/// The ModemCtrl word.
#[derive(Clone, Copy, Debug, PartialEq, Eq, Structural)]
pub struct ModemCtrl {
    pub value: u32,
}

impl Register for ModemCtrl {
    open spec fn spec_raw(&self) -> u32 {
        self.value
    }
}

impl Read for ModemCtrl {
    fn read(&self) -> u32 {
        self.value
    }
}

impl Write for ModemCtrl {
    fn write(&mut self, value: u32) {
        self.value = value;
    }
}

impl ReadWrite for ModemCtrl {

}

impl BitAccessRead for ModemCtrl {

}

impl BitAccessWrite for ModemCtrl {

}

impl BitAccessReadWrite for ModemCtrl {

}

impl FieldAccessRead for ModemCtrl {

}

impl FieldAccessWrite for ModemCtrl {

}

impl FieldAccessReadWrite for ModemCtrl {

}

impl Resettable for ModemCtrl {
    open spec fn spec_reset_value() -> u32 {
        0
    }

    fn reset_value() -> u32 {
        0
    }
}

impl ModemCtrl {
    /// Wraps a raw modem control word word.
    pub fn new(value: u32) -> (r: Self)
        ensures
            r.value == value,
    {
        ModemCtrl { value }
    }

    /// Automatic flow control mode
    pub fn get_fcm(&self) -> (r: bool)
        ensures
            r == bit_of(self.value, 5),
    {
        self.read_bit(5)
    }

    /// Automatic flow control mode
    pub fn set_fcm(&mut self, value: bool)
        ensures
            final(self).value == with_bit(old(self).value, 5, value),
    {
        self.write_bit(5, value);
    }

    /// Request to send output control
    pub fn get_rts(&self) -> (r: bool)
        ensures
            r == bit_of(self.value, 1),
    {
        self.read_bit(1)
    }

    /// Request to send output control
    pub fn set_rts(&mut self, value: bool)
        ensures
            final(self).value == with_bit(old(self).value, 1, value),
    {
        self.write_bit(1, value);
    }

    /// Data terminal ready output control
    pub fn get_dtr(&self) -> (r: bool)
        ensures
            r == bit_of(self.value, 0),
    {
        self.read_bit(0)
    }

    /// Data terminal ready output control
    pub fn set_dtr(&mut self, value: bool)
        ensures
            final(self).value == with_bit(old(self).value, 0, value),
    {
        self.write_bit(0, value);
    }
}

} // verus!
