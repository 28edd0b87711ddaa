//! Baud rate generator register: holds the clock divisor.
use vstd::prelude::*;

use crate::bits::{field_of, with_field};
use crate::{BitAccessRead, BitAccessReadWrite, BitAccessWrite, FieldAccessRead, FieldAccessReadWrite, FieldAccessWrite, Read, ReadWrite, Register, Resettable, Write};

verus! {

/// The BaudGen word.
#[derive(Clone, Copy, Debug, PartialEq, Eq, Structural)]
pub struct BaudGen {
    pub value: u32,
}

impl Register for BaudGen {
    open spec fn spec_raw(&self) -> u32 {
        self.value
    }
}

impl Read for BaudGen {
    fn read(&self) -> u32 {
        self.value
    }
}

impl Write for BaudGen {
    fn write(&mut self, value: u32) {
        self.value = value;
    }
}

impl ReadWrite for BaudGen {

}

impl BitAccessRead for BaudGen {

}

impl BitAccessWrite for BaudGen {

}

impl BitAccessReadWrite for BaudGen {

}

impl FieldAccessRead for BaudGen {

}

impl FieldAccessWrite for BaudGen {

}

impl FieldAccessReadWrite for BaudGen {

}

impl Resettable for BaudGen {
    open spec fn spec_reset_value() -> u32 {
        0
    }

    fn reset_value() -> u32 {
        0
    }
}

impl BaudGen {
    /// Wraps a raw baud rate generator word word.
    pub fn new(value: u32) -> (r: Self)
        ensures
            r.value == value,
    {
        BaudGen { value }
    }

    /// Baud rate clock divisor value
    pub fn get_cd(&self) -> (r: u32)
        ensures
            r == field_of(self.value, 0, 15),
    {
        self.read_field(0, 15)
    }

    /// Baud rate clock divisor value
    pub fn set_cd(&mut self, value: u32)
        ensures
            final(self).value == with_field(old(self).value, 0, 15, value),
    {
        self.write_field(0, 15, value);
    }
}

} // verus!
