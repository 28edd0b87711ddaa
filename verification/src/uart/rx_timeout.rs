//! Receiver timeout register: holds the timeout value.
use vstd::prelude::*;

use crate::bits::{field_of, with_field};
use crate::{BitAccessRead, BitAccessReadWrite, BitAccessWrite, FieldAccessRead, FieldAccessReadWrite, FieldAccessWrite, Read, ReadWrite, Register, Resettable, Write};

verus! {

/// The RxTimeout word.
#[derive(Clone, Copy, Debug, PartialEq, Eq, Structural)]
pub struct RxTimeout {
    pub value: u32,
}

impl Register for RxTimeout {
    open spec fn spec_raw(&self) -> u32 {
        self.value
    }
}

impl Read for RxTimeout {
    fn read(&self) -> u32 {
        self.value
    }
}

impl Write for RxTimeout {
    fn write(&mut self, value: u32) {
        self.value = value;
    }
}

impl ReadWrite for RxTimeout {

}

impl BitAccessRead for RxTimeout {

}

impl BitAccessWrite for RxTimeout {

}

impl BitAccessReadWrite for RxTimeout {

}

impl FieldAccessRead for RxTimeout {

}

impl FieldAccessWrite for RxTimeout {

}

impl FieldAccessReadWrite for RxTimeout {

}

impl Resettable for RxTimeout {
    open spec fn spec_reset_value() -> u32 {
        0
    }

    fn reset_value() -> u32 {
        0
    }
}

impl RxTimeout {
    /// Wraps a raw receiver timeout word word.
    pub fn new(value: u32) -> (r: Self)
        ensures
            r.value == value,
    {
        RxTimeout { value }
    }

    /// Receiver timeout value
    pub fn get_rto(&self) -> (r: u32)
        ensures
            r == field_of(self.value, 0, 7),
    {
        self.read_field(0, 7)
    }

    /// Receiver timeout value
    pub fn set_rto(&mut self, value: u32)
        ensures
            final(self).value == with_field(old(self).value, 0, 7, value),
    {
        self.write_field(0, 7, value);
    }
}

} // verus!
