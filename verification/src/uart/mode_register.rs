//! Mode register: clock pre-scalar, character length, parity, stop
//! bits and channel mode. The multi-bit fields carry enumerated
//! values; decoding them can fail on unmapped bit patterns, so every
//! enumerated getter returns an `Option`.
use vstd::prelude::*;

use crate::bits::{bit_of, field_of, with_bit, with_field};
use crate::{
    BitAccessRead, BitAccessReadWrite, BitAccessWrite, FieldAccessRead, FieldAccessReadWrite,
    FieldAccessWrite, Read, ReadWrite, Register, Resettable, Write,
};

verus! {

/// Character length select: the number of data bits in each character.
#[derive(Clone, Copy, Debug, PartialEq, Eq, Structural)]
pub enum CharLen {
    /// 8 bits; a wildcard pattern that matches any value with a zero
    /// low bit.
    EightBits,
    /// 7 bits
    SevenBits,
    /// 6 bits
    SixBits,
}

impl CharLen {
    /// The field value this variant encodes to.
    pub open spec fn spec_bits(self) -> u32 {
        match self {
            CharLen::EightBits => 1,
            CharLen::SevenBits => 2,
            CharLen::SixBits => 3,
        }
    }

    /// Encodes this variant as a field value.
    pub fn to_bits(self) -> (r: u32)
        ensures
            r == self.spec_bits(),
    {
        match self {
            CharLen::EightBits => 1,
            CharLen::SevenBits => 2,
            CharLen::SixBits => 3,
        }
    }

    /// Decoding: exact values are tried first, in declaration order,
    /// then the wildcard pattern.
    pub open spec fn spec_from_bits(v: u32) -> Option<CharLen> {
        if v == 2 {
            Some(CharLen::SevenBits)
        } else if v == 3 {
            Some(CharLen::SixBits)
        } else if v & 1 == 0 {
            Some(CharLen::EightBits)
        } else {
            None
        }
    }

    /// Decodes a field value; `None` on an unmapped pattern.
    pub fn from_bits(v: u32) -> (r: Option<CharLen>)
        ensures
            r == CharLen::spec_from_bits(v),
    {
        if v == 2 {
            Some(CharLen::SevenBits)
        } else if v == 3 {
            Some(CharLen::SixBits)
        } else if v & 1 == 0 {
            Some(CharLen::EightBits)
        } else {
            None
        }
    }
}

/// Parity select: the parity checked on receive and generated on
/// transmit.
#[derive(Clone, Copy, Debug, PartialEq, Eq, Structural)]
pub enum Parity {
    /// No parity; a wildcard pattern that matches any value whose low
    /// three bits read `100`.
    NoParity,
    /// Forced-to-one (mark) parity
    MarkParity,
    /// Forced-to-zero (space) parity
    SpaceParity,
    /// Odd parity
    OddParity,
    /// Even parity
    EvenParity,
}

impl Parity {
    /// The field value this variant encodes to.
    pub open spec fn spec_bits(self) -> u32 {
        match self {
            Parity::NoParity => 7,
            Parity::MarkParity => 3,
            Parity::SpaceParity => 2,
            Parity::OddParity => 1,
            Parity::EvenParity => 0,
        }
    }

    /// Encodes this variant as a field value.
    pub fn to_bits(self) -> (r: u32)
        ensures
            r == self.spec_bits(),
    {
        match self {
            Parity::NoParity => 7,
            Parity::MarkParity => 3,
            Parity::SpaceParity => 2,
            Parity::OddParity => 1,
            Parity::EvenParity => 0,
        }
    }

    /// Decoding: exact values are tried first, in declaration order,
    /// then the wildcard pattern.
    pub open spec fn spec_from_bits(v: u32) -> Option<Parity> {
        if v == 3 {
            Some(Parity::MarkParity)
        } else if v == 2 {
            Some(Parity::SpaceParity)
        } else if v == 1 {
            Some(Parity::OddParity)
        } else if v == 0 {
            Some(Parity::EvenParity)
        } else if v & 7 == 4 {
            Some(Parity::NoParity)
        } else {
            None
        }
    }

    /// Decodes a field value; `None` on an unmapped pattern.
    pub fn from_bits(v: u32) -> (r: Option<Parity>)
        ensures
            r == Parity::spec_from_bits(v),
    {
        if v == 3 {
            Some(Parity::MarkParity)
        } else if v == 2 {
            Some(Parity::SpaceParity)
        } else if v == 1 {
            Some(Parity::OddParity)
        } else if v == 0 {
            Some(Parity::EvenParity)
        } else if v & 7 == 4 {
            Some(Parity::NoParity)
        } else {
            None
        }
    }
}

/// Stop bit select: the number of stop bits detected on receive and
/// generated on transmit.
#[derive(Clone, Copy, Debug, PartialEq, Eq, Structural)]
pub enum StopBits {
    /// 1 stop bit
    OneStopBit,
    /// 1.5 stop bits
    OnePointFiveStopBits,
    /// 2 stop bits
    TwoStopBits,
}

impl StopBits {
    /// The field value this variant encodes to.
    pub open spec fn spec_bits(self) -> u32 {
        match self {
            StopBits::OneStopBit => 0,
            StopBits::OnePointFiveStopBits => 1,
            StopBits::TwoStopBits => 2,
        }
    }

    /// Encodes this variant as a field value.
    pub fn to_bits(self) -> (r: u32)
        ensures
            r == self.spec_bits(),
    {
        match self {
            StopBits::OneStopBit => 0,
            StopBits::OnePointFiveStopBits => 1,
            StopBits::TwoStopBits => 2,
        }
    }

    /// Decoding: every pattern is exact.
    pub open spec fn spec_from_bits(v: u32) -> Option<StopBits> {
        if v == 0 {
            Some(StopBits::OneStopBit)
        } else if v == 1 {
            Some(StopBits::OnePointFiveStopBits)
        } else if v == 2 {
            Some(StopBits::TwoStopBits)
        } else {
            None
        }
    }

    /// Decodes a field value; `None` on an unmapped pattern.
    pub fn from_bits(v: u32) -> (r: Option<StopBits>)
        ensures
            r == StopBits::spec_from_bits(v),
    {
        if v == 0 {
            Some(StopBits::OneStopBit)
        } else if v == 1 {
            Some(StopBits::OnePointFiveStopBits)
        } else if v == 2 {
            Some(StopBits::TwoStopBits)
        } else {
            None
        }
    }
}

/// Channel mode select: the routing of the receive and transmit paths.
#[derive(Clone, Copy, Debug, PartialEq, Eq, Structural)]
pub enum ChannelMode {
    /// Normal mode
    NormalMode,
    /// Automatic echo
    AutoEcho,
    /// Local loopback
    LocalLoopback,
    /// Remote loopback
    RemoteLoopback,
}

impl ChannelMode {
    /// The field value this variant encodes to.
    pub open spec fn spec_bits(self) -> u32 {
        match self {
            ChannelMode::NormalMode => 0,
            ChannelMode::AutoEcho => 1,
            ChannelMode::LocalLoopback => 2,
            ChannelMode::RemoteLoopback => 3,
        }
    }

    /// Encodes this variant as a field value.
    pub fn to_bits(self) -> (r: u32)
        ensures
            r == self.spec_bits(),
    {
        match self {
            ChannelMode::NormalMode => 0,
            ChannelMode::AutoEcho => 1,
            ChannelMode::LocalLoopback => 2,
            ChannelMode::RemoteLoopback => 3,
        }
    }

    /// Decoding: every pattern is exact.
    pub open spec fn spec_from_bits(v: u32) -> Option<ChannelMode> {
        if v == 0 {
            Some(ChannelMode::NormalMode)
        } else if v == 1 {
            Some(ChannelMode::AutoEcho)
        } else if v == 2 {
            Some(ChannelMode::LocalLoopback)
        } else if v == 3 {
            Some(ChannelMode::RemoteLoopback)
        } else {
            None
        }
    }

    /// Decodes a field value; `None` on an unmapped pattern.
    pub fn from_bits(v: u32) -> (r: Option<ChannelMode>)
        ensures
            r == ChannelMode::spec_from_bits(v),
    {
        if v == 0 {
            Some(ChannelMode::NormalMode)
        } else if v == 1 {
            Some(ChannelMode::AutoEcho)
        } else if v == 2 {
            Some(ChannelMode::LocalLoopback)
        } else if v == 3 {
            Some(ChannelMode::RemoteLoopback)
        } else {
            None
        }
    }
}

/// The mode register word.
#[derive(Clone, Copy, Debug, PartialEq, Eq, Structural)]
pub struct ModeRegister {
    pub value: u32,
}

impl Register for ModeRegister {
    open spec fn spec_raw(&self) -> u32 {
        self.value
    }
}

impl Read for ModeRegister {
    fn read(&self) -> u32 {
        self.value
    }
}

impl Write for ModeRegister {
    fn write(&mut self, value: u32) {
        self.value = value;
    }
}

impl ReadWrite for ModeRegister {

}

impl BitAccessRead for ModeRegister {

}

impl BitAccessWrite for ModeRegister {

}

impl BitAccessReadWrite for ModeRegister {

}

impl FieldAccessRead for ModeRegister {

}

impl FieldAccessWrite for ModeRegister {

}

impl FieldAccessReadWrite for ModeRegister {

}

impl Resettable for ModeRegister {
    open spec fn spec_reset_value() -> u32 {
        0
    }

    fn reset_value() -> u32 {
        0
    }
}

impl ModeRegister {
    /// Wraps a raw mode register word.
    pub fn new(value: u32) -> (r: Self)
        ensures
            r.value == value,
    {
        ModeRegister { value }
    }

    /// Clock source select: whether a pre-scalar of 8 is applied to
    /// the baud rate generator input clock
    pub fn get_clk_src_sel(&self) -> (r: bool)
        ensures
            r == bit_of(self.value, 0),
    {
        self.read_bit(0)
    }

    /// Clock source select: whether a pre-scalar of 8 is applied to
    /// the baud rate generator input clock
    pub fn set_clk_src_sel(&mut self, value: bool)
        ensures
            final(self).value == with_bit(old(self).value, 0, value),
    {
        self.write_bit(0, value);
    }

    /// Character length select
    pub fn get_char_len(&self) -> (r: Option<CharLen>)
        ensures
            r == CharLen::spec_from_bits(field_of(self.value, 1, 2)),
    {
        let v = self.read_field(1, 2);
        CharLen::from_bits(v)
    }

    /// Character length select
    pub fn set_char_len(&mut self, value: CharLen)
        ensures
            final(self).value == with_field(old(self).value, 1, 2, value.spec_bits()),
    {
        let v = value.to_bits();
        self.write_field(1, 2, v);
    }

    /// Parity type select
    pub fn get_parity(&self) -> (r: Option<Parity>)
        ensures
            r == Parity::spec_from_bits(field_of(self.value, 3, 5)),
    {
        let v = self.read_field(3, 5);
        Parity::from_bits(v)
    }

    /// Parity type select
    pub fn set_parity(&mut self, value: Parity)
        ensures
            final(self).value == with_field(old(self).value, 3, 5, value.spec_bits()),
    {
        let v = value.to_bits();
        self.write_field(3, 5, v);
    }

    /// Number of stop bits
    pub fn get_stop_bits(&self) -> (r: Option<StopBits>)
        ensures
            r == StopBits::spec_from_bits(field_of(self.value, 6, 7)),
    {
        let v = self.read_field(6, 7);
        StopBits::from_bits(v)
    }

    /// Number of stop bits
    pub fn set_stop_bits(&mut self, value: StopBits)
        ensures
            final(self).value == with_field(old(self).value, 6, 7, value.spec_bits()),
    {
        let v = value.to_bits();
        self.write_field(6, 7, v);
    }

    /// Channel mode
    pub fn get_channel_mode(&self) -> (r: Option<ChannelMode>)
        ensures
            r == ChannelMode::spec_from_bits(field_of(self.value, 8, 9)),
    {
        let v = self.read_field(8, 9);
        ChannelMode::from_bits(v)
    }

    /// Channel mode
    pub fn set_channel_mode(&mut self, value: ChannelMode)
        ensures
            final(self).value == with_field(old(self).value, 8, 9, value.spec_bits()),
    {
        let v = value.to_bits();
        self.write_field(8, 9, v);
    }
}

} // verus!
