//! Builder-style companion to the mode register: a plain word value
//! whose enumerated fields carry explicit default variants.
use vstd::prelude::*;

verus! {

/// A mode register word being assembled before a single physical
/// write.
#[derive(Clone, Copy, Debug, PartialEq, Eq, Structural)]
pub struct ModeBuilder {
    pub value: u32,
}

/// Character length select.
#[derive(Clone, Copy, Debug, PartialEq, Eq, Structural)]
pub enum CharacterLength {
    /// 8 bits
    EightBits,
    /// 7 bits
    SevenBits,
    /// 6 bits
    SixBits,
}

impl Default for CharacterLength {
    /// The declared default variant.
    fn default() -> (r: Self)
        ensures
            r == CharacterLength::SixBits,
    {
        CharacterLength::SixBits
    }
}

/// Parity type select.
#[derive(Clone, Copy, Debug, PartialEq, Eq, Structural)]
pub enum ParityType {
    /// Even parity
    Even,
    /// Odd parity
    Odd,
    /// Forced-to-zero (space) parity
    Space,
    /// Forced-to-one (mark) parity
    Mark,
    /// Parity disabled
    NoParity,
}

impl Default for ParityType {
    /// The declared default variant.
    fn default() -> (r: Self)
        ensures
            r == ParityType::Even,
    {
        ParityType::Even
    }
}

/// Stop bit select.
#[derive(Clone, Copy, Debug, PartialEq, Eq, Structural)]
pub enum StopBits {
    /// 1 stop bit
    One,
    /// 1.5 stop bits
    OneAndHalf,
    /// 2 stop bits
    Two,
}

impl Default for StopBits {
    /// The declared default variant.
    fn default() -> (r: Self)
        ensures
            r == StopBits::One,
    {
        StopBits::One
    }
}

/// Channel mode select.
#[derive(Clone, Copy, Debug, PartialEq, Eq, Structural)]
pub enum ChannelMode {
    /// Normal mode
    Normal,
    /// Automatic echo
    AutoEcho,
    /// Local loopback
    LocalLoop,
    /// Remote loopback
    RemoteLoop,
}

impl Default for ChannelMode {
    /// The declared default variant.
    fn default() -> (r: Self)
        ensures
            r == ChannelMode::Normal,
    {
        ChannelMode::Normal
    }
}

} // verus!
