//! The error values of the library.

use vstd::prelude::*;

verus! {

/// Why a text is not a colour.
#[derive(Clone, Copy, Debug, PartialEq, Eq, Structural)]
pub enum ColorParseError {
    /// The text does not have six characters; `len` is the number it has.
    InvalidLength { len: usize },
    /// The text has six characters, and one of them is no hex digit.
    InvalidHexCharacter,
}

/// Why bytes are not a value of the wire format.
#[derive(Clone, Copy, Debug, PartialEq, Eq, Structural)]
pub enum DecodeError {
    /// The bytes of a packet end before the four header bytes are complete.
    UnexpectedEof,
    /// The first byte of a packet is not the magic byte; `found` is what
    /// stands there.
    BadMagic { found: u8 },
    /// A byte that stands for no lighting mode.
    UnknownLightingMode { value: u8 },
    /// A byte that stands for no speed.
    UnknownSpeed { value: u8 },
    /// A byte that stands for no brightness.
    UnknownBrightness { value: u8 },
    /// A byte that stands for no polling rate.
    UnknownPollingRate { value: u8 },
}

/// Errors of packets and of the colour table.
#[derive(Debug, PartialEq, Eq)]
pub enum CherryRgbError {
    /// The checksum that a packet carries (`expected`) is not the one that its
    /// payload gives (`calculated`). `data` holds the payload bytes as
    /// lower-case hex digits.
    ChecksumError { expected: u16, calculated: u16, data: String },
    /// A key index that is not below the number of keys.
    KeyIndexOutOfBounds { key_index: usize },
    /// More colours than there are keys.
    TooManyKeyLeds { count: usize },
    /// A serialised colour table that does not have three bytes for each key.
    InvalidTableLength { len: usize },
    /// None of the devices that were found is a keyboard of this driver.
    NoMatchingDevice,
    /// More than one keyboard was found; `count` is their number.
    AmbiguousDevice { count: usize },
}

} // verus!
