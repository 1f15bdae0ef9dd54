//! The enumerations of the wire format and the payload variants of a packet.

use vstd::prelude::*;
use crate::color::OwnRGB8;
use crate::error::DecodeError;
use crate::wire::{
    copy_range, lemma_u16_le_roundtrip, push_all, push_u16_le, read_u16_le, u16_from_le, u16_le,
    ToVec,
};

verus! {

/// LED animation modes.
#[derive(Clone, Copy, Debug, PartialEq, Eq, Structural)]
pub enum LightingMode {
    Wave,
    Spectrum,
    Breathing,
    Static,
    Radar,
    Vortex,
    Fire,
    Stars,
    Rain,
    Custom,
    Rolling,
    Curve,
    WaveMid,
    Scan,
    Radiation,
    Ripples,
    SingleKey,
}

impl LightingMode {
    /// The byte that stands for this mode on the wire.
    pub open spec fn code(self) -> u8 {
        match self {
            LightingMode::Wave => 0x00,
            LightingMode::Spectrum => 0x01,
            LightingMode::Breathing => 0x02,
            LightingMode::Static => 0x03,
            LightingMode::Radar => 0x04,
            LightingMode::Vortex => 0x05,
            LightingMode::Fire => 0x06,
            LightingMode::Stars => 0x07,
            LightingMode::Rain => 0x0B,
            LightingMode::Custom => 0x08,
            LightingMode::Rolling => 0x0A,
            LightingMode::Curve => 0x0C,
            LightingMode::WaveMid => 0x0E,
            LightingMode::Scan => 0x0F,
            LightingMode::Radiation => 0x12,
            LightingMode::Ripples => 0x13,
            LightingMode::SingleKey => 0x15,
        }
    }

    /// The mode that `byte` stands for, if it stands for one.
    pub open spec fn from_code(byte: u8) -> Option<LightingMode> {
        if byte == 0x00 {
            Some(LightingMode::Wave)
        } else if byte == 0x01 {
            Some(LightingMode::Spectrum)
        } else if byte == 0x02 {
            Some(LightingMode::Breathing)
        } else if byte == 0x03 {
            Some(LightingMode::Static)
        } else if byte == 0x04 {
            Some(LightingMode::Radar)
        } else if byte == 0x05 {
            Some(LightingMode::Vortex)
        } else if byte == 0x06 {
            Some(LightingMode::Fire)
        } else if byte == 0x07 {
            Some(LightingMode::Stars)
        } else if byte == 0x0B {
            Some(LightingMode::Rain)
        } else if byte == 0x08 {
            Some(LightingMode::Custom)
        } else if byte == 0x0A {
            Some(LightingMode::Rolling)
        } else if byte == 0x0C {
            Some(LightingMode::Curve)
        } else if byte == 0x0E {
            Some(LightingMode::WaveMid)
        } else if byte == 0x0F {
            Some(LightingMode::Scan)
        } else if byte == 0x12 {
            Some(LightingMode::Radiation)
        } else if byte == 0x13 {
            Some(LightingMode::Ripples)
        } else if byte == 0x15 {
            Some(LightingMode::SingleKey)
        } else {
            None
        }
    }

    /// Returns the wire byte of the mode.
    pub fn to_u8(self) -> (byte: u8)
        ensures
            byte == self.code(),
    {
        match self {
            LightingMode::Wave => 0x00,
            LightingMode::Spectrum => 0x01,
            LightingMode::Breathing => 0x02,
            LightingMode::Static => 0x03,
            LightingMode::Radar => 0x04,
            LightingMode::Vortex => 0x05,
            LightingMode::Fire => 0x06,
            LightingMode::Stars => 0x07,
            LightingMode::Rain => 0x0B,
            LightingMode::Custom => 0x08,
            LightingMode::Rolling => 0x0A,
            LightingMode::Curve => 0x0C,
            LightingMode::WaveMid => 0x0E,
            LightingMode::Scan => 0x0F,
            LightingMode::Radiation => 0x12,
            LightingMode::Ripples => 0x13,
            LightingMode::SingleKey => 0x15,
        }
    }

    /// Decodes a wire byte. A byte outside the table is an error.
    pub fn from_u8(byte: u8) -> (mode: Result<LightingMode, DecodeError>)
        ensures
            mode is Ok <==> LightingMode::from_code(byte) is Some,
            mode matches Ok(m) ==> LightingMode::from_code(byte) == Some(m) && m.code() == byte,
            mode matches Err(e) ==> e == (DecodeError::UnknownLightingMode { value: byte }),
            mode is Err ==> forall|m: LightingMode| m.code() != byte,
    {
        match byte {
            0x00 => Ok(LightingMode::Wave),
            0x01 => Ok(LightingMode::Spectrum),
            0x02 => Ok(LightingMode::Breathing),
            0x03 => Ok(LightingMode::Static),
            0x04 => Ok(LightingMode::Radar),
            0x05 => Ok(LightingMode::Vortex),
            0x06 => Ok(LightingMode::Fire),
            0x07 => Ok(LightingMode::Stars),
            0x0B => Ok(LightingMode::Rain),
            0x08 => Ok(LightingMode::Custom),
            0x0A => Ok(LightingMode::Rolling),
            0x0C => Ok(LightingMode::Curve),
            0x0E => Ok(LightingMode::WaveMid),
            0x0F => Ok(LightingMode::Scan),
            0x12 => Ok(LightingMode::Radiation),
            0x13 => Ok(LightingMode::Ripples),
            0x15 => Ok(LightingMode::SingleKey),
            _ => Err(DecodeError::UnknownLightingMode { value: byte }),
        }
    }
}

impl ToVec for LightingMode {
    open spec fn wire(&self) -> Seq<u8> {
        seq![self.code()]
    }

    fn to_vec(&self) -> (buf: Vec<u8>) {
        let mut buf: Vec<u8> = Vec::new();
        buf.push(self.to_u8());
        assert(buf@ =~= self.wire());
        buf
    }
}

/// USB polling rates. The device never carries one in a packet of this protocol.
#[derive(Clone, Copy, Debug, PartialEq, Eq, Structural)]
pub enum UsbPollingRate {
    /// 125 Hz
    Low,
    /// 250 Hz
    Medium,
    /// 500 Hz
    High,
    /// 1000 Hz
    Full,
}

impl UsbPollingRate {
    /// The byte that stands for this rate on the wire.
    pub open spec fn code(self) -> u8 {
        match self {
            UsbPollingRate::Low => 0,
            UsbPollingRate::Medium => 1,
            UsbPollingRate::High => 2,
            UsbPollingRate::Full => 3,
        }
    }

    /// The rate that `byte` stands for, if it stands for one.
    pub open spec fn from_code(byte: u8) -> Option<UsbPollingRate> {
        if byte == 0 {
            Some(UsbPollingRate::Low)
        } else if byte == 1 {
            Some(UsbPollingRate::Medium)
        } else if byte == 2 {
            Some(UsbPollingRate::High)
        } else if byte == 3 {
            Some(UsbPollingRate::Full)
        } else {
            None
        }
    }

    /// Returns the wire byte of the rate.
    pub fn to_u8(self) -> (byte: u8)
        ensures
            byte == self.code(),
    {
        match self {
            UsbPollingRate::Low => 0,
            UsbPollingRate::Medium => 1,
            UsbPollingRate::High => 2,
            UsbPollingRate::Full => 3,
        }
    }

    /// Decodes a wire byte. A byte above 3 is an error.
    pub fn from_u8(byte: u8) -> (rate: Result<UsbPollingRate, DecodeError>)
        ensures
            rate is Ok <==> UsbPollingRate::from_code(byte) is Some,
            rate matches Ok(r) ==> UsbPollingRate::from_code(byte) == Some(r) && r.code() == byte,
            rate matches Err(e) ==> e == (DecodeError::UnknownPollingRate { value: byte }),
            rate is Err ==> forall|r: UsbPollingRate| r.code() != byte,
    {
        match byte {
            0 => Ok(UsbPollingRate::Low),
            1 => Ok(UsbPollingRate::Medium),
            2 => Ok(UsbPollingRate::High),
            3 => Ok(UsbPollingRate::Full),
            _ => Err(DecodeError::UnknownPollingRate { value: byte }),
        }
    }
}

impl ToVec for UsbPollingRate {
    open spec fn wire(&self) -> Seq<u8> {
        seq![self.code()]
    }

    fn to_vec(&self) -> (buf: Vec<u8>) {
        let mut buf: Vec<u8> = Vec::new();
        buf.push(self.to_u8());
        assert(buf@ =~= self.wire());
        buf
    }
}

/// LED animation speed.
#[derive(Clone, Copy, Debug, PartialEq, Eq, Structural)]
pub enum Speed {
    VeryFast,
    Fast,
    Medium,
    Slow,
    VerySlow,
}

impl Speed {
    /// The byte that stands for this speed on the wire.
    pub open spec fn code(self) -> u8 {
        match self {
            Speed::VeryFast => 0,
            Speed::Fast => 1,
            Speed::Medium => 2,
            Speed::Slow => 3,
            Speed::VerySlow => 4,
        }
    }

    /// The speed that `byte` stands for, if it stands for one.
    pub open spec fn from_code(byte: u8) -> Option<Speed> {
        if byte == 0 {
            Some(Speed::VeryFast)
        } else if byte == 1 {
            Some(Speed::Fast)
        } else if byte == 2 {
            Some(Speed::Medium)
        } else if byte == 3 {
            Some(Speed::Slow)
        } else if byte == 4 {
            Some(Speed::VerySlow)
        } else {
            None
        }
    }

    /// Returns the wire byte of the speed.
    pub fn to_u8(self) -> (byte: u8)
        ensures
            byte == self.code(),
    {
        match self {
            Speed::VeryFast => 0,
            Speed::Fast => 1,
            Speed::Medium => 2,
            Speed::Slow => 3,
            Speed::VerySlow => 4,
        }
    }

    /// Decodes a wire byte. A byte above 4 is an error.
    pub fn from_u8(byte: u8) -> (speed: Result<Speed, DecodeError>)
        ensures
            speed is Ok <==> Speed::from_code(byte) is Some,
            speed matches Ok(s) ==> Speed::from_code(byte) == Some(s) && s.code() == byte,
            speed matches Err(e) ==> e == (DecodeError::UnknownSpeed { value: byte }),
            speed is Err ==> forall|s: Speed| s.code() != byte,
    {
        match byte {
            0 => Ok(Speed::VeryFast),
            1 => Ok(Speed::Fast),
            2 => Ok(Speed::Medium),
            3 => Ok(Speed::Slow),
            4 => Ok(Speed::VerySlow),
            _ => Err(DecodeError::UnknownSpeed { value: byte }),
        }
    }
}

impl ToVec for Speed {
    open spec fn wire(&self) -> Seq<u8> {
        seq![self.code()]
    }

    fn to_vec(&self) -> (buf: Vec<u8>) {
        let mut buf: Vec<u8> = Vec::new();
        buf.push(self.to_u8());
        assert(buf@ =~= self.wire());
        buf
    }
}

/// LED brightness.
#[derive(Clone, Copy, Debug, PartialEq, Eq, Structural)]
pub enum Brightness {
    Off,
    Low,
    Medium,
    High,
    Full,
}

impl Brightness {
    /// The byte that stands for this brightness on the wire.
    pub open spec fn code(self) -> u8 {
        match self {
            Brightness::Off => 0,
            Brightness::Low => 1,
            Brightness::Medium => 2,
            Brightness::High => 3,
            Brightness::Full => 4,
        }
    }

    /// The brightness that `byte` stands for, if it stands for one.
    pub open spec fn from_code(byte: u8) -> Option<Brightness> {
        if byte == 0 {
            Some(Brightness::Off)
        } else if byte == 1 {
            Some(Brightness::Low)
        } else if byte == 2 {
            Some(Brightness::Medium)
        } else if byte == 3 {
            Some(Brightness::High)
        } else if byte == 4 {
            Some(Brightness::Full)
        } else {
            None
        }
    }

    /// Returns the wire byte of the brightness.
    pub fn to_u8(self) -> (byte: u8)
        ensures
            byte == self.code(),
    {
        match self {
            Brightness::Off => 0,
            Brightness::Low => 1,
            Brightness::Medium => 2,
            Brightness::High => 3,
            Brightness::Full => 4,
        }
    }

    /// Decodes a wire byte. A byte above 4 is an error.
    pub fn from_u8(byte: u8) -> (brightness: Result<Brightness, DecodeError>)
        ensures
            brightness is Ok <==> Brightness::from_code(byte) is Some,
            brightness matches Ok(b) ==> Brightness::from_code(byte) == Some(b) && b.code() == byte,
            brightness matches Err(e) ==> e == (DecodeError::UnknownBrightness { value: byte }),
            brightness is Err ==> forall|b: Brightness| b.code() != byte,
    {
        match byte {
            0 => Ok(Brightness::Off),
            1 => Ok(Brightness::Low),
            2 => Ok(Brightness::Medium),
            3 => Ok(Brightness::High),
            4 => Ok(Brightness::Full),
            _ => Err(DecodeError::UnknownBrightness { value: byte }),
        }
    }
}

impl ToVec for Brightness {
    open spec fn wire(&self) -> Seq<u8> {
        seq![self.code()]
    }

    fn to_vec(&self) -> (buf: Vec<u8>) {
        let mut buf: Vec<u8> = Vec::new();
        buf.push(self.to_u8());
        assert(buf@ =~= self.wire());
        buf
    }
}

/// The mapping of one key to a function or keycode.
#[derive(Clone, Copy, Debug, PartialEq, Eq, Structural)]
pub struct Keymap {
    pub modifier: u8,
    pub unk: u8,
    pub keycode: u8,
}

impl Keymap {
    /// The mapping that the three wire bytes stand for.
    pub open spec fn from_wire(bytes: Seq<u8>) -> Keymap
        recommends
            bytes.len() == 3,
    {
        Keymap { modifier: bytes[0], unk: bytes[1], keycode: bytes[2] }
    }

    /// Reads a mapping from its three wire bytes.
    pub fn from_bytes(bytes: [u8; 3]) -> (keymap: Keymap)
        ensures
            keymap == Keymap::from_wire(bytes@),
            keymap.wire() == bytes@,
    {
        let keymap = Keymap { modifier: bytes[0], unk: bytes[1], keycode: bytes[2] };
        assert(keymap.wire() =~= bytes@);
        keymap
    }
}

impl ToVec for Keymap {
    open spec fn wire(&self) -> Seq<u8> {
        seq![self.modifier, self.unk, self.keycode]
    }

    fn to_vec(&self) -> (buf: Vec<u8>) {
        let mut buf: Vec<u8> = Vec::new();
        buf.push(self.modifier);
        buf.push(self.unk);
        buf.push(self.keycode);
        assert(buf@ =~= self.wire());
        buf
    }
}

/// Types that know the payload type byte of the packet that carries them.
pub trait PayloadType {
    /// The payload type byte of this value.
    spec fn type_code(&self) -> u8;

    /// Returns the payload type byte, which the packet header carries.
    fn payload_type(&self) -> (code: u8)
        ensures
            code == self.type_code(),
    ;
}

/// The payload of a packet. The payload type byte is derived from the variant
/// and never stored next to it.
#[derive(Debug, PartialEq, Eq)]
pub enum Payload {
    /// Opens a transaction.
    TransactionStart,
    /// Closes a transaction.
    TransactionEnd,
    /// A query of one byte.
    Unknown3 { unk: u8 },
    /// A query of one byte, sent when the custom colours are reset.
    Unknown5 { unk: u8 },
    /// Reads a chunk of the keymap. A query carries no `keymap` bytes, a
    /// response carries `data_len` of them.
    GetKeymap { data_len: u8, data_offset: u16, padding: u8, keymap: Vec<u8> },
    /// Selects an animation.
    SetAnimation {
        unknown: [u8; 5],
        mode: LightingMode,
        brightness: Brightness,
        speed: Speed,
        pad: u8,
        rainbow: u8,
        color: OwnRGB8,
    },
    /// Writes a chunk of the custom colour table. The length byte on the wire
    /// is the length of `key_leds_data`.
    SetCustomLED { data_offset: u16, padding: u8, key_leds_data: Vec<u8> },
    /// Reads a chunk of the key indexes, in the shape of `GetKeymap`.
    GetKeyIndexes { data_len: u8, data_offset: u16, padding: u8, key_data: Vec<u8> },
    /// A payload of a type that is not known: all its bytes, as they came.
    Unhandled { data: Vec<u8> },
}

/// The mathematical value of a `Payload`.
pub enum PayloadView {
    TransactionStart,
    TransactionEnd,
    Unknown3 { unk: u8 },
    Unknown5 { unk: u8 },
    GetKeymap { data_len: u8, data_offset: u16, padding: u8, keymap: Seq<u8> },
    SetAnimation {
        unknown: Seq<u8>,
        mode: LightingMode,
        brightness: Brightness,
        speed: Speed,
        pad: u8,
        rainbow: u8,
        color: OwnRGB8,
    },
    SetCustomLED { data_offset: u16, padding: u8, key_leds_data: Seq<u8> },
    GetKeyIndexes { data_len: u8, data_offset: u16, padding: u8, key_data: Seq<u8> },
    Unhandled { data: Seq<u8> },
}

/// The payload type byte that an unhandled payload reports.
pub const UNHANDLED_PAYLOAD_TYPE: u8 = 0xFF;

/// Length of the body of a `SetAnimation` payload.
pub const ANIMATION_BODY_LEN: usize = 13;

/// Length of the header of a chunk payload: length, offset, padding.
pub const CHUNK_HEADER_LEN: usize = 4;

/// The header of a chunk payload followed by its data.
pub open spec fn chunk_body(data_len: u8, data_offset: u16, padding: u8, data: Seq<u8>) -> Seq<u8> {
    seq![data_len] + u16_le(data_offset) + seq![padding] + data
}

/// Whether `body` holds a chunk header and the data bytes that it announces.
pub open spec fn chunk_fits(body: Seq<u8>) -> bool {
    body.len() >= 4 && body.len() >= 4 + body[0]
}

/// The data bytes of a chunk body that fits.
pub open spec fn chunk_data(body: Seq<u8>) -> Seq<u8> {
    body.subrange(4, 4 + body[0] as int)
}

/// Whether `body` holds an animation: 13 bytes with a known mode, brightness and speed.
pub open spec fn animation_fits(body: Seq<u8>) -> bool {
    &&& body.len() >= 13
    &&& LightingMode::from_code(body[5]) is Some
    &&& Brightness::from_code(body[6]) is Some
    &&& Speed::from_code(body[7]) is Some
}

impl PayloadView {
    /// The payload type byte of the variant; `0xFF` for an unhandled payload.
    pub open spec fn payload_type(self) -> u8 {
        match self {
            PayloadView::TransactionStart => 0x01,
            PayloadView::TransactionEnd => 0x02,
            PayloadView::Unknown3 { .. } => 0x03,
            PayloadView::Unknown5 { .. } => 0x05,
            PayloadView::GetKeymap { .. } => 0x07,
            PayloadView::SetAnimation { .. } => 0x06,
            PayloadView::SetCustomLED { .. } => 0x0B,
            PayloadView::GetKeyIndexes { .. } => 0x1B,
            PayloadView::Unhandled { .. } => 0xFF,
        }
    }

    /// The body bytes of the payload: what follows the payload type byte.
    pub open spec fn body(self) -> Seq<u8> {
        match self {
            PayloadView::TransactionStart => Seq::empty(),
            PayloadView::TransactionEnd => Seq::empty(),
            PayloadView::Unknown3 { unk } => seq![unk],
            PayloadView::Unknown5 { unk } => seq![unk],
            PayloadView::GetKeymap { data_len, data_offset, padding, keymap } => chunk_body(
                data_len,
                data_offset,
                padding,
                keymap,
            ),
            PayloadView::SetAnimation { unknown, mode, brightness, speed, pad, rainbow, color } => {
                unknown + seq![
                    mode.code(),
                    brightness.code(),
                    speed.code(),
                    pad,
                    rainbow,
                    color.r,
                    color.g,
                    color.b,
                ]
            },
            PayloadView::SetCustomLED { data_offset, padding, key_leds_data } => chunk_body(
                (key_leds_data.len() % 256) as u8,
                data_offset,
                padding,
                key_leds_data,
            ),
            PayloadView::GetKeyIndexes { data_len, data_offset, padding, key_data } => chunk_body(
                data_len,
                data_offset,
                padding,
                key_data,
            ),
            PayloadView::Unhandled { data } => data,
        }
    }

    /// The payload that the body bytes of a packet of type `payload_type` hold.
    /// A type that is not known, and a body that does not fit its type, give
    /// an unhandled payload of all the body bytes; bytes behind a payload that
    /// fits are not part of it.
    pub open spec fn decode(payload_type: u8, body: Seq<u8>) -> PayloadView {
        if payload_type == 0x01 {
            PayloadView::TransactionStart
        } else if payload_type == 0x02 {
            PayloadView::TransactionEnd
        } else if payload_type == 0x03 && body.len() >= 1 {
            PayloadView::Unknown3 { unk: body[0] }
        } else if payload_type == 0x05 && body.len() >= 1 {
            PayloadView::Unknown5 { unk: body[0] }
        } else if payload_type == 0x07 && chunk_fits(body) {
            PayloadView::GetKeymap {
                data_len: body[0],
                data_offset: u16_from_le(body[1], body[2]),
                padding: body[3],
                keymap: chunk_data(body),
            }
        } else if payload_type == 0x06 && animation_fits(body) {
            PayloadView::SetAnimation {
                unknown: body.subrange(0, 5),
                mode: LightingMode::from_code(body[5])->0,
                brightness: Brightness::from_code(body[6])->0,
                speed: Speed::from_code(body[7])->0,
                pad: body[8],
                rainbow: body[9],
                color: OwnRGB8 { r: body[10], g: body[11], b: body[12] },
            }
        } else if payload_type == 0x0B && chunk_fits(body) {
            PayloadView::SetCustomLED {
                data_offset: u16_from_le(body[1], body[2]),
                padding: body[3],
                key_leds_data: chunk_data(body),
            }
        } else if payload_type == 0x1B && chunk_fits(body) {
            PayloadView::GetKeyIndexes {
                data_len: body[0],
                data_offset: u16_from_le(body[1], body[2]),
                padding: body[3],
                key_data: chunk_data(body),
            }
        } else {
            PayloadView::Unhandled { data: body }
        }
    }

    /// Whether the payload is one that a decoder can give back: the length
    /// byte of a chunk is the length of its data, and an animation has its
    /// five leading bytes.
    pub open spec fn is_canonical(self) -> bool {
        match self {
            PayloadView::GetKeymap { data_len, keymap, .. } => keymap.len() == data_len,
            PayloadView::GetKeyIndexes { data_len, key_data, .. } => key_data.len() == data_len,
            PayloadView::SetCustomLED { key_leds_data, .. } => key_leds_data.len() <= 255,
            PayloadView::SetAnimation { unknown, .. } => unknown.len() == 5,
            _ => true,
        }
    }
}

impl View for Payload {
    type V = PayloadView;

    open spec fn view(&self) -> PayloadView {
        match *self {
            Payload::TransactionStart => PayloadView::TransactionStart,
            Payload::TransactionEnd => PayloadView::TransactionEnd,
            Payload::Unknown3 { unk } => PayloadView::Unknown3 { unk },
            Payload::Unknown5 { unk } => PayloadView::Unknown5 { unk },
            Payload::GetKeymap { data_len, data_offset, padding, keymap } => PayloadView::GetKeymap {
                data_len,
                data_offset,
                padding,
                keymap: keymap@,
            },
            Payload::SetAnimation { unknown, mode, brightness, speed, pad, rainbow, color } => {
                PayloadView::SetAnimation {
                    unknown: unknown@,
                    mode,
                    brightness,
                    speed,
                    pad,
                    rainbow,
                    color,
                }
            },
            Payload::SetCustomLED { data_offset, padding, key_leds_data } => {
                PayloadView::SetCustomLED { data_offset, padding, key_leds_data: key_leds_data@ }
            },
            Payload::GetKeyIndexes { data_len, data_offset, padding, key_data } => {
                PayloadView::GetKeyIndexes { data_len, data_offset, padding, key_data: key_data@ }
            },
            Payload::Unhandled { data } => PayloadView::Unhandled { data: data@ },
        }
    }
}

impl Clone for Payload {
    fn clone(&self) -> (copy: Payload)
        ensures
            copy@ == self@,
    {
        match self {
            Payload::TransactionStart => Payload::TransactionStart,
            Payload::TransactionEnd => Payload::TransactionEnd,
            Payload::Unknown3 { unk } => Payload::Unknown3 { unk: *unk },
            Payload::Unknown5 { unk } => Payload::Unknown5 { unk: *unk },
            Payload::GetKeymap { data_len, data_offset, padding, keymap } => Payload::GetKeymap {
                data_len: *data_len,
                data_offset: *data_offset,
                padding: *padding,
                keymap: keymap.clone(),
            },
            Payload::SetAnimation { unknown, mode, brightness, speed, pad, rainbow, color } => {
                Payload::SetAnimation {
                    unknown: *unknown,
                    mode: *mode,
                    brightness: *brightness,
                    speed: *speed,
                    pad: *pad,
                    rainbow: *rainbow,
                    color: *color,
                }
            },
            Payload::SetCustomLED { data_offset, padding, key_leds_data } => Payload::SetCustomLED {
                data_offset: *data_offset,
                padding: *padding,
                key_leds_data: key_leds_data.clone(),
            },
            Payload::GetKeyIndexes { data_len, data_offset, padding, key_data } => {
                Payload::GetKeyIndexes {
                    data_len: *data_len,
                    data_offset: *data_offset,
                    padding: *padding,
                    key_data: key_data.clone(),
                }
            },
            Payload::Unhandled { data } => Payload::Unhandled { data: data.clone() },
        }
    }
}

impl PayloadType for Payload {
    open spec fn type_code(&self) -> u8 {
        self@.payload_type()
    }

    fn payload_type(&self) -> (code: u8) {
        match self {
            Payload::TransactionStart => 0x01,
            Payload::TransactionEnd => 0x02,
            Payload::Unknown3 { .. } => 0x03,
            Payload::Unknown5 { .. } => 0x05,
            Payload::GetKeymap { .. } => 0x07,
            Payload::SetAnimation { .. } => 0x06,
            Payload::SetCustomLED { .. } => 0x0B,
            Payload::GetKeyIndexes { .. } => 0x1B,
            Payload::Unhandled { .. } => UNHANDLED_PAYLOAD_TYPE,
        }
    }
}

/// Writes the header of a chunk payload and its data.
fn chunk_to_vec(data_len: u8, data_offset: u16, padding: u8, data: &Vec<u8>) -> (buf: Vec<u8>)
    ensures
        buf@ == chunk_body(data_len, data_offset, padding, data@),
{
    let mut buf: Vec<u8> = Vec::new();
    buf.push(data_len);
    push_u16_le(&mut buf, data_offset);
    buf.push(padding);
    push_all(&mut buf, data.as_slice());
    assert(buf@ =~= chunk_body(data_len, data_offset, padding, data@));
    buf
}

impl ToVec for Payload {
    open spec fn wire(&self) -> Seq<u8> {
        self@.body()
    }

    fn to_vec(&self) -> (buf: Vec<u8>) {
        match self {
            Payload::TransactionStart => Vec::new(),
            Payload::TransactionEnd => Vec::new(),
            Payload::Unknown3 { unk } => {
                let mut buf: Vec<u8> = Vec::new();
                buf.push(*unk);
                assert(buf@ =~= seq![*unk]);
                buf
            },
            Payload::Unknown5 { unk } => {
                let mut buf: Vec<u8> = Vec::new();
                buf.push(*unk);
                assert(buf@ =~= seq![*unk]);
                buf
            },
            Payload::GetKeymap { data_len, data_offset, padding, keymap } => chunk_to_vec(
                *data_len,
                *data_offset,
                *padding,
                keymap,
            ),
            Payload::SetAnimation { unknown, mode, brightness, speed, pad, rainbow, color } => {
                let mut buf: Vec<u8> = Vec::new();
                push_all(&mut buf, unknown.as_slice());
                buf.push(mode.to_u8());
                buf.push(brightness.to_u8());
                buf.push(speed.to_u8());
                buf.push(*pad);
                buf.push(*rainbow);
                buf.push(color.r);
                buf.push(color.g);
                buf.push(color.b);
                assert(buf@ =~= self@.body());
                buf
            },
            Payload::SetCustomLED { data_offset, padding, key_leds_data } => chunk_to_vec(
                (key_leds_data.len() % 256) as u8,
                *data_offset,
                *padding,
                key_leds_data,
            ),
            Payload::GetKeyIndexes { data_len, data_offset, padding, key_data } => chunk_to_vec(
                *data_len,
                *data_offset,
                *padding,
                key_data,
            ),
            Payload::Unhandled { data } => {
                let mut buf: Vec<u8> = Vec::new();
                push_all(&mut buf, data.as_slice());
                assert(buf@ =~= data@);
                buf
            },
        }
    }
}

/// Tells whether `body` begins with a chunk header and holds the data bytes
/// that the header announces.
fn chunk_is_complete(body: &[u8]) -> (fits: bool)
    ensures
        fits == chunk_fits(body@),
{
    body.len() >= CHUNK_HEADER_LEN && body.len() - CHUNK_HEADER_LEN >= body[0] as usize
}

impl Payload {
    /// Decodes the body bytes of a packet whose header carries `payload_type`.
    /// This never fails: what is not a payload of a known type is handed back
    /// as `Unhandled`, with all the bytes of `body`.
    pub fn decode(payload_type: u8, body: &[u8]) -> (payload: Payload)
        ensures
            payload@ == PayloadView::decode(payload_type, body@),
    {
        if payload_type == 0x01 {
            return Payload::TransactionStart;
        }
        if payload_type == 0x02 {
            return Payload::TransactionEnd;
        }
        if payload_type == 0x03 && body.len() >= 1 {
            return Payload::Unknown3 { unk: body[0] };
        }
        if payload_type == 0x05 && body.len() >= 1 {
            return Payload::Unknown5 { unk: body[0] };
        }
        if payload_type == 0x07 && chunk_is_complete(body) {
            return Payload::GetKeymap {
                data_len: body[0],
                data_offset: read_u16_le(body[1], body[2]),
                padding: body[3],
                keymap: copy_range(body, CHUNK_HEADER_LEN, CHUNK_HEADER_LEN + body[0] as usize),
            };
        }
        if payload_type == 0x0B && chunk_is_complete(body) {
            return Payload::SetCustomLED {
                data_offset: read_u16_le(body[1], body[2]),
                padding: body[3],
                key_leds_data: copy_range(
                    body,
                    CHUNK_HEADER_LEN,
                    CHUNK_HEADER_LEN + body[0] as usize,
                ),
            };
        }
        if payload_type == 0x1B && chunk_is_complete(body) {
            return Payload::GetKeyIndexes {
                data_len: body[0],
                data_offset: read_u16_le(body[1], body[2]),
                padding: body[3],
                key_data: copy_range(body, CHUNK_HEADER_LEN, CHUNK_HEADER_LEN + body[0] as usize),
            };
        }
        if payload_type == 0x06 && body.len() >= ANIMATION_BODY_LEN {
            let mode = LightingMode::from_u8(body[5]);
            let brightness = Brightness::from_u8(body[6]);
            let speed = Speed::from_u8(body[7]);
            if let (Ok(mode), Ok(brightness), Ok(speed)) = (mode, brightness, speed) {
                let unknown: [u8; 5] = [body[0], body[1], body[2], body[3], body[4]];
                assert(unknown@ =~= body@.subrange(0, 5));
                return Payload::SetAnimation {
                    unknown,
                    mode,
                    brightness,
                    speed,
                    pad: body[8],
                    rainbow: body[9],
                    color: OwnRGB8 { r: body[10], g: body[11], b: body[12] },
                };
            }
        }
        assert(body@.subrange(0, body@.len() as int) =~= body@);
        Payload::Unhandled { data: copy_range(body, 0, body.len()) }
    }
}

/// Decoding the body of a canonical payload under its own payload type gives
/// the payload again.
pub proof fn lemma_payload_roundtrip(payload: PayloadView)
    requires
        payload.is_canonical(),
    ensures
        PayloadView::decode(payload.payload_type(), payload.body()) == payload,
{
    if payload is Unhandled {
    } else {
        lemma_payload_roundtrip_padded(payload, Seq::empty());
        assert(payload.body() + Seq::<u8>::empty() =~= payload.body());
    }
}

/// A canonical payload of a known type decodes from its body also where bytes
/// follow the body, as the zero bytes of a padded report do.
pub proof fn lemma_payload_roundtrip_padded(payload: PayloadView, rest: Seq<u8>)
    requires
        payload.is_canonical(),
        !(payload is Unhandled),
    ensures
        PayloadView::decode(payload.payload_type(), payload.body() + rest) == payload,
{
    let body = payload.body() + rest;
    match payload {
        PayloadView::GetKeymap { data_len, data_offset, padding, keymap } => {
            lemma_u16_le_roundtrip(data_offset);
            assert(chunk_data(body) =~= keymap);
        },
        PayloadView::GetKeyIndexes { data_len, data_offset, padding, key_data } => {
            lemma_u16_le_roundtrip(data_offset);
            assert(chunk_data(body) =~= key_data);
        },
        PayloadView::SetCustomLED { data_offset, padding, key_leds_data } => {
            lemma_u16_le_roundtrip(data_offset);
            assert(chunk_data(body) =~= key_leds_data);
        },
        PayloadView::SetAnimation { unknown, mode, brightness, speed, pad, rainbow, color } => {
            assert(body.subrange(0, 5) =~= unknown);
        },
        _ => {},
    }
}

/// Every mode decodes from its own wire byte.
pub proof fn lemma_enum_codes_roundtrip(mode: LightingMode, speed: Speed, brightness: Brightness)
    ensures
        LightingMode::from_code(mode.code()) == Some(mode),
        Speed::from_code(speed.code()) == Some(speed),
        Brightness::from_code(brightness.code()) == Some(brightness),
{
}

} // verus!
