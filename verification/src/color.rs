//! The colour value of one LED.

use vstd::prelude::*;
use crate::error::ColorParseError;
use crate::hexcodec::{hex_decode, hex_digit_value, is_hex_text};
use crate::wire::ToVec;
use vstd::string::*;

verus! {

/// A colour of three unsigned bytes: red, green, blue.
#[derive(Clone, Copy, Debug, PartialEq, Eq, Structural)]
pub struct OwnRGB8 {
    pub r: u8,
    pub g: u8,
    pub b: u8,
}

/// Whether `c` is a hex digit, in upper or lower case.
pub open spec fn is_hex_char(c: char) -> bool {
    ('0' <= c <= '9') || ('a' <= c <= 'f') || ('A' <= c <= 'F')
}

/// The value of the hex digit `c`.
pub open spec fn hex_char_value(c: char) -> int {
    if '0' <= c <= '9' {
        c as int - '0' as int
    } else if 'a' <= c <= 'f' {
        c as int - 'a' as int + 10
    } else {
        c as int - 'A' as int + 10
    }
}

/// Whether `text` is a colour: exactly six hex digits.
pub open spec fn is_hex_color(text: Seq<char>) -> bool {
    &&& text.len() == 6
    &&& forall|i: int| 0 <= i < 6 ==> is_hex_char(#[trigger] text[i])
}

/// The colour that six hex digits stand for: two digits each for red, green
/// and blue.
pub open spec fn hex_color(text: Seq<char>) -> OwnRGB8 {
    OwnRGB8 {
        r: (16 * hex_char_value(text[0]) + hex_char_value(text[1])) as u8,
        g: (16 * hex_char_value(text[2]) + hex_char_value(text[3])) as u8,
        b: (16 * hex_char_value(text[4]) + hex_char_value(text[5])) as u8,
    }
}

impl OwnRGB8 {
    /// The colour of an LED that is switched off.
    pub open spec fn black() -> OwnRGB8 {
        OwnRGB8 { r: 0, g: 0, b: 0 }
    }

    /// The colour that the three wire bytes `r, g, b` stand for.
    pub open spec fn from_wire(bytes: Seq<u8>) -> OwnRGB8
        recommends
            bytes.len() == 3,
    {
        OwnRGB8 { r: bytes[0], g: bytes[1], b: bytes[2] }
    }

    /// Creates a colour from its values for red, green and blue.
    pub fn new(r: u8, g: u8, b: u8) -> (color: OwnRGB8)
        ensures
            color == (OwnRGB8 { r, g, b }),
    {
        OwnRGB8 { r, g, b }
    }

    /// Reads a colour from its three wire bytes. Any three bytes are a colour.
    pub fn from_bytes(bytes: [u8; 3]) -> (color: OwnRGB8)
        ensures
            color == OwnRGB8::from_wire(bytes@),
            color.wire() == bytes@,
    {
        let color = OwnRGB8 { r: bytes[0], g: bytes[1], b: bytes[2] };
        assert(color.wire() =~= bytes@);
        color
    }

    /// Parses a colour from six hex digits, such as `ff00ff`. Every other text
    /// is rejected: one of another length, and one with a character that is no
    /// hex digit.
    pub fn parse_hex(s: &str) -> (parsed: Result<OwnRGB8, ColorParseError>)
        ensures
            parsed is Ok <==> is_hex_color(s@),
            parsed matches Ok(color) ==> color == hex_color(s@),
            parsed matches Err(e) ==> e == (if s@.len() != 6 {
                ColorParseError::InvalidLength { len: s@.len() as usize }
            } else {
                ColorParseError::InvalidHexCharacter
            }),
    {
        let len = s.unicode_len();
        if len != 6 {
            return Err(ColorParseError::InvalidLength { len });
        }
        if !s.is_ascii() {
            proof {
                let i = choose|i: int| 0 <= i < s@.len() && !('\0' <= #[trigger] s@[i] <= '\u{7f}');
                assert(!is_hex_char(s@[i]));
            }
            return Err(ColorParseError::InvalidHexCharacter);
        }
        let text = s.as_bytes();
        proof {
            is_ascii_spec_bytes(s);
            assert(text@.len() == 6);
            assert forall|i: int| 0 <= i < 6 implies text@[i] == s@[i] as u8 && '\0' <= s@[i]
                <= '\u{7f}' by {
                assert('\0' <= s@[i] <= '\u{7f}');
            }
            if is_hex_text(text@) {
                assert forall|i: int| 0 <= i < 6 implies is_hex_char(#[trigger] s@[i]) by {
                    assert(hex_digit_value(text@[i]) is Some);
                }
            }
            if is_hex_color(s@) {
                assert forall|i: int| 0 <= i < text@.len() implies (#[trigger] hex_digit_value(
                    text@[i],
                )) is Some by {
                    assert(is_hex_char(s@[i]));
                }
            }
        }
        match hex_decode(text) {
            Some(bytes) => {
                assert(bytes@.len() == 3);
                Ok(OwnRGB8 { r: bytes[0], g: bytes[1], b: bytes[2] })
            },
            None => Err(ColorParseError::InvalidHexCharacter),
        }
    }
}

impl core::str::FromStr for OwnRGB8 {
    type Err = ColorParseError;

    /// Parses a colour from six hex digits; every other text is rejected.
    fn from_str(s: &str) -> (parsed: Result<OwnRGB8, ColorParseError>)
        ensures
            parsed is Ok <==> is_hex_color(s@),
            parsed matches Ok(color) ==> color == hex_color(s@),
            parsed matches Err(e) ==> e == (if s@.len() != 6 {
                ColorParseError::InvalidLength { len: s@.len() as usize }
            } else {
                ColorParseError::InvalidHexCharacter
            }),
    {
        OwnRGB8::parse_hex(s)
    }
}

impl Default for OwnRGB8 {
    fn default() -> (color: OwnRGB8)
        ensures
            color == OwnRGB8::black(),
    {
        OwnRGB8 { r: 0, g: 0, b: 0 }
    }
}

impl ToVec for OwnRGB8 {
    open spec fn wire(&self) -> Seq<u8> {
        seq![self.r, self.g, self.b]
    }

    fn to_vec(&self) -> (buf: Vec<u8>) {
        let mut buf: Vec<u8> = Vec::new();
        buf.push(self.r);
        buf.push(self.g);
        buf.push(self.b);
        assert(buf@ =~= self.wire());
        buf
    }
}

/// Decoding the wire bytes of a colour gives the colour again.
pub proof fn lemma_color_roundtrip(color: OwnRGB8)
    ensures
        color.wire().len() == 3,
        OwnRGB8::from_wire(color.wire()) == color,
{
}

} // verus!
