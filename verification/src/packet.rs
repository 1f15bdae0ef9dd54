//! The packet: magic byte, checksum, payload type and payload.

use vstd::prelude::*;
use crate::checksum::{calc_checksum, checksum_of};
use crate::error::{CherryRgbError, DecodeError};
use crate::hexcodec::{hex_encode, hex_encoded};
use crate::models::{Payload, PayloadType, PayloadView};
use crate::models::lemma_payload_roundtrip;
use crate::models::lemma_payload_roundtrip_padded;
use crate::wire::{
    lemma_u16_le_roundtrip, push_all, push_u16_le, read_u16_le, u16_from_le, u16_le, ToVec,
};
use vstd::slice::slice_subrange;

verus! {

/// The first byte of every packet.
pub const PACKET_MAGIC: u8 = 0x04;

/// Length of the packet header: magic byte, checksum, payload type.
pub const PACKET_HEADER_LEN: usize = 4;

/// A payload with the checksum that goes with it on the wire.
#[derive(Debug, PartialEq, Eq)]
pub struct Packet<T: PayloadType + ToVec> {
    checksum: u16,
    inner: T,
}

/// The mathematical value of a `Packet<Payload>`.
pub struct PacketView {
    pub checksum: u16,
    pub payload: PayloadView,
}

impl PacketView {
    /// The packet that carries `payload` with the checksum that its bytes give.
    pub open spec fn new(payload: PayloadView) -> PacketView {
        PacketView { checksum: checksum_of(payload.payload_type(), payload.body()), payload }
    }

    /// Whether the checksum that the packet carries is the one that its
    /// payload type and body give.
    pub open spec fn checksum_is_valid(self) -> bool {
        self.checksum == checksum_of(self.payload.payload_type(), self.payload.body())
    }

    /// The bytes that encode the packet: magic byte, checksum (low byte
    /// first), payload type, body. The checksum in them is the one that the
    /// payload gives, whatever the packet carries. Nothing is padded.
    pub open spec fn wire(self) -> Seq<u8> {
        seq![PACKET_MAGIC] + u16_le(checksum_of(self.payload.payload_type(), self.payload.body()))
            + seq![self.payload.payload_type()] + self.payload.body()
    }

    /// The packet that `bytes` hold, or the reason why they hold none.
    pub open spec fn decode(bytes: Seq<u8>) -> Result<PacketView, DecodeError> {
        if bytes.len() == 0 {
            Err(DecodeError::UnexpectedEof)
        } else if bytes[0] != PACKET_MAGIC {
            Err(DecodeError::BadMagic { found: bytes[0] })
        } else if bytes.len() < 4 {
            Err(DecodeError::UnexpectedEof)
        } else {
            Ok(
                PacketView {
                    checksum: u16_from_le(bytes[1], bytes[2]),
                    payload: PayloadView::decode(bytes[3], bytes.skip(4)),
                },
            )
        }
    }
}

impl<T: PayloadType + ToVec> Packet<T> {
    /// The checksum that the packet carries.
    pub closed spec fn stored_checksum(&self) -> u16 {
        self.checksum
    }

    /// The payload of the packet.
    pub closed spec fn inner(&self) -> T {
        self.inner
    }

    /// Whether the checksum that the packet carries is the one that its
    /// payload type and payload bytes give.
    pub open spec fn checksum_is_valid(&self) -> bool {
        self.stored_checksum() == checksum_of(self.inner().type_code(), self.inner().wire())
    }

    /// Wraps `inner` with the checksum of its bytes. A packet made here always
    /// passes `verify_checksum`.
    pub fn new(inner: T) -> (packet: Self)
        ensures
            packet.inner() == inner,
            packet.stored_checksum() == checksum_of(inner.type_code(), inner.wire()),
            packet.checksum_is_valid(),
    {
        let body = inner.to_vec();
        let checksum = calc_checksum(inner.payload_type(), body.as_slice());
        Packet { checksum, inner }
    }

    /// Returns the checksum that the packet carries.
    pub fn checksum(&self) -> (sum: u16)
        ensures
            sum == self.stored_checksum(),
    {
        self.checksum
    }

    /// Returns the payload.
    pub fn payload(&self) -> (inner: &T)
        ensures
            *inner == self.inner(),
    {
        &self.inner
    }

    /// Computes the checksum of the payload again and compares it with the
    /// one that the packet carries. A mismatch is reported with both values
    /// and the payload bytes as hex digits.
    pub fn verify_checksum(&self) -> (verdict: Result<(), CherryRgbError>)
        ensures
            verdict is Ok <==> self.checksum_is_valid(),
            verdict matches Err(e) ==> {
                &&& e matches CherryRgbError::ChecksumError { expected, calculated, data }
                &&& expected == self.stored_checksum()
                &&& calculated == checksum_of(self.inner().type_code(), self.inner().wire())
                &&& data@ == hex_encoded(self.inner().wire())
            },
    {
        let payload = self.inner.to_vec();
        let calculated = calc_checksum(self.inner.payload_type(), payload.as_slice());
        if calculated == self.checksum {
            Ok(())
        } else {
            Err(
                CherryRgbError::ChecksumError {
                    expected: self.checksum,
                    calculated,
                    data: hex_encode(payload.as_slice()),
                },
            )
        }
    }
}

impl Clone for Packet<Payload> {
    fn clone(&self) -> (copy: Packet<Payload>)
        ensures
            copy@ == self@,
    {
        Packet { checksum: self.checksum, inner: self.inner.clone() }
    }
}

impl<T: PayloadType + ToVec> ToVec for Packet<T> {
    open spec fn wire(&self) -> Seq<u8> {
        seq![PACKET_MAGIC] + u16_le(checksum_of(self.inner().type_code(), self.inner().wire()))
            + seq![self.inner().type_code()] + self.inner().wire()
    }

    /// Writes magic byte, checksum, payload type and payload. The checksum is
    /// computed from the payload here, so that what is written always
    /// verifies; the result is not padded to the size of a report.
    fn to_vec(&self) -> (buf: Vec<u8>) {
        let body = self.inner.to_vec();
        let payload_type = self.inner.payload_type();
        let mut buf: Vec<u8> = Vec::new();
        buf.push(PACKET_MAGIC);
        push_u16_le(&mut buf, calc_checksum(payload_type, body.as_slice()));
        buf.push(payload_type);
        push_all(&mut buf, body.as_slice());
        assert(buf@ =~= self.wire());
        buf
    }
}

impl View for Packet<Payload> {
    type V = PacketView;

    open spec fn view(&self) -> PacketView {
        PacketView { checksum: self.stored_checksum(), payload: self.inner()@ }
    }
}

impl Packet<Payload> {
    /// Decodes a packet from `bytes`. This fails only where the header is
    /// incomplete or does not begin with the magic byte; a payload of a type
    /// that is not known comes back as `Payload::Unhandled`. The checksum is
    /// read, not verified.
    pub fn decode(bytes: &[u8]) -> (decoded: Result<Packet<Payload>, DecodeError>)
        ensures
            decoded is Ok <==> PacketView::decode(bytes@) is Ok,
            decoded matches Ok(packet) ==> packet@ == PacketView::decode(bytes@)->Ok_0,
            decoded matches Err(e) ==> PacketView::decode(bytes@) == Err::<PacketView, DecodeError>(e),
    {
        if bytes.len() == 0 {
            return Err(DecodeError::UnexpectedEof);
        }
        if bytes[0] != PACKET_MAGIC {
            return Err(DecodeError::BadMagic { found: bytes[0] });
        }
        if bytes.len() < PACKET_HEADER_LEN {
            return Err(DecodeError::UnexpectedEof);
        }
        let checksum = read_u16_le(bytes[1], bytes[2]);
        let body = slice_subrange(bytes, PACKET_HEADER_LEN, bytes.len());
        assert(body@ =~= bytes@.skip(4));
        let inner = Payload::decode(bytes[3], body);
        Ok(Packet { checksum, inner })
    }
}

/// The bytes of a packet with a canonical payload decode to that payload
/// with a valid checksum, whatever checksum the packet carried.
pub proof fn lemma_packet_roundtrip(packet: PacketView)
    requires
        packet.payload.is_canonical(),
    ensures
        PacketView::decode(packet.wire()) == Ok::<PacketView, DecodeError>(
            PacketView::new(packet.payload),
        ),
        packet.checksum_is_valid() ==> PacketView::decode(packet.wire()) == Ok::<
            PacketView,
            DecodeError,
        >(packet),
{
    lemma_u16_le_roundtrip(checksum_of(packet.payload.payload_type(), packet.payload.body()));
    lemma_payload_roundtrip(packet.payload);
    assert(packet.wire().skip(4) =~= packet.payload.body());
}

/// The bytes of a packet with a canonical payload of a known type decode to
/// that payload also where bytes follow them, as the zero bytes of a padded
/// report do.
pub proof fn lemma_packet_roundtrip_padded(packet: PacketView, rest: Seq<u8>)
    requires
        packet.payload.is_canonical(),
        !(packet.payload is Unhandled),
    ensures
        PacketView::decode(packet.wire() + rest) == Ok::<PacketView, DecodeError>(
            PacketView::new(packet.payload),
        ),
{
    lemma_u16_le_roundtrip(checksum_of(packet.payload.payload_type(), packet.payload.body()));
    lemma_payload_roundtrip_padded(packet.payload, rest);
    assert((packet.wire() + rest).skip(4) =~= packet.payload.body() + rest);
}

/// A packet of a payload type that is not known keeps its body and loses its
/// type: it decodes to an unhandled payload of all the bytes behind the
/// header, and encoded again it carries them under the payload type `0xFF`.
pub proof fn lemma_unhandled_keeps_bytes_only(bytes: Seq<u8>)
    requires
        bytes.len() >= 4,
        bytes[0] == PACKET_MAGIC,
        PayloadView::decode(bytes[3], bytes.skip(4)) is Unhandled,
    ensures
        PacketView::decode(bytes) matches Ok(packet) && packet.payload == (PayloadView::Unhandled {
            data: bytes.skip(4),
        }) && packet.checksum == u16_from_le(bytes[1], bytes[2]) && packet.wire() == seq![
            PACKET_MAGIC,
        ] + u16_le(checksum_of(0xFF, bytes.skip(4))) + seq![0xFFu8] + bytes.skip(4),
{
}

/// A packet made of a payload by `PacketView::new` carries a valid checksum.
pub proof fn lemma_new_packet_verifies(payload: PayloadView)
    ensures
        PacketView::new(payload).checksum_is_valid(),
        PacketView::new(payload).payload == payload,
{
}

/// One bit changed in a checksum byte (index 1 or 2) of the bytes of a
/// packet: the bytes still decode, to the same payload, and the checksum of
/// what they decode to is not valid.
pub proof fn lemma_checksum_bit_flip_detected(payload: PayloadView, index: int, bit: u8)
    requires
        payload.is_canonical(),
        index == 1 || index == 2,
        bit < 8,
    ensures
        ({
            let wire = PacketView::new(payload).wire();
            let damaged = wire.update(index, wire[index] ^ (1u8 << bit));
            &&& PacketView::decode(damaged) matches Ok(packet)
            &&& packet.payload == payload
            &&& !packet.checksum_is_valid()
        }),
{
    let packet = PacketView::new(payload);
    let wire = packet.wire();
    let intact = wire[index];
    let damaged = wire.update(index, intact ^ (1u8 << bit));
    assert(intact ^ (1u8 << bit) != intact) by (bit_vector)
        requires
            bit < 8,
    ;
    lemma_u16_le_roundtrip(packet.checksum);
    lemma_payload_roundtrip(payload);
    assert(wire.skip(4) =~= payload.body());
    assert(damaged.skip(4) =~= payload.body());
}

} // verus!
