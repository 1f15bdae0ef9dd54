//! The checksum that every packet carries.

use vstd::prelude::*;

verus! {

/// Sum of the bytes of `s`, as a mathematical integer.
pub open spec fn byte_sum(s: Seq<u8>) -> int
    decreases s.len(),
{
    if s.len() == 0 {
        0
    } else {
        byte_sum(s.drop_last()) + s.last() as int
    }
}

/// The checksum of a packet: the payload type plus all body bytes, kept to
/// 16 bits. No byte of the header takes part.
pub open spec fn checksum_of(payload_type: u8, data: Seq<u8>) -> u16 {
    ((payload_type as int + byte_sum(data)) % 0x1_0000) as u16
}

/// Computes the checksum that a packet with this payload type and body carries.
pub fn calc_checksum(payload_type: u8, data: &[u8]) -> (sum: u16)
    ensures
        sum == checksum_of(payload_type, data@),
{
    let mut acc: u16 = payload_type as u16;
    let mut i: usize = 0;
    while i < data.len()
        invariant
            i <= data@.len(),
            acc as int == (payload_type as int + byte_sum(data@.take(i as int))) % 0x1_0000,
        decreases data@.len() - i,
    {
        assert(data@.take(i as int + 1).drop_last() =~= data@.take(i as int));
        acc = acc.wrapping_add(data[i] as u16);
        i = i + 1;
    }
    assert(data@.take(i as int) =~= data@);
    acc
}

} // verus!
