//! Serialisation to wire bytes, and the little-endian 16-bit fields of the format.

use vstd::prelude::*;

verus! {

/// Types with a fixed wire representation.
pub trait ToVec {
    /// The bytes that stand for this value on the wire.
    spec fn wire(&self) -> Seq<u8>;

    /// Serialises the value into a fresh `Vec`.
    fn to_vec(&self) -> (buf: Vec<u8>)
        ensures
            buf@ == self.wire(),
    ;
}

/// The two bytes of `value`, low byte first.
pub open spec fn u16_le(value: u16) -> Seq<u8> {
    seq![(value % 256) as u8, (value / 256) as u8]
}

/// The 16-bit value whose low byte is `lo` and whose high byte is `hi`.
pub open spec fn u16_from_le(lo: u8, hi: u8) -> u16 {
    (lo as int + 256 * hi as int) as u16
}

/// Reading back what `u16_le` wrote gives the value again.
pub proof fn lemma_u16_le_roundtrip(value: u16)
    ensures
        u16_le(value).len() == 2,
        u16_from_le(u16_le(value)[0], u16_le(value)[1]) == value,
{
}

/// Appends `value` to `buf`, low byte first.
pub(crate) fn push_u16_le(buf: &mut Vec<u8>, value: u16)
    ensures
        final(buf)@ == old(buf)@ + u16_le(value),
{
    buf.push((value % 256) as u8);
    buf.push((value / 256) as u8);
    assert(buf@ =~= old(buf)@ + u16_le(value));
}

/// Combines two wire bytes, low byte first, into a 16-bit value.
pub(crate) fn read_u16_le(lo: u8, hi: u8) -> (value: u16)
    ensures
        value == u16_from_le(lo, hi),
{
    lo as u16 + 256 * (hi as u16)
}

/// Appends every byte of `bytes` to `buf`.
pub(crate) fn push_all(buf: &mut Vec<u8>, bytes: &[u8])
    ensures
        final(buf)@ == old(buf)@ + bytes@,
{
    let mut i: usize = 0;
    while i < bytes.len()
        invariant
            i <= bytes@.len(),
            buf@ == old(buf)@ + bytes@.take(i as int),
        decreases bytes@.len() - i,
    {
        buf.push(bytes[i]);
        assert(buf@ =~= old(buf)@ + bytes@.take(i as int + 1));
        i = i + 1;
    }
    assert(bytes@.take(i as int) =~= bytes@);
}

/// Copies `bytes[from..to]` into a fresh `Vec`.
pub(crate) fn copy_range(bytes: &[u8], from: usize, to: usize) -> (out: Vec<u8>)
    requires
        from <= to <= bytes@.len(),
    ensures
        out@ == bytes@.subrange(from as int, to as int),
{
    let mut out: Vec<u8> = Vec::new();
    let mut i: usize = from;
    while i < to
        invariant
            from <= i <= to <= bytes@.len(),
            out@ == bytes@.subrange(from as int, i as int),
        decreases to - i,
    {
        out.push(bytes[i]);
        assert(out@ =~= bytes@.subrange(from as int, i as int + 1));
        i = i + 1;
    }
    out
}

} // verus!
