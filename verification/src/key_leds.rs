//! The table of custom colours, one for each key, and its chunks.

use vstd::prelude::*;
use crate::color::OwnRGB8;
use crate::error::CherryRgbError;
use crate::models::{Payload, PayloadView};
use crate::wire::{copy_range, ToVec};

verus! {

/// Number of keys, and so of colours in the table.
pub const TOTAL_KEYS: usize = 126;

/// Length of the serialised table: three bytes for each key.
pub const TABLE_BYTES: usize = 378;

/// Number of table bytes that one `SetCustomLED` payload carries: a report of
/// 64 bytes less the packet header and the chunk header, 4 bytes each.
pub const CHUNK_SIZE: usize = 56;

/// The colour of one key in a colour profile.
#[derive(Clone, Copy, Debug, PartialEq, Eq, Structural)]
pub struct ProfileKey {
    pub key_index: usize,
    pub rgb_value: OwnRGB8,
}

impl ProfileKey {
    /// Pairs a key index with a colour.
    pub fn new(index: usize, rgb: OwnRGB8) -> (key: ProfileKey)
        ensures
            key == (ProfileKey { key_index: index, rgb_value: rgb }),
    {
        ProfileKey { key_index: index, rgb_value: rgb }
    }
}

/// The table in which no LED is lit.
pub open spec fn blank_table() -> Seq<OwnRGB8> {
    Seq::new(TOTAL_KEYS as nat, |i: int| OwnRGB8::black())
}

/// The bytes of a table: red, green and blue of each colour, in key order.
pub open spec fn table_bytes(leds: Seq<OwnRGB8>) -> Seq<u8> {
    Seq::new(
        3 * leds.len(),
        |i: int|
            if i % 3 == 0 {
                leds[i / 3].r
            } else if i % 3 == 1 {
                leds[i / 3].g
            } else {
                leds[i / 3].b
            },
    )
}

/// The table that `bytes` hold, three bytes to a colour.
pub open spec fn table_from_bytes(bytes: Seq<u8>) -> Seq<OwnRGB8> {
    Seq::new(
        bytes.len() / 3,
        |k: int| OwnRGB8 { r: bytes[3 * k], g: bytes[3 * k + 1], b: bytes[3 * k + 2] },
    )
}

/// `table` with the first `leds.len()` colours replaced by `leds`.
pub open spec fn table_with_prefix(table: Seq<OwnRGB8>, leds: Seq<OwnRGB8>) -> Seq<OwnRGB8> {
    Seq::new(table.len(), |i: int| if i < leds.len() { leds[i] } else { table[i] })
}

/// Whether every key of `keys` names a key of a table of `len` colours.
pub open spec fn keys_in_bounds(keys: Seq<ProfileKey>, len: nat) -> bool {
    forall|i: int| 0 <= i < keys.len() ==> (#[trigger] keys[i]).key_index < len
}

/// `table` after each key of `keys` was set in turn: where two keys name the
/// same index, the later one stays.
pub open spec fn apply_keys(table: Seq<OwnRGB8>, keys: Seq<ProfileKey>) -> Seq<OwnRGB8>
    decreases keys.len(),
{
    if keys.len() == 0 {
        table
    } else {
        apply_keys(table, keys.drop_last()).update(
            keys.last().key_index as int,
            keys.last().rgb_value,
        )
    }
}

/// Number of chunks that `len` bytes are split into.
pub open spec fn chunk_count(len: nat) -> nat {
    ((len + CHUNK_SIZE - 1) / (CHUNK_SIZE as int)) as nat
}

/// The bytes of chunk `k` of `bytes`: `CHUNK_SIZE` of them, fewer in the last.
pub open spec fn chunk_of(bytes: Seq<u8>, k: int) -> Seq<u8> {
    bytes.subrange(
        k * CHUNK_SIZE,
        if (k + 1) * CHUNK_SIZE <= bytes.len() {
            (k + 1) * CHUNK_SIZE
        } else {
            bytes.len() as int
        },
    )
}

/// The chunk payloads of `bytes`, in ascending order of offset; the offset of
/// a chunk is the number of bytes before it.
pub open spec fn chunk_payloads(bytes: Seq<u8>) -> Seq<PayloadView> {
    Seq::new(
        chunk_count(bytes.len()),
        |k: int|
            PayloadView::SetCustomLED {
                data_offset: (k * CHUNK_SIZE) as u16,
                padding: 0,
                key_leds_data: chunk_of(bytes, k),
            },
    )
}

/// The mathematical values of a list of payloads.
pub open spec fn payload_views(payloads: Seq<Payload>) -> Seq<PayloadView> {
    payloads.map_values(|p: Payload| p@)
}

/// The custom colours of all keys: always `TOTAL_KEYS` colours, the colour at
/// index `i` being that of key `i`.
#[derive(Debug, PartialEq, Eq)]
pub struct CustomKeyLeds {
    key_leds: Vec<OwnRGB8>,
}

impl View for CustomKeyLeds {
    type V = Seq<OwnRGB8>;

    closed spec fn view(&self) -> Seq<OwnRGB8> {
        self.key_leds@
    }
}

impl CustomKeyLeds {
    #[verifier::type_invariant]
    spec fn has_all_keys(self) -> bool {
        self.key_leds@.len() == TOTAL_KEYS
    }

    /// Creates the table in which no LED is lit.
    pub fn new() -> (table: CustomKeyLeds)
        ensures
            table@ == blank_table(),
            table@.len() == TOTAL_KEYS,
    {
        let mut key_leds: Vec<OwnRGB8> = Vec::new();
        let mut i: usize = 0;
        while i < TOTAL_KEYS
            invariant
                i <= TOTAL_KEYS,
                key_leds@.len() == i,
                forall|j: int| 0 <= j < i ==> key_leds@[j] == OwnRGB8::black(),
            decreases TOTAL_KEYS - i,
        {
            key_leds.push(OwnRGB8 { r: 0, g: 0, b: 0 });
            i = i + 1;
        }
        assert(key_leds@ =~= blank_table());
        CustomKeyLeds { key_leds }
    }

    /// Returns the number of colours, which is always `TOTAL_KEYS`.
    pub fn len(&self) -> (n: usize)
        ensures
            n == TOTAL_KEYS,
            n == self@.len(),
    {
        proof {
            use_type_invariant(self);
        }
        self.key_leds.len()
    }

    /// Returns the colour of the key at `key_index`, if there is such a key.
    pub fn get_led(&self, key_index: usize) -> (color: Option<OwnRGB8>)
        ensures
            self@.len() == TOTAL_KEYS,
            color == (if key_index < TOTAL_KEYS {
                Some(self@[key_index as int])
            } else {
                None
            }),
    {
        proof {
            use_type_invariant(self);
        }
        if key_index < self.key_leds.len() {
            Some(self.key_leds[key_index])
        } else {
            None
        }
    }

    /// Sets the colour of the key at `key_index`. An index that names no key
    /// is rejected, and the table stays as it was.
    pub fn set_led(&mut self, key_index: usize, key: OwnRGB8) -> (done: Result<(), CherryRgbError>)
        ensures
            final(self)@.len() == TOTAL_KEYS,
            old(self)@.len() == TOTAL_KEYS,
            done is Ok <==> key_index < TOTAL_KEYS,
            done is Ok ==> final(self)@ == old(self)@.update(key_index as int, key),
            done matches Err(e) ==> final(self)@ == old(self)@ && e == (
            CherryRgbError::KeyIndexOutOfBounds { key_index }),
    {
        proof {
            use_type_invariant(&*self);
        }
        if key_index >= self.key_leds.len() {
            return Err(CherryRgbError::KeyIndexOutOfBounds { key_index });
        }
        self.key_leds[key_index] = key;
        Ok(())
    }

    /// Creates a table from the colours of the first keys; the keys behind
    /// them are not lit. More colours than there are keys are rejected.
    pub fn from_leds(key_leds: Vec<OwnRGB8>) -> (made: Result<CustomKeyLeds, CherryRgbError>)
        ensures
            made is Ok <==> key_leds@.len() <= TOTAL_KEYS,
            made matches Ok(table) ==> table@ == table_with_prefix(blank_table(), key_leds@),
            made matches Err(e) ==> e == (CherryRgbError::TooManyKeyLeds { count: key_leds.len() }),
    {
        if key_leds.len() > TOTAL_KEYS {
            return Err(CherryRgbError::TooManyKeyLeds { count: key_leds.len() });
        }
        let ghost given = key_leds@;
        let mut leds = key_leds;
        while leds.len() < TOTAL_KEYS
            invariant
                given.len() <= leds@.len() <= TOTAL_KEYS,
                forall|j: int| 0 <= j < given.len() ==> leds@[j] == given[j],
                forall|j: int| given.len() <= j < leds@.len() ==> leds@[j] == OwnRGB8::black(),
            decreases TOTAL_KEYS - leds@.len(),
        {
            leds.push(OwnRGB8 { r: 0, g: 0, b: 0 });
        }
        assert(leds@ =~= table_with_prefix(blank_table(), given));
        Ok(CustomKeyLeds { key_leds: leds })
    }

    /// Creates a table from the keys of a colour profile: a blank table on
    /// which each key is set in turn. The first key whose index names no key
    /// of the table ends the work with an error.
    pub fn try_from(value: Vec<ProfileKey>) -> (made: Result<CustomKeyLeds, CherryRgbError>)
        ensures
            made is Ok <==> keys_in_bounds(value@, TOTAL_KEYS as nat),
            made matches Ok(table) ==> table@ == apply_keys(blank_table(), value@),
            made matches Err(e) ==> exists|j: int|
                is_first_out_of_bounds(value@, j) && e == (CherryRgbError::KeyIndexOutOfBounds {
                    key_index: value@[j].key_index,
                }),
    {
        CustomKeyLeds::new().modify_from(value)
    }

    /// Sets each key of a colour profile in turn on this table, so that keys
    /// which the profile does not name keep their colour. The first key whose
    /// index names no key of the table ends the work with an error.
    pub fn modify_from(self, keys: Vec<ProfileKey>) -> (made: Result<CustomKeyLeds, CherryRgbError>)
        ensures
            made is Ok <==> keys_in_bounds(keys@, TOTAL_KEYS as nat),
            made matches Ok(table) ==> table@ == apply_keys(self@, keys@),
            made matches Err(e) ==> exists|j: int|
                is_first_out_of_bounds(keys@, j) && e == (CherryRgbError::KeyIndexOutOfBounds {
                    key_index: keys@[j].key_index,
                }),
    {
        proof {
            use_type_invariant(&self);
        }
        let ghost start = self.key_leds@;
        let mut leds = self.key_leds;
        let mut i: usize = 0;
        while i < keys.len()
            invariant
                i <= keys@.len(),
                leds@.len() == TOTAL_KEYS,
                start.len() == TOTAL_KEYS,
                keys_in_bounds(keys@.take(i as int), TOTAL_KEYS as nat),
                leds@ == apply_keys(start, keys@.take(i as int)),
            decreases keys@.len() - i,
        {
            let key = keys[i];
            if key.key_index >= TOTAL_KEYS {
                proof {
                    assert forall|k: int| 0 <= k < i implies (#[trigger] keys@[k]).key_index
                        < TOTAL_KEYS by {
                        assert(keys@.take(i as int)[k] == keys@[k]);
                    }
                    assert(is_first_out_of_bounds(keys@, i as int));
                }
                return Err(CherryRgbError::KeyIndexOutOfBounds { key_index: key.key_index });
            }
            leds[key.key_index] = key.rgb_value;
            proof {
                let next = keys@.take(i as int + 1);
                assert(next.drop_last() =~= keys@.take(i as int));
                assert(next.last() == key);
                assert forall|k: int| 0 <= k < next.len() implies (#[trigger] next[k]).key_index
                    < TOTAL_KEYS by {
                    if k < i {
                        assert(keys@.take(i as int)[k] == next[k]);
                    }
                }
            }
            i = i + 1;
        }
        assert(keys@.take(i as int) =~= keys@);
        Ok(CustomKeyLeds { key_leds: leds })
    }

    /// Reads a table from its serialised form: three bytes for each key.
    /// Bytes of any other length are rejected.
    pub fn from_bytes(bytes: &[u8]) -> (made: Result<CustomKeyLeds, CherryRgbError>)
        ensures
            made is Ok <==> bytes@.len() == TABLE_BYTES,
            made matches Ok(table) ==> table@ == table_from_bytes(bytes@),
            made matches Err(e) ==> e == (CherryRgbError::InvalidTableLength { len: bytes.len() }),
    {
        if bytes.len() != TABLE_BYTES {
            return Err(CherryRgbError::InvalidTableLength { len: bytes.len() });
        }
        let mut leds: Vec<OwnRGB8> = Vec::new();
        let mut k: usize = 0;
        while k < TOTAL_KEYS
            invariant
                k <= TOTAL_KEYS,
                bytes@.len() == TABLE_BYTES,
                leds@.len() == k,
                forall|j: int| 0 <= j < k ==> leds@[j] == table_from_bytes(bytes@)[j],
            decreases TOTAL_KEYS - k,
        {
            leds.push(OwnRGB8 { r: bytes[3 * k], g: bytes[3 * k + 1], b: bytes[3 * k + 2] });
            k = k + 1;
        }
        assert(leds@ =~= table_from_bytes(bytes@));
        Ok(CustomKeyLeds { key_leds: leds })
    }

    /// Splits the serialised table into the payloads that carry it to the
    /// device: consecutive chunks of `CHUNK_SIZE` bytes, the last one shorter,
    /// each with the number of table bytes before it as its offset. They come
    /// in ascending order of offset, which is the order to send them in.
    /// This never fails.
    pub fn get_payloads(self) -> (made: Result<Vec<Payload>, CherryRgbError>)
        ensures
            made matches Ok(payloads) && payload_views(payloads@) == chunk_payloads(
                table_bytes(self@),
            ),
            made->Ok_0@.len() == 7,
    {
        Ok(self.chunks())
    }

    /// The chunk payloads of the table, in ascending order of offset.
    pub(crate) fn chunks(&self) -> (payloads: Vec<Payload>)
        ensures
            self@.len() == TOTAL_KEYS,
            payload_views(payloads@) == chunk_payloads(table_bytes(self@)),
            payloads@.len() == 7,
    {
        let key_data = self.to_vec();
        proof {
            use_type_invariant(self);
        }
        let mut payloads: Vec<Payload> = Vec::new();
        let mut index: usize = 0;
        while index * CHUNK_SIZE < key_data.len()
            invariant
                key_data@.len() == TABLE_BYTES,
                index <= 7,
                payloads@.len() == index,
                forall|j: int|
                    0 <= j < index ==> (#[trigger] payloads@[j])@ == chunk_payloads(key_data@)[j],
            decreases 7 - index,
        {
            let data_offset = index * CHUNK_SIZE;
            let end = if data_offset + CHUNK_SIZE <= key_data.len() {
                data_offset + CHUNK_SIZE
            } else {
                key_data.len()
            };
            payloads.push(
                Payload::SetCustomLED {
                    data_offset: data_offset as u16,
                    padding: 0x00,
                    key_leds_data: copy_range(key_data.as_slice(), data_offset, end),
                },
            );
            index = index + 1;
        }
        assert(payload_views(payloads@) =~= chunk_payloads(key_data@));
        payloads
    }
}

/// Whether `keys[j]` is the first key whose index names no key of the table.
pub open spec fn is_first_out_of_bounds(keys: Seq<ProfileKey>, j: int) -> bool {
    &&& 0 <= j < keys.len()
    &&& keys[j].key_index >= TOTAL_KEYS
    &&& forall|i: int| 0 <= i < j ==> (#[trigger] keys[i]).key_index < TOTAL_KEYS
}

impl Clone for CustomKeyLeds {
    fn clone(&self) -> (copy: CustomKeyLeds)
        ensures
            copy@ == self@,
    {
        proof {
            use_type_invariant(self);
        }
        let key_leds = self.key_leds.clone();
        assert(key_leds@ =~= self.key_leds@);
        CustomKeyLeds { key_leds }
    }
}

impl Default for CustomKeyLeds {
    fn default() -> (table: CustomKeyLeds)
        ensures
            table@ == blank_table(),
    {
        CustomKeyLeds::new()
    }
}

impl ToVec for CustomKeyLeds {
    open spec fn wire(&self) -> Seq<u8> {
        table_bytes(self@)
    }

    /// Serialises the table: `TABLE_BYTES` bytes, three for each key.
    fn to_vec(&self) -> (buf: Vec<u8>) {
        proof {
            use_type_invariant(self);
        }
        let mut buf: Vec<u8> = Vec::new();
        let mut k: usize = 0;
        while k < self.key_leds.len()
            invariant
                k <= self.key_leds@.len(),
                buf@.len() == 3 * k,
                forall|j: int| 0 <= j < 3 * k ==> buf@[j] == table_bytes(self.key_leds@)[j],
            decreases self.key_leds@.len() - k,
        {
            let color = self.key_leds[k];
            buf.push(color.r);
            buf.push(color.g);
            buf.push(color.b);
            k = k + 1;
        }
        assert(buf@ =~= table_bytes(self.key_leds@));
        buf
    }
}

/// A table is read back from its bytes, and bytes of whole colours are
/// written back from the table that they hold.
pub proof fn lemma_table_bytes_roundtrip(leds: Seq<OwnRGB8>, bytes: Seq<u8>)
    requires
        bytes.len() % 3 == 0,
    ensures
        table_bytes(leds).len() == 3 * leds.len(),
        table_from_bytes(table_bytes(leds)) == leds,
        table_bytes(table_from_bytes(bytes)) == bytes,
{
    assert(table_from_bytes(table_bytes(leds)) =~= leds);
    assert(table_bytes(table_from_bytes(bytes)) =~= bytes);
}

/// The chunks cover the bytes without gap or overlap: byte `i` is byte
/// `i % CHUNK_SIZE` of chunk `i / CHUNK_SIZE`.
pub proof fn lemma_chunks_cover(bytes: Seq<u8>, i: int)
    requires
        0 <= i < bytes.len(),
    ensures
        0 <= i / (CHUNK_SIZE as int) < chunk_count(bytes.len()),
        i % (CHUNK_SIZE as int) < chunk_of(bytes, i / (CHUNK_SIZE as int)).len(),
        chunk_of(bytes, i / (CHUNK_SIZE as int))[i % (CHUNK_SIZE as int)] == bytes[i],
{
}

/// The chunks of a table of `TOTAL_KEYS` colours: seven, at the offsets
/// 0, 56, ..., 336, of 56 bytes each but for the last, which has 42.
pub proof fn lemma_table_chunks(leds: Seq<OwnRGB8>)
    requires
        leds.len() == TOTAL_KEYS,
    ensures
        table_bytes(leds).len() == TABLE_BYTES,
        chunk_payloads(table_bytes(leds)).len() == 7,
        forall|k: int|
            0 <= k < 7 ==> #[trigger] chunk_payloads(table_bytes(leds))[k] == (
            PayloadView::SetCustomLED {
                data_offset: (56 * k) as u16,
                padding: 0,
                key_leds_data: table_bytes(leds).subrange(56 * k, if k < 6 {
                    56 * k + 56
                } else {
                    378
                }),
            }),
        forall|k: int|
            0 <= k < 7 ==> (#[trigger] chunk_payloads(table_bytes(leds))[k]).is_canonical(),
{
}

} // verus!
