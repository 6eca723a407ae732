//! The backing descriptor of one component instance, and the fixed family
//! of raw get/set-member primitives that move field values through it.
//!
//! A descriptor owns one zero-initialized byte block of the schema's
//! planned size. Fixed-size field values live in that block, little
//! endian, at their planned offsets. Variable-length payloads — text and
//! homogeneous lists — live in separately owned storage keyed by the
//! field's inline cell offset; ownership of a payload moves into the
//! descriptor on write and a copy is handed out on read.

use vstd::prelude::*;

verus! {

/// `bytes` with the `patch.len()` bytes starting at `off` replaced by
/// `patch`.
pub open spec fn spec_splice(bytes: Seq<u8>, off: int, patch: Seq<u8>) -> Seq<u8> {
    bytes.subrange(0, off) + patch + bytes.subrange(off + patch.len(), bytes.len() as int)
}

/// Pointwise description of a splice: inside the window the patch is
/// visible, outside it the original bytes are.
pub proof fn lemma_splice_index(bytes: Seq<u8>, off: int, patch: Seq<u8>, i: int)
    requires
        0 <= off,
        off + patch.len() <= bytes.len(),
        0 <= i < bytes.len(),
    ensures
        spec_splice(bytes, off, patch).len() == bytes.len(),
        spec_splice(bytes, off, patch)[i] == if off <= i < off + patch.len() {
            patch[i - off]
        } else {
            bytes[i]
        },
{
}

/// The two little-endian bytes of a 16-bit value.
pub open spec fn spec_le2_of(v: u16) -> Seq<u8> {
    seq![(v % 0x100) as u8, ((v / 0x100) % 0x100) as u8]
}

/// The 16-bit value stored little endian at `off`.
pub open spec fn spec_le2_at(bytes: Seq<u8>, off: int) -> u16
    recommends
        0 <= off,
        off + 2 <= bytes.len(),
{
    (bytes[off] + bytes[off + 1] * 0x100) as u16
}

/// The four little-endian bytes of a 32-bit value.
pub open spec fn spec_le4_of(v: u32) -> Seq<u8> {
    seq![
        (v % 0x100) as u8,
        ((v / 0x100) % 0x100) as u8,
        ((v / 0x1_0000) % 0x100) as u8,
        ((v / 0x100_0000) % 0x100) as u8,
    ]
}

/// The 32-bit value stored little endian at `off`.
pub open spec fn spec_le4_at(bytes: Seq<u8>, off: int) -> u32
    recommends
        0 <= off,
        off + 4 <= bytes.len(),
{
    (bytes[off] + bytes[off + 1] * 0x100 + bytes[off + 2] * 0x1_0000 + bytes[off + 3]
        * 0x100_0000) as u32
}

/// The eight little-endian bytes of a 64-bit value.
pub open spec fn spec_le8_of(v: u64) -> Seq<u8> {
    seq![
        (v % 0x100) as u8,
        ((v / 0x100) % 0x100) as u8,
        ((v / 0x1_0000) % 0x100) as u8,
        ((v / 0x100_0000) % 0x100) as u8,
        ((v / 0x1_0000_0000) % 0x100) as u8,
        ((v / 0x100_0000_0000) % 0x100) as u8,
        ((v / 0x1_0000_0000_0000) % 0x100) as u8,
        ((v / 0x100_0000_0000_0000) % 0x100) as u8,
    ]
}

/// The 64-bit value stored little endian at `off`.
pub open spec fn spec_le8_at(bytes: Seq<u8>, off: int) -> u64
    recommends
        0 <= off,
        off + 8 <= bytes.len(),
{
    (bytes[off] + bytes[off + 1] * 0x100 + bytes[off + 2] * 0x1_0000 + bytes[off + 3] * 0x100_0000
        + bytes[off + 4] * 0x1_0000_0000 + bytes[off + 5] * 0x100_0000_0000 + bytes[off + 6]
        * 0x1_0000_0000_0000 + bytes[off + 7] * 0x100_0000_0000_0000) as u64
}

/// Decomposing a 16-bit value into little-endian bytes and reassembling
/// them gives the value back.
pub proof fn lemma_le2_round_trip(v: u16)
    ensures
        spec_le2_of(v).len() == 2,
        spec_le2_at(spec_le2_of(v), 0) == v,
{
    assert(v % 0x100 + ((v / 0x100) % 0x100) * 0x100 == v) by (bit_vector);
}

/// Decomposing a 32-bit value into little-endian bytes and reassembling
/// them gives the value back.
pub proof fn lemma_le4_round_trip(v: u32)
    ensures
        spec_le4_of(v).len() == 4,
        spec_le4_at(spec_le4_of(v), 0) == v,
{
    assert(v % 0x100 + ((v / 0x100) % 0x100) * 0x100 + ((v / 0x1_0000) % 0x100) * 0x1_0000 + ((v
        / 0x100_0000) % 0x100) * 0x100_0000 == v) by (bit_vector);
}

/// Decomposing a 64-bit value into little-endian bytes and reassembling
/// them gives the value back.
pub proof fn lemma_le8_round_trip(v: u64)
    ensures
        spec_le8_of(v).len() == 8,
        spec_le8_at(spec_le8_of(v), 0) == v,
{
    assert(v % 0x100 + ((v / 0x100) % 0x100) * 0x100 + ((v / 0x1_0000) % 0x100) * 0x1_0000 + ((v
        / 0x100_0000) % 0x100) * 0x100_0000 + ((v / 0x1_0000_0000) % 0x100) * 0x1_0000_0000 + ((v
        / 0x100_0000_0000) % 0x100) * 0x100_0000_0000 + ((v / 0x1_0000_0000_0000) % 0x100)
        * 0x1_0000_0000_0000 + ((v / 0x100_0000_0000_0000) % 0x100) * 0x100_0000_0000_0000 == v)
        by (bit_vector);
}

/// The value an association list holds under key `k`: the first entry with
/// that key, scanning from the front.
pub open spec fn assoc_find<V>(entries: Seq<(u32, V)>, k: u32) -> Option<V>
    decreases entries.len(),
{
    if entries.len() == 0 {
        None
    } else if entries.last().0 == k {
        Some(entries.last().1)
    } else {
        assoc_find(entries.drop_last(), k)
    }
}

/// Keys of an association list are pairwise distinct, so scan direction
/// does not matter.
pub open spec fn assoc_keys_distinct<V>(entries: Seq<(u32, V)>) -> bool {
    forall|i: int, j: int|
        0 <= i < j < entries.len() ==> (#[trigger] entries[i]).0 != (#[trigger] entries[j]).0
}

/// A key that occurs nowhere in the list is not found.
pub proof fn lemma_assoc_find_absent<V>(entries: Seq<(u32, V)>, k: u32)
    requires
        forall|i: int| 0 <= i < entries.len() ==> (#[trigger] entries[i]).0 != k,
    ensures
        assoc_find(entries, k) is None,
    decreases entries.len(),
{
    if entries.len() > 0 {
        lemma_assoc_find_absent(entries.drop_last(), k);
    }
}

/// With distinct keys, the entry at the one matching position is what the
/// list holds under its key.
pub proof fn lemma_assoc_find_present<V>(entries: Seq<(u32, V)>, k: u32, i: int)
    requires
        0 <= i < entries.len(),
        entries[i].0 == k,
        forall|j: int| 0 <= j < entries.len() && j != i ==> (#[trigger] entries[j]).0 != k,
    ensures
        assoc_find(entries, k) == Some(entries[i].1),
    decreases entries.len(),
{
    if i == entries.len() - 1 {
    } else {
        lemma_assoc_find_present(entries.drop_last(), k, i);
    }
}

/// Appending a fresh entry makes its value found under its key and leaves
/// every other key's answer unchanged.
pub proof fn lemma_assoc_find_push<V>(entries: Seq<(u32, V)>, k: u32, v: V, k2: u32)
    requires
        assoc_find(entries, k) is None,
    ensures
        assoc_find(entries.push((k, v)), k2) == if k2 == k {
            Some(v)
        } else {
            assoc_find(entries, k2)
        },
{
    assert(entries.push((k, v)).drop_last() =~= entries);
}

/// Overwriting the one entry holding key `k` changes what is found under
/// `k` and nothing else.
pub proof fn lemma_assoc_find_update<V>(entries: Seq<(u32, V)>, i: int, k: u32, v: V, k2: u32)
    requires
        0 <= i < entries.len(),
        entries[i].0 == k,
        forall|j: int| 0 <= j < entries.len() && j != i ==> (#[trigger] entries[j]).0 != k,
    ensures
        assoc_find(entries.update(i, (k, v)), k2) == if k2 == k {
            Some(v)
        } else {
            assoc_find(entries, k2)
        },
    decreases entries.len(),
{
    let updated = entries.update(i, (k, v));
    if i == entries.len() - 1 {
        assert(updated.drop_last() =~= entries.drop_last());
        if k2 != k {
            assert(assoc_find(updated, k2) == assoc_find(entries.drop_last(), k2));
            assert(entries.last().0 == k);
            assert(assoc_find(entries, k2) == assoc_find(entries.drop_last(), k2));
        }
    } else {
        assert(updated.drop_last() =~= entries.drop_last().update(i, (k, v)));
        assert(updated.last() == entries.last());
        lemma_assoc_find_update(entries.drop_last(), i, k, v, k2);
    }
}

/// Look a key up in an association list with distinct keys.
fn assoc_get<'a, V>(entries: &'a Vec<(u32, V)>, k: u32) -> (r: Option<&'a V>)
    requires
        assoc_keys_distinct(entries@),
    ensures
        match r {
            Some(v) => assoc_find(entries@, k) == Some(*v),
            None => assoc_find(entries@, k) is None,
        },
{
    let mut i: usize = 0;
    while i < entries.len()
        invariant
            i <= entries@.len(),
            assoc_keys_distinct(entries@),
            forall|j: int| 0 <= j < i ==> (#[trigger] entries@[j]).0 != k,
        decreases entries@.len() - i,
    {
        if entries[i].0 == k {
            proof {
                lemma_assoc_find_present(entries@, k, i as int);
            }
            return Some(&entries[i].1);
        }
        i = i + 1;
    }
    proof {
        lemma_assoc_find_absent(entries@, k);
    }
    None
}

/// Two's-complement byte value of a signed 8-bit value.
pub open spec fn spec_i8_to_u8(v: i8) -> u8 {
    if v >= 0 {
        v as u8
    } else {
        (v + 0x100) as u8
    }
}

/// Signed reading of a byte value.
pub open spec fn spec_u8_to_i8(v: u8) -> i8 {
    if v < 0x80 {
        v as i8
    } else {
        (v - 0x100) as i8
    }
}

/// Two's-complement 16-bit pattern of a signed 16-bit value.
pub open spec fn spec_i16_to_u16(v: i16) -> u16 {
    if v >= 0 {
        v as u16
    } else {
        (v + 0x1_0000) as u16
    }
}

/// Signed reading of a 16-bit pattern.
pub open spec fn spec_u16_to_i16(v: u16) -> i16 {
    if v < 0x8000 {
        v as i16
    } else {
        (v - 0x1_0000) as i16
    }
}

/// Two's-complement 32-bit pattern of a signed 32-bit value.
pub open spec fn spec_i32_to_u32(v: i32) -> u32 {
    if v >= 0 {
        v as u32
    } else {
        (v + 0x1_0000_0000) as u32
    }
}

/// Signed reading of a 32-bit pattern.
pub open spec fn spec_u32_to_i32(v: u32) -> i32 {
    if v < 0x8000_0000 {
        v as i32
    } else {
        (v - 0x1_0000_0000) as i32
    }
}

/// Two's-complement 64-bit pattern of a signed 64-bit value.
pub open spec fn spec_i64_to_u64(v: i64) -> u64 {
    if v >= 0 {
        v as u64
    } else {
        (v + 0x1_0000_0000_0000_0000) as u64
    }
}

/// Signed reading of a 64-bit pattern.
pub open spec fn spec_u64_to_i64(v: u64) -> i64 {
    if v < 0x8000_0000_0000_0000 {
        v as i64
    } else {
        (v - 0x1_0000_0000_0000_0000) as i64
    }
}

/// Two's-complement pattern of a signed 8-bit value.
pub fn i8_to_u8(v: i8) -> (r: u8)
    ensures
        r == spec_i8_to_u8(v),
{
    if v >= 0 {
        v as u8
    } else {
        ((v as i16) + 0x100) as u8
    }
}

/// Signed reading of a byte value.
pub fn u8_to_i8(v: u8) -> (r: i8)
    ensures
        r == spec_u8_to_i8(v),
{
    if v < 0x80 {
        v as i8
    } else {
        ((v as i16) - 0x100) as i8
    }
}

/// Two's-complement pattern of a signed 16-bit value.
pub fn i16_to_u16(v: i16) -> (r: u16)
    ensures
        r == spec_i16_to_u16(v),
{
    if v >= 0 {
        v as u16
    } else {
        ((v as i32) + 0x1_0000) as u16
    }
}

/// Signed reading of a 16-bit pattern.
pub fn u16_to_i16(v: u16) -> (r: i16)
    ensures
        r == spec_u16_to_i16(v),
{
    if v < 0x8000 {
        v as i16
    } else {
        ((v as i32) - 0x1_0000) as i16
    }
}

/// Two's-complement pattern of a signed 32-bit value.
pub fn i32_to_u32(v: i32) -> (r: u32)
    ensures
        r == spec_i32_to_u32(v),
{
    if v >= 0 {
        v as u32
    } else {
        ((v as i64) + 0x1_0000_0000) as u32
    }
}

/// Signed reading of a 32-bit pattern.
pub fn u32_to_i32(v: u32) -> (r: i32)
    ensures
        r == spec_u32_to_i32(v),
{
    if v < 0x8000_0000 {
        v as i32
    } else {
        ((v as i64) - 0x1_0000_0000) as i32
    }
}

/// Two's-complement pattern of a signed 64-bit value.
pub fn i64_to_u64(v: i64) -> (r: u64)
    ensures
        r == spec_i64_to_u64(v),
{
    if v >= 0 {
        v as u64
    } else {
        ((v as i128) + 0x1_0000_0000_0000_0000) as u64
    }
}

/// Signed reading of a 64-bit pattern.
pub fn u64_to_i64(v: u64) -> (r: i64)
    ensures
        r == spec_u64_to_i64(v),
{
    if v < 0x8000_0000_0000_0000 {
        v as i64
    } else {
        ((v as i128) - 0x1_0000_0000_0000_0000) as i64
    }
}

/// The position of the entry holding key `k`, if any.
fn assoc_position<V>(entries: &Vec<(u32, V)>, k: u32) -> (r: Option<usize>)
    ensures
        match r {
            Some(i) => i < entries@.len() && entries@[i as int].0 == k,
            None => forall|j: int| 0 <= j < entries@.len() ==> (#[trigger] entries@[j]).0 != k,
        },
{
    let mut i: usize = 0;
    while i < entries.len()
        invariant
            i <= entries@.len(),
            forall|j: int| 0 <= j < i ==> (#[trigger] entries@[j]).0 != k,
        decreases entries@.len() - i,
    {
        if entries[i].0 == k {
            return Some(i);
        }
        i = i + 1;
    }
    None
}

/// Store a value under a key: overwrite the existing entry or append a
/// fresh one. Keys stay distinct.
fn assoc_set<V>(entries: &mut Vec<(u32, V)>, k: u32, v: V)
    requires
        assoc_keys_distinct(old(entries)@),
    ensures
        assoc_keys_distinct(final(entries)@),
        forall|k2: u32|
            assoc_find(final(entries)@, k2) == if k2 == k {
                Some(v)
            } else {
                assoc_find(old(entries)@, k2)
            },
{
    let ghost orig = entries@;
    let ghost vsnap = v;
    match assoc_position(entries, k) {
        Some(i) => {
            proof {
                assert forall|j: int|
                    0 <= j < orig.len() && j != i as int implies (#[trigger] orig[j]).0 != k by {
                    if i < j {
                        assert(orig[i as int].0 != orig[j].0);
                    }
                }
            }
            entries[i] = (k, v);
            proof {
                assert(entries@ == orig.update(i as int, (k, vsnap)));
                assert forall|k2: u32| true implies assoc_find(entries@, k2) == (if k2 == k {
                    Some(vsnap)
                } else {
                    assoc_find(orig, k2)
                }) by {
                    lemma_assoc_find_update(orig, i as int, k, vsnap, k2);
                }
            }
        },
        None => {
            proof {
                lemma_assoc_find_absent(entries@, k);
            }
            entries.push((k, v));
            proof {
                assert forall|k2: u32| true implies assoc_find(entries@, k2) == (if k2 == k {
                    Some(vsnap)
                } else {
                    assoc_find(orig, k2)
                }) by {
                    lemma_assoc_find_push(orig, k, vsnap, k2);
                }
            }
        },
    }
}

/// Copy a vector of plain values element by element.
fn copy_vec<T: Copy>(v: &Vec<T>) -> (r: Vec<T>)
    ensures
        r@ == v@,
{
    let mut r: Vec<T> = Vec::new();
    let mut i: usize = 0;
    while i < v.len()
        invariant
            i <= v@.len(),
            r@.len() == i,
            forall|k: int| 0 <= k < i ==> r@[k] == v@[k],
        decreases v@.len() - i,
    {
        r.push(v[i]);
        i = i + 1;
    }
    proof {
        assert(r@ =~= v@);
    }
    r
}

/// The mathematical content of a backing descriptor: the fixed-size byte
/// block, and one payload map per variable-length kind, each keyed by the
/// owning field's inline cell offset.
#[verifier::ext_equal]
pub struct DataView {
    /// The fixed-size block the planned field offsets address.
    pub bytes: Seq<u8>,
    /// Text payloads.
    pub texts: Map<u32, Seq<char>>,
    /// Byte-list payloads.
    pub byte_lists: Map<u32, Seq<u8>>,
    /// Word-list payloads, shared by 64-bit scalar and handle lists.
    pub word_lists: Map<u32, Seq<u64>>,
}

/// The backing descriptor a record's raw handle addresses: authoritative
/// storage for all declared fields of one component instance.
pub struct ComponentData {
    bytes: Vec<u8>,
    texts: Vec<(u32, String)>,
    byte_lists: Vec<(u32, Vec<u8>)>,
    word_lists: Vec<(u32, Vec<u64>)>,
}

impl View for ComponentData {
    type V = DataView;

    closed spec fn view(&self) -> DataView {
        DataView {
            bytes: self.bytes@,
            texts: Map::new(
                |k: u32| assoc_find(self.texts@, k) is Some,
                |k: u32| assoc_find(self.texts@, k)->Some_0@,
            ),
            byte_lists: Map::new(
                |k: u32| assoc_find(self.byte_lists@, k) is Some,
                |k: u32| assoc_find(self.byte_lists@, k)->Some_0@,
            ),
            word_lists: Map::new(
                |k: u32| assoc_find(self.word_lists@, k) is Some,
                |k: u32| assoc_find(self.word_lists@, k)->Some_0@,
            ),
        }
    }
}

impl ComponentData {
    /// Internal discipline of the payload stores: each offset owns at most
    /// one payload per kind.
    pub closed spec fn inv(&self) -> bool {
        &&& assoc_keys_distinct(self.texts@)
        &&& assoc_keys_distinct(self.byte_lists@)
        &&& assoc_keys_distinct(self.word_lists@)
    }

    /// A fresh descriptor for a block of `size_bytes` bytes: all bytes
    /// zero, no payloads.
    pub fn new(size_bytes: u32) -> (d: ComponentData)
        ensures
            d.inv(),
            d@.bytes.len() == size_bytes,
            forall|i: int| 0 <= i < size_bytes ==> d@.bytes[i] == 0u8,
            d@.texts == Map::<u32, Seq<char>>::empty(),
            d@.byte_lists == Map::<u32, Seq<u8>>::empty(),
            d@.word_lists == Map::<u32, Seq<u64>>::empty(),
    {
        let d = ComponentData {
            bytes: vec![0u8; size_bytes as usize],
            texts: Vec::new(),
            byte_lists: Vec::new(),
            word_lists: Vec::new(),
        };
        proof {
            assert(d@.texts =~= Map::<u32, Seq<char>>::empty());
            assert(d@.byte_lists =~= Map::<u32, Seq<u8>>::empty());
            assert(d@.word_lists =~= Map::<u32, Seq<u64>>::empty());
        }
        d
    }

    /// Length of the fixed-size block.
    pub fn size(&self) -> (n: usize)
        ensures
            n == self@.bytes.len(),
    {
        self.bytes.len()
    }

    /// Read the byte at `offset`.
    pub fn get_member_u8(&self, offset: u32) -> (v: u8)
        requires
            offset + 1 <= self@.bytes.len(),
        ensures
            v == self@.bytes[offset as int],
    {
        self.bytes[offset as usize]
    }

    /// Write the byte at `offset`.
    pub fn set_member_u8(&mut self, offset: u32, value: u8)
        requires
            old(self).inv(),
            offset + 1 <= old(self)@.bytes.len(),
        ensures
            final(self).inv(),
            final(self)@ == (DataView {
                bytes: spec_splice(old(self)@.bytes, offset as int, seq![value]),
                ..old(self)@
            }),
    {
        self.bytes[offset as usize] = value;
        proof {
            assert forall|i: int| 0 <= i < self@.bytes.len() implies self@.bytes[i] == spec_splice(
                old(self)@.bytes,
                offset as int,
                seq![value],
            )[i] by {
                lemma_splice_index(old(self)@.bytes, offset as int, seq![value], i);
            }
            assert(self@ =~= (DataView {
                bytes: spec_splice(old(self)@.bytes, offset as int, seq![value]),
                ..old(self)@
            }));
        }
    }

    /// Read the 16-bit value stored little endian at `offset`.
    pub fn get_member_u16(&self, offset: u32) -> (v: u16)
        requires
            offset + 2 <= self@.bytes.len(),
        ensures
            v == spec_le2_at(self@.bytes, offset as int),
    {
        proof {
            vstd::std_specs::vec::axiom_spec_len(&self.bytes);
        }
        let b0 = self.bytes[offset as usize] as u16;
        let b1 = self.bytes[offset as usize + 1] as u16;
        b0 + b1 * 0x100
    }

    /// Write the 16-bit value little endian at `offset`.
    pub fn set_member_u16(&mut self, offset: u32, value: u16)
        requires
            old(self).inv(),
            offset + 2 <= old(self)@.bytes.len(),
        ensures
            final(self).inv(),
            final(self)@ == (DataView {
                bytes: spec_splice(old(self)@.bytes, offset as int, spec_le2_of(value)),
                ..old(self)@
            }),
    {
        proof {
            vstd::std_specs::vec::axiom_spec_len(&self.bytes);
        }
        self.bytes[offset as usize] = (value % 0x100) as u8;
        self.bytes[offset as usize + 1] = ((value / 0x100) % 0x100) as u8;
        proof {
            assert forall|i: int| 0 <= i < self@.bytes.len() implies self@.bytes[i] == spec_splice(
                old(self)@.bytes,
                offset as int,
                spec_le2_of(value),
            )[i] by {
                lemma_splice_index(old(self)@.bytes, offset as int, spec_le2_of(value), i);
            }
            assert(self@ =~= (DataView {
                bytes: spec_splice(old(self)@.bytes, offset as int, spec_le2_of(value)),
                ..old(self)@
            }));
        }
    }

    /// Read the 32-bit value stored little endian at `offset`.
    pub fn get_member_u32(&self, offset: u32) -> (v: u32)
        requires
            offset + 4 <= self@.bytes.len(),
        ensures
            v == spec_le4_at(self@.bytes, offset as int),
    {
        proof {
            vstd::std_specs::vec::axiom_spec_len(&self.bytes);
        }
        let b0 = self.bytes[offset as usize] as u32;
        let b1 = self.bytes[offset as usize + 1] as u32;
        let b2 = self.bytes[offset as usize + 2] as u32;
        let b3 = self.bytes[offset as usize + 3] as u32;
        b0 + b1 * 0x100 + b2 * 0x1_0000 + b3 * 0x100_0000
    }

    /// Write the 32-bit value little endian at `offset`.
    pub fn set_member_u32(&mut self, offset: u32, value: u32)
        requires
            old(self).inv(),
            offset + 4 <= old(self)@.bytes.len(),
        ensures
            final(self).inv(),
            final(self)@ == (DataView {
                bytes: spec_splice(old(self)@.bytes, offset as int, spec_le4_of(value)),
                ..old(self)@
            }),
    {
        proof {
            vstd::std_specs::vec::axiom_spec_len(&self.bytes);
        }
        self.bytes[offset as usize] = (value % 0x100) as u8;
        self.bytes[offset as usize + 1] = ((value / 0x100) % 0x100) as u8;
        self.bytes[offset as usize + 2] = ((value / 0x1_0000) % 0x100) as u8;
        self.bytes[offset as usize + 3] = ((value / 0x100_0000) % 0x100) as u8;
        proof {
            assert forall|i: int| 0 <= i < self@.bytes.len() implies self@.bytes[i] == spec_splice(
                old(self)@.bytes,
                offset as int,
                spec_le4_of(value),
            )[i] by {
                lemma_splice_index(old(self)@.bytes, offset as int, spec_le4_of(value), i);
            }
            assert(self@ =~= (DataView {
                bytes: spec_splice(old(self)@.bytes, offset as int, spec_le4_of(value)),
                ..old(self)@
            }));
        }
    }

    /// Read the 64-bit value stored little endian at `offset`.
    pub fn get_member_u64(&self, offset: u32) -> (v: u64)
        requires
            offset + 8 <= self@.bytes.len(),
        ensures
            v == spec_le8_at(self@.bytes, offset as int),
    {
        proof {
            vstd::std_specs::vec::axiom_spec_len(&self.bytes);
        }
        let b0 = self.bytes[offset as usize] as u64;
        let b1 = self.bytes[offset as usize + 1] as u64;
        let b2 = self.bytes[offset as usize + 2] as u64;
        let b3 = self.bytes[offset as usize + 3] as u64;
        let b4 = self.bytes[offset as usize + 4] as u64;
        let b5 = self.bytes[offset as usize + 5] as u64;
        let b6 = self.bytes[offset as usize + 6] as u64;
        let b7 = self.bytes[offset as usize + 7] as u64;
        b0 + b1 * 0x100 + b2 * 0x1_0000 + b3 * 0x100_0000 + b4 * 0x1_0000_0000 + b5
            * 0x100_0000_0000 + b6 * 0x1_0000_0000_0000 + b7 * 0x100_0000_0000_0000
    }

    /// Write the 64-bit value little endian at `offset`.
    pub fn set_member_u64(&mut self, offset: u32, value: u64)
        requires
            old(self).inv(),
            offset + 8 <= old(self)@.bytes.len(),
        ensures
            final(self).inv(),
            final(self)@ == (DataView {
                bytes: spec_splice(old(self)@.bytes, offset as int, spec_le8_of(value)),
                ..old(self)@
            }),
    {
        proof {
            vstd::std_specs::vec::axiom_spec_len(&self.bytes);
        }
        self.bytes[offset as usize] = (value % 0x100) as u8;
        self.bytes[offset as usize + 1] = ((value / 0x100) % 0x100) as u8;
        self.bytes[offset as usize + 2] = ((value / 0x1_0000) % 0x100) as u8;
        self.bytes[offset as usize + 3] = ((value / 0x100_0000) % 0x100) as u8;
        self.bytes[offset as usize + 4] = ((value / 0x1_0000_0000) % 0x100) as u8;
        self.bytes[offset as usize + 5] = ((value / 0x100_0000_0000) % 0x100) as u8;
        self.bytes[offset as usize + 6] = ((value / 0x1_0000_0000_0000) % 0x100) as u8;
        self.bytes[offset as usize + 7] = ((value / 0x100_0000_0000_0000) % 0x100) as u8;
        proof {
            assert forall|i: int| 0 <= i < self@.bytes.len() implies self@.bytes[i] == spec_splice(
                old(self)@.bytes,
                offset as int,
                spec_le8_of(value),
            )[i] by {
                lemma_splice_index(old(self)@.bytes, offset as int, spec_le8_of(value), i);
            }
            assert(self@ =~= (DataView {
                bytes: spec_splice(old(self)@.bytes, offset as int, spec_le8_of(value)),
                ..old(self)@
            }));
        }
    }

    /// Read the signed byte at `offset`.
    pub fn get_member_i8(&self, offset: u32) -> (v: i8)
        requires
            offset + 1 <= self@.bytes.len(),
        ensures
            v == spec_u8_to_i8(self@.bytes[offset as int]),
    {
        u8_to_i8(self.get_member_u8(offset))
    }

    /// Write the signed byte at `offset`, as its two's-complement pattern.
    pub fn set_member_i8(&mut self, offset: u32, value: i8)
        requires
            old(self).inv(),
            offset + 1 <= old(self)@.bytes.len(),
        ensures
            final(self).inv(),
            final(self)@ == (DataView {
                bytes: spec_splice(old(self)@.bytes, offset as int, seq![spec_i8_to_u8(value)]),
                ..old(self)@
            }),
    {
        self.set_member_u8(offset, i8_to_u8(value));
    }

    /// Read the signed 16-bit value stored little endian at `offset`.
    pub fn get_member_i16(&self, offset: u32) -> (v: i16)
        requires
            offset + 2 <= self@.bytes.len(),
        ensures
            v == spec_u16_to_i16(spec_le2_at(self@.bytes, offset as int)),
    {
        u16_to_i16(self.get_member_u16(offset))
    }

    /// Write the signed 16-bit value little endian at `offset`.
    pub fn set_member_i16(&mut self, offset: u32, value: i16)
        requires
            old(self).inv(),
            offset + 2 <= old(self)@.bytes.len(),
        ensures
            final(self).inv(),
            final(self)@ == (DataView {
                bytes: spec_splice(
                    old(self)@.bytes,
                    offset as int,
                    spec_le2_of(spec_i16_to_u16(value)),
                ),
                ..old(self)@
            }),
    {
        self.set_member_u16(offset, i16_to_u16(value));
    }

    /// Read the signed 32-bit value stored little endian at `offset`.
    pub fn get_member_i32(&self, offset: u32) -> (v: i32)
        requires
            offset + 4 <= self@.bytes.len(),
        ensures
            v == spec_u32_to_i32(spec_le4_at(self@.bytes, offset as int)),
    {
        u32_to_i32(self.get_member_u32(offset))
    }

    /// Write the signed 32-bit value little endian at `offset`.
    pub fn set_member_i32(&mut self, offset: u32, value: i32)
        requires
            old(self).inv(),
            offset + 4 <= old(self)@.bytes.len(),
        ensures
            final(self).inv(),
            final(self)@ == (DataView {
                bytes: spec_splice(
                    old(self)@.bytes,
                    offset as int,
                    spec_le4_of(spec_i32_to_u32(value)),
                ),
                ..old(self)@
            }),
    {
        self.set_member_u32(offset, i32_to_u32(value));
    }

    /// Read the signed 64-bit value stored little endian at `offset`.
    pub fn get_member_i64(&self, offset: u32) -> (v: i64)
        requires
            offset + 8 <= self@.bytes.len(),
        ensures
            v == spec_u64_to_i64(spec_le8_at(self@.bytes, offset as int)),
    {
        u64_to_i64(self.get_member_u64(offset))
    }

    /// Write the signed 64-bit value little endian at `offset`.
    pub fn set_member_i64(&mut self, offset: u32, value: i64)
        requires
            old(self).inv(),
            offset + 8 <= old(self)@.bytes.len(),
        ensures
            final(self).inv(),
            final(self)@ == (DataView {
                bytes: spec_splice(
                    old(self)@.bytes,
                    offset as int,
                    spec_le8_of(spec_i64_to_u64(value)),
                ),
                ..old(self)@
            }),
    {
        self.set_member_u64(offset, i64_to_u64(value));
    }

    /// Read the 32-bit pattern of a 32-bit float field at `offset`.
    pub fn get_member_f32_bits(&self, offset: u32) -> (v: u32)
        requires
            offset + 4 <= self@.bytes.len(),
        ensures
            v == spec_le4_at(self@.bytes, offset as int),
    {
        self.get_member_u32(offset)
    }

    /// Write the 32-bit pattern of a 32-bit float field at `offset`.
    pub fn set_member_f32_bits(&mut self, offset: u32, value: u32)
        requires
            old(self).inv(),
            offset + 4 <= old(self)@.bytes.len(),
        ensures
            final(self).inv(),
            final(self)@ == (DataView {
                bytes: spec_splice(old(self)@.bytes, offset as int, spec_le4_of(value)),
                ..old(self)@
            }),
    {
        self.set_member_u32(offset, value);
    }

    /// Read the 64-bit pattern of a 64-bit float field at `offset`.
    pub fn get_member_f64_bits(&self, offset: u32) -> (v: u64)
        requires
            offset + 8 <= self@.bytes.len(),
        ensures
            v == spec_le8_at(self@.bytes, offset as int),
    {
        self.get_member_u64(offset)
    }

    /// Write the 64-bit pattern of a 64-bit float field at `offset`.
    pub fn set_member_f64_bits(&mut self, offset: u32, value: u64)
        requires
            old(self).inv(),
            offset + 8 <= old(self)@.bytes.len(),
        ensures
            final(self).inv(),
            final(self)@ == (DataView {
                bytes: spec_splice(old(self)@.bytes, offset as int, spec_le8_of(value)),
                ..old(self)@
            }),
    {
        self.set_member_u64(offset, value);
    }

    /// Read the boolean at `offset`: any nonzero byte reads as true.
    pub fn get_member_bool(&self, offset: u32) -> (v: bool)
        requires
            offset + 1 <= self@.bytes.len(),
        ensures
            v == (self@.bytes[offset as int] != 0),
    {
        self.get_member_u8(offset) != 0
    }

    /// Write the boolean at `offset` as one byte, 1 for true and 0 for
    /// false.
    pub fn set_member_bool(&mut self, offset: u32, value: bool)
        requires
            old(self).inv(),
            offset + 1 <= old(self)@.bytes.len(),
        ensures
            final(self).inv(),
            final(self)@ == (DataView {
                bytes: spec_splice(
                    old(self)@.bytes,
                    offset as int,
                    seq![if value { 1u8 } else { 0u8 }],
                ),
                ..old(self)@
            }),
    {
        self.set_member_u8(offset, if value { 1 } else { 0 });
    }

    /// Read the text payload of the field whose inline cell sits at
    /// `offset`; an unset field reads as the empty string.
    pub fn get_member_string(&self, offset: u32) -> (value: String)
        requires
            self.inv(),
        ensures
            value@ == if self@.texts.contains_key(offset) {
                self@.texts[offset]
            } else {
                Seq::<char>::empty()
            },
    {
        match assoc_get(&self.texts, offset) {
            Some(s) => s.clone(),
            None => String::new(),
        }
    }

    /// Move a text payload into the field whose inline cell sits at
    /// `offset`; the descriptor takes ownership.
    pub fn set_member_string(&mut self, offset: u32, value: String)
        requires
            old(self).inv(),
        ensures
            final(self).inv(),
            final(self)@ == (DataView {
                texts: old(self)@.texts.insert(offset, value@),
                ..old(self)@
            }),
    {
        let ghost vsnap = value@;
        assoc_set(&mut self.texts, offset, value);
        proof {
            assert(self@.texts =~= old(self)@.texts.insert(offset, vsnap));
            assert(self@ =~= (DataView { texts: old(self)@.texts.insert(offset, vsnap), ..old(self)@ }));
        }
    }

    /// Read the byte-list payload of the field whose inline cell sits at
    /// `offset`; an unset field reads as the empty list.
    pub fn get_member_u8list(&self, offset: u32) -> (value: Vec<u8>)
        requires
            self.inv(),
        ensures
            value@ == if self@.byte_lists.contains_key(offset) {
                self@.byte_lists[offset]
            } else {
                Seq::<u8>::empty()
            },
    {
        match assoc_get(&self.byte_lists, offset) {
            Some(l) => copy_vec(l),
            None => Vec::new(),
        }
    }

    /// Move a byte-list payload into the field whose inline cell sits at
    /// `offset`.
    pub fn set_member_u8list(&mut self, offset: u32, value: Vec<u8>)
        requires
            old(self).inv(),
        ensures
            final(self).inv(),
            final(self)@ == (DataView {
                byte_lists: old(self)@.byte_lists.insert(offset, value@),
                ..old(self)@
            }),
    {
        let ghost vsnap = value@;
        assoc_set(&mut self.byte_lists, offset, value);
        proof {
            assert(self@.byte_lists =~= old(self)@.byte_lists.insert(offset, vsnap));
            assert(self@ =~= (DataView {
                byte_lists: old(self)@.byte_lists.insert(offset, vsnap),
                ..old(self)@
            }));
        }
    }

    /// Read the word-list payload of the field whose inline cell sits at
    /// `offset`; an unset field reads as the empty list.
    pub fn get_member_u64list(&self, offset: u32) -> (value: Vec<u64>)
        requires
            self.inv(),
        ensures
            value@ == if self@.word_lists.contains_key(offset) {
                self@.word_lists[offset]
            } else {
                Seq::<u64>::empty()
            },
    {
        match assoc_get(&self.word_lists, offset) {
            Some(l) => copy_vec(l),
            None => Vec::new(),
        }
    }

    /// Move a word-list payload into the field whose inline cell sits at
    /// `offset`.
    pub fn set_member_u64list(&mut self, offset: u32, value: Vec<u64>)
        requires
            old(self).inv(),
        ensures
            final(self).inv(),
            final(self)@ == (DataView {
                word_lists: old(self)@.word_lists.insert(offset, value@),
                ..old(self)@
            }),
    {
        let ghost vsnap = value@;
        assoc_set(&mut self.word_lists, offset, value);
        proof {
            assert(self@.word_lists =~= old(self)@.word_lists.insert(offset, vsnap));
            assert(self@ =~= (DataView {
                word_lists: old(self)@.word_lists.insert(offset, vsnap),
                ..old(self)@
            }));
        }
    }
}

} // verus!
