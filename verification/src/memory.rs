//! Flat byte-addressable RAM backing the simulated DRAM.
//!
//! The memory is a pure store: the bus checks that an offset lies inside the
//! loaded image before calling in, so no method here re-checks bounds.
//! Multi-byte values decompose and recompose least-significant-byte-first at
//! ascending offsets; the `le*_at` and `store*_at` spec functions below define
//! that persisted word format once, and every contract speaks through them.

use vstd::prelude::*;

verus! {

/// Little-endian value of the two bytes of `s` starting at `i`.
pub open spec fn le16_at(s: Seq<u8>, i: int) -> int {
    s[i] + 0x100 * s[i + 1]
}

/// Little-endian value of the four bytes of `s` starting at `i`.
pub open spec fn le32_at(s: Seq<u8>, i: int) -> int {
    s[i] + 0x100 * s[i + 1] + 0x1_0000 * s[i + 2] + 0x100_0000 * s[i + 3]
}

/// Little-endian value of the eight bytes of `s` starting at `i`.
pub open spec fn le64_at(s: Seq<u8>, i: int) -> int {
    s[i] + 0x100 * s[i + 1] + 0x1_0000 * s[i + 2] + 0x100_0000 * s[i + 3]
        + 0x1_0000_0000 * s[i + 4] + 0x100_0000_0000 * s[i + 5]
        + 0x1_0000_0000_0000 * s[i + 6] + 0x100_0000_0000_0000 * s[i + 7]
}

/// `s` with the two bytes of `v` stored little-endian at `i`.
pub open spec fn store16_at(s: Seq<u8>, i: int, v: u16) -> Seq<u8> {
    s.update(i, v as u8).update(i + 1, (v >> 8) as u8)
}

/// `s` with the four bytes of `v` stored little-endian at `i`.
pub open spec fn store32_at(s: Seq<u8>, i: int, v: u32) -> Seq<u8> {
    s.update(i, v as u8).update(i + 1, (v >> 8) as u8).update(i + 2, (v >> 16) as u8).update(
        i + 3,
        (v >> 24) as u8,
    )
}

/// `s` with the eight bytes of `v` stored little-endian at `i`.
pub open spec fn store64_at(s: Seq<u8>, i: int, v: u64) -> Seq<u8> {
    s.update(i, v as u8).update(i + 1, (v >> 8) as u8).update(i + 2, (v >> 16) as u8).update(
        i + 3,
        (v >> 24) as u8,
    ).update(i + 4, (v >> 32) as u8).update(i + 5, (v >> 40) as u8).update(
        i + 6,
        (v >> 48) as u8,
    ).update(i + 7, (v >> 56) as u8)
}

/// Flat RAM sized at image-load time; indexed by `addr - DRAM_BASE`.
pub struct Memory {
    /// The backing store, replaced wholesale when an image is loaded.
    pub bytes: Vec<u8>,
}

impl Memory {
    /// An empty memory: no image has been loaded yet.
    pub fn new() -> (r: Memory)
        ensures
            r.bytes@.len() == 0,
    {
        Memory { bytes: Vec::new() }
    }

    /// Number of bytes of the loaded image.
    pub fn size(&self) -> (r: usize)
        ensures
            r == self.bytes@.len(),
    {
        self.bytes.len()
    }

    /// Replace the backing store wholesale with `data` (used once, at load).
    pub fn set_dram(&mut self, data: Vec<u8>)
        ensures
            final (self).bytes@ == data@,
    {
        self.bytes = data;
    }

    /// Read the byte at `offset`.
    pub fn read8(&self, offset: usize) -> (r: u8)
        requires
            offset < self.bytes@.len(),
        ensures
            r == self.bytes@[offset as int],
    {
        self.bytes[offset]
    }

    /// Read two bytes at `offset`, little-endian.
    pub fn read16(&self, offset: usize) -> (r: u16)
        requires
            offset + 2 <= self.bytes@.len(),
        ensures
            r as int == le16_at(self.bytes@, offset as int),
    {
        let _n = self.bytes.len();
        let b0 = self.bytes[offset] as u16;
        let b1 = self.bytes[offset + 1] as u16;
        b0 + b1 * 0x100
    }

    /// Read four bytes at `offset`, little-endian.
    pub fn read32(&self, offset: usize) -> (r: u32)
        requires
            offset + 4 <= self.bytes@.len(),
        ensures
            r as int == le32_at(self.bytes@, offset as int),
    {
        let _n = self.bytes.len();
        let b0 = self.bytes[offset] as u32;
        let b1 = self.bytes[offset + 1] as u32;
        let b2 = self.bytes[offset + 2] as u32;
        let b3 = self.bytes[offset + 3] as u32;
        b0 + b1 * 0x100 + b2 * 0x1_0000 + b3 * 0x100_0000
    }

    /// Read eight bytes at `offset`, little-endian.
    pub fn read64(&self, offset: usize) -> (r: u64)
        requires
            offset + 8 <= self.bytes@.len(),
        ensures
            r as int == le64_at(self.bytes@, offset as int),
    {
        let _n = self.bytes.len();
        let b0 = self.bytes[offset] as u64;
        let b1 = self.bytes[offset + 1] as u64;
        let b2 = self.bytes[offset + 2] as u64;
        let b3 = self.bytes[offset + 3] as u64;
        let b4 = self.bytes[offset + 4] as u64;
        let b5 = self.bytes[offset + 5] as u64;
        let b6 = self.bytes[offset + 6] as u64;
        let b7 = self.bytes[offset + 7] as u64;
        b0 + b1 * 0x100 + b2 * 0x1_0000 + b3 * 0x100_0000 + b4 * 0x1_0000_0000 + b5
            * 0x100_0000_0000 + b6 * 0x1_0000_0000_0000 + b7 * 0x100_0000_0000_0000
    }

    /// Store a byte at `offset`.
    pub fn write8(&mut self, offset: usize, val: u8)
        requires
            offset < old(self).bytes@.len(),
        ensures
            final (self).bytes@ == old(self).bytes@.update(offset as int, val),
    {
        self.bytes[offset] = val;
    }

    /// Store two bytes at `offset`, little-endian.
    pub fn write16(&mut self, offset: usize, val: u16)
        requires
            offset + 2 <= old(self).bytes@.len(),
        ensures
            final (self).bytes@ == store16_at(old(self).bytes@, offset as int, val),
    {
        let _n = self.bytes.len();
        self.bytes[offset] = #[verifier::truncate] (val as u8);
        self.bytes[offset + 1] = #[verifier::truncate] ((val >> 8) as u8);
    }

    /// Store four bytes at `offset`, little-endian.
    pub fn write32(&mut self, offset: usize, val: u32)
        requires
            offset + 4 <= old(self).bytes@.len(),
        ensures
            final (self).bytes@ == store32_at(old(self).bytes@, offset as int, val),
    {
        let _n = self.bytes.len();
        self.bytes[offset] = #[verifier::truncate] (val as u8);
        self.bytes[offset + 1] = #[verifier::truncate] ((val >> 8) as u8);
        self.bytes[offset + 2] = #[verifier::truncate] ((val >> 16) as u8);
        self.bytes[offset + 3] = #[verifier::truncate] ((val >> 24) as u8);
    }

    /// Store eight bytes at `offset`, little-endian.
    pub fn write64(&mut self, offset: usize, val: u64)
        requires
            offset + 8 <= old(self).bytes@.len(),
        ensures
            final (self).bytes@ == store64_at(old(self).bytes@, offset as int, val),
    {
        let _n = self.bytes.len();
        self.bytes[offset] = #[verifier::truncate] (val as u8);
        self.bytes[offset + 1] = #[verifier::truncate] ((val >> 8) as u8);
        self.bytes[offset + 2] = #[verifier::truncate] ((val >> 16) as u8);
        self.bytes[offset + 3] = #[verifier::truncate] ((val >> 24) as u8);
        self.bytes[offset + 4] = #[verifier::truncate] ((val >> 32) as u8);
        self.bytes[offset + 5] = #[verifier::truncate] ((val >> 40) as u8);
        self.bytes[offset + 6] = #[verifier::truncate] ((val >> 48) as u8);
        self.bytes[offset + 7] = #[verifier::truncate] ((val >> 56) as u8);
    }
}

/// Round trip at width 8: a stored byte reads back unchanged.
pub proof fn lemma_store8_round_trip(s: Seq<u8>, i: int, v: u8)
    requires
        0 <= i < s.len(),
    ensures
        s.update(i, v)[i] == v,
{
}

/// Round trip at width 16: a little-endian store followed by a little-endian
/// load of the same width at the same offset yields the stored value.
pub proof fn lemma_store16_round_trip(s: Seq<u8>, i: int, v: u16)
    requires
        0 <= i,
        i + 2 <= s.len(),
    ensures
        le16_at(store16_at(s, i, v), i) == v,
{
    assert((v as u8) + 0x100 * ((v >> 8) as u8) == v) by (bit_vector);
}

/// Round trip at width 32.
pub proof fn lemma_store32_round_trip(s: Seq<u8>, i: int, v: u32)
    requires
        0 <= i,
        i + 4 <= s.len(),
    ensures
        le32_at(store32_at(s, i, v), i) == v,
{
    assert((v as u8) + 0x100 * ((v >> 8) as u8) + 0x1_0000 * ((v >> 16) as u8) + 0x100_0000 * ((v
        >> 24) as u8) == v) by (bit_vector);
}

/// Round trip at width 64.
pub proof fn lemma_store64_round_trip(s: Seq<u8>, i: int, v: u64)
    requires
        0 <= i,
        i + 8 <= s.len(),
    ensures
        le64_at(store64_at(s, i, v), i) == v,
{
    assert((v as u8) + 0x100 * ((v >> 8) as u8) + 0x1_0000 * ((v >> 16) as u8) + 0x100_0000 * ((v
        >> 24) as u8) + 0x1_0000_0000 * ((v >> 32) as u8) + 0x100_0000_0000 * ((v >> 40) as u8)
        + 0x1_0000_0000_0000 * ((v >> 48) as u8) + 0x100_0000_0000_0000 * ((v >> 56) as u8) == v)
        by (bit_vector);
}

} // verus!
