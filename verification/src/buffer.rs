//! Views of a region of bytes that the caller owns: one that reads and one that writes
//! fixed-width little-endian integers and raw byte strings at given offsets.
//!
//! Neither view checks an offset against the region's size at run time beyond what the
//! language does: that an access lies inside the region is each function's precondition.

use crate::endian::{
    le_bytes, le_value, lemma_le_bytes_len, lemma_le_value_bound, lemma_radix_values, overwrite,
    signed_at, to_twos, unsigned_at,
};
use vstd::prelude::*;

verus! {

broadcast use vstd::slice::group_slice_axioms;

/// A read-only view of a region of bytes.
#[derive(Clone, Copy, Debug)]
pub struct ReadBuf<'a> {
    data: &'a [u8],
}

impl<'a> View for ReadBuf<'a> {
    type V = Seq<u8>;

    /// The bytes of the region.
    closed spec fn view(&self) -> Seq<u8> {
        self.data@
    }
}

impl<'a> Default for ReadBuf<'a> {
    /// A view of an empty region.
    fn default() -> (buf: Self)
        ensures
            buf@.len() == 0,
    {
        ReadBuf { data: &[] }
    }
}

impl<'a> ReadBuf<'a> {
    /// A view of `data`.
    pub fn new(data: &'a [u8]) -> (buf: Self)
        ensures
            buf@ == data@,
    {
        ReadBuf { data }
    }

    /// The size of the region.
    pub fn capacity(&self) -> (n: usize)
        ensures
            n == self@.len(),
    {
        self.data.len()
    }

    /// The size of a region is a machine number.
    pub proof fn lemma_capacity_fits(&self)
        ensures
            self@.len() <= usize::MAX,
    {
        assert(self.data@.len() == vstd::slice::spec_slice_len(self.data));
    }

    /// The unsigned number in the `width` bytes from `offset`.
    fn read_le(&self, offset: usize, width: usize) -> (value: u64)
        requires
            width <= 8,
            offset + width <= self@.len(),
        ensures
            value == unsigned_at(self@, offset as int, width as nat),
    {
        let ghost piece = self@.subrange(offset as int, offset + width);
        let mut value: u64 = 0;
        let mut i: usize = width;
        proof {
            assert(self.data@.len() == vstd::slice::spec_slice_len(self.data));
        }
        while i > 0
            invariant
                i <= width <= 8,
                offset + width <= self@.len() <= usize::MAX,
                piece == self@.subrange(offset as int, offset + width),
                value == le_value(piece.subrange(i as int, width as int)),
            decreases i,
        {
            i = i - 1;
            let byte = self.data[offset + i];
            proof {
                let higher = piece.subrange(i + 1, width as int);
                let now = piece.subrange(i as int, width as int);
                assert(now.skip(1) =~= higher);
                lemma_le_value_bound(now);
                lemma_radix_values();
            }
            value = value * 256 + byte as u64;
        }
        proof {
            assert(piece.subrange(0, width as int) =~= piece);
        }
        value
    }

    /// The `u8` at `offset`.
    pub fn get_u8_at(&self, offset: usize) -> (value: u8)
        requires
            offset + 1 <= self@.len(),
        ensures
            value == self@[offset as int],
            value == unsigned_at(self@, offset as int, 1),
    {
        let raw = self.read_le(offset, 1);
        proof {
            reveal_with_fuel(le_value, 2);
        }
        raw as u8
    }

    /// The little-endian `u16` at `offset`.
    pub fn get_u16_at(&self, offset: usize) -> (value: u16)
        requires
            offset + 2 <= self@.len(),
        ensures
            value == unsigned_at(self@, offset as int, 2),
    {
        let raw = self.read_le(offset, 2);
        proof {
            lemma_le_value_bound(self@.subrange(offset as int, offset + 2));
            lemma_radix_values();
        }
        raw as u16
    }

    /// The little-endian `u32` at `offset`.
    pub fn get_u32_at(&self, offset: usize) -> (value: u32)
        requires
            offset + 4 <= self@.len(),
        ensures
            value == unsigned_at(self@, offset as int, 4),
    {
        let raw = self.read_le(offset, 4);
        proof {
            lemma_le_value_bound(self@.subrange(offset as int, offset + 4));
            lemma_radix_values();
        }
        raw as u32
    }

    /// The little-endian `u64` at `offset`.
    pub fn get_u64_at(&self, offset: usize) -> (value: u64)
        requires
            offset + 8 <= self@.len(),
        ensures
            value == unsigned_at(self@, offset as int, 8),
    {
        self.read_le(offset, 8)
    }

    /// The `i8` at `offset`.
    pub fn get_i8_at(&self, offset: usize) -> (value: i8)
        requires
            offset + 1 <= self@.len(),
        ensures
            value == signed_at(self@, offset as int, 1),
    {
        let raw = self.read_le(offset, 1);
        proof {
            lemma_le_value_bound(self@.subrange(offset as int, offset + 1));
            lemma_radix_values();
        }
        if raw < 0x80 {
            raw as i8
        } else {
            ((raw - 0x80) as i64 - 0x80) as i8
        }
    }

    /// The little-endian `i16` at `offset`.
    pub fn get_i16_at(&self, offset: usize) -> (value: i16)
        requires
            offset + 2 <= self@.len(),
        ensures
            value == signed_at(self@, offset as int, 2),
    {
        let raw = self.read_le(offset, 2);
        proof {
            lemma_le_value_bound(self@.subrange(offset as int, offset + 2));
            lemma_radix_values();
        }
        if raw < 0x8000 {
            raw as i16
        } else {
            ((raw - 0x8000) as i64 - 0x8000) as i16
        }
    }

    /// The little-endian `i32` at `offset`.
    pub fn get_i32_at(&self, offset: usize) -> (value: i32)
        requires
            offset + 4 <= self@.len(),
        ensures
            value == signed_at(self@, offset as int, 4),
    {
        let raw = self.read_le(offset, 4);
        proof {
            lemma_le_value_bound(self@.subrange(offset as int, offset + 4));
            lemma_radix_values();
        }
        if raw < 0x8000_0000 {
            raw as i32
        } else {
            ((raw - 0x8000_0000) as i64 - 0x8000_0000) as i32
        }
    }

    /// The little-endian `i64` at `offset`.
    pub fn get_i64_at(&self, offset: usize) -> (value: i64)
        requires
            offset + 8 <= self@.len(),
        ensures
            value == signed_at(self@, offset as int, 8),
    {
        let raw = self.read_le(offset, 8);
        proof {
            lemma_radix_values();
        }
        if raw < 0x8000_0000_0000_0000 {
            raw as i64
        } else {
            (raw - 0x8000_0000_0000_0000) as i64 + i64::MIN
        }
    }

    /// The `len` bytes from `offset`, not copied.
    pub fn get_slice_at(&self, offset: usize, len: usize) -> (slice: &'a [u8])
        requires
            offset + len <= self@.len(),
        ensures
            slice@ == self@.subrange(offset as int, offset + len),
    {
        let data: &'a [u8] = self.data;
        proof {
            assert(data@.len() == vstd::slice::spec_slice_len(data));
        }
        &data[offset..offset + len]
    }
}

/// A write-only view of a region of bytes. While it lives, nothing else reaches the region.
#[derive(Debug)]
pub struct WriteBuf<'a> {
    data: &'a mut [u8],
}

impl<'a> View for WriteBuf<'a> {
    type V = Seq<u8>;

    /// The bytes of the region as they are now.
    closed spec fn view(&self) -> Seq<u8> {
        self.data@
    }
}

impl<'a> Default for WriteBuf<'a> {
    /// A view of an empty region.
    fn default() -> (buf: Self)
        ensures
            buf@.len() == 0,
    {
        WriteBuf { data: &mut [] }
    }
}

impl<'a> WriteBuf<'a> {
    /// A view of `data`.
    pub fn new(data: &'a mut [u8]) -> (buf: Self)
        ensures
            buf@ == old(data)@,
    {
        WriteBuf { data }
    }

    /// The size of a region is a machine number.
    pub proof fn lemma_capacity_fits(&self)
        ensures
            self@.len() <= usize::MAX,
    {
        assert(self.data@.len() == vstd::slice::spec_slice_len(self.data));
    }

    /// Writes the low `width` bytes of `value` from `offset` on, the lowest first.
    fn write_le(&mut self, offset: usize, width: usize, value: u64)
        requires
            width <= 8,
            offset + width <= old(self)@.len(),
        ensures
            final(self)@ == overwrite(
                old(self)@,
                offset as int,
                le_bytes(value as nat, width as nat),
            ),
    {
        let ghost before = self@;
        let ghost piece = le_bytes(value as nat, width as nat);
        let mut rest: u64 = value;
        let mut i: usize = 0;
        proof {
            assert(self.data@.len() == vstd::slice::spec_slice_len(self.data));
            lemma_le_bytes_len(value as nat, width as nat);
        }
        while i < width
            invariant
                i <= width <= 8,
                offset + width <= before.len() <= usize::MAX,
                self@.len() == before.len(),
                piece.len() == width,
                piece == piece.subrange(0, i as int) + le_bytes(rest as nat, (width - i) as nat),
                forall|k: int|
                    0 <= k < before.len() ==> self@[k] == if offset <= k < offset + i {
                        piece[k - offset]
                    } else {
                        before[k]
                    },
            decreases width - i,
        {
            proof {
                assert(piece =~= piece.subrange(0, i + 1) + le_bytes(
                    (rest / 256) as nat,
                    (width - i - 1) as nat,
                ));
            }
            self.data[offset + i] = (rest % 256) as u8;
            rest = rest / 256;
            i = i + 1;
        }
    }

    /// Writes `value` at `offset`.
    pub fn put_u8_at(&mut self, offset: usize, value: u8)
        requires
            offset + 1 <= old(self)@.len(),
        ensures
            final(self)@ == old(self)@.update(offset as int, value),
            final(self)@ == overwrite(old(self)@, offset as int, le_bytes(value as nat, 1)),
    {
        self.write_le(offset, 1, value as u64);
        proof {
            reveal_with_fuel(le_bytes, 2);
        }
    }

    /// Writes `value` at `offset`, the low byte first.
    pub fn put_u16_at(&mut self, offset: usize, value: u16)
        requires
            offset + 2 <= old(self)@.len(),
        ensures
            final(self)@ == overwrite(old(self)@, offset as int, le_bytes(value as nat, 2)),
    {
        self.write_le(offset, 2, value as u64);
    }

    /// Writes `value` at `offset`, the low byte first.
    pub fn put_u32_at(&mut self, offset: usize, value: u32)
        requires
            offset + 4 <= old(self)@.len(),
        ensures
            final(self)@ == overwrite(old(self)@, offset as int, le_bytes(value as nat, 4)),
    {
        self.write_le(offset, 4, value as u64);
    }

    /// Writes `value` at `offset`, the low byte first.
    pub fn put_u64_at(&mut self, offset: usize, value: u64)
        requires
            offset + 8 <= old(self)@.len(),
        ensures
            final(self)@ == overwrite(old(self)@, offset as int, le_bytes(value as nat, 8)),
    {
        self.write_le(offset, 8, value);
    }

    /// Writes `value` at `offset` in two's complement.
    pub fn put_i8_at(&mut self, offset: usize, value: i8)
        requires
            offset + 1 <= old(self)@.len(),
        ensures
            final(self)@ == overwrite(
                old(self)@,
                offset as int,
                le_bytes(to_twos(value as int, 1), 1),
            ),
    {
        proof {
            lemma_radix_values();
        }
        let code: u64 = if value >= 0 {
            value as u64
        } else {
            (value as i64 + 0x100) as u64
        };
        self.write_le(offset, 1, code);
    }

    /// Writes `value` at `offset` in two's complement, the low byte first.
    pub fn put_i16_at(&mut self, offset: usize, value: i16)
        requires
            offset + 2 <= old(self)@.len(),
        ensures
            final(self)@ == overwrite(
                old(self)@,
                offset as int,
                le_bytes(to_twos(value as int, 2), 2),
            ),
    {
        proof {
            lemma_radix_values();
        }
        let code: u64 = if value >= 0 {
            value as u64
        } else {
            (value as i64 + 0x1_0000) as u64
        };
        self.write_le(offset, 2, code);
    }

    /// Writes `value` at `offset` in two's complement, the low byte first.
    pub fn put_i32_at(&mut self, offset: usize, value: i32)
        requires
            offset + 4 <= old(self)@.len(),
        ensures
            final(self)@ == overwrite(
                old(self)@,
                offset as int,
                le_bytes(to_twos(value as int, 4), 4),
            ),
    {
        proof {
            lemma_radix_values();
        }
        let code: u64 = if value >= 0 {
            value as u64
        } else {
            (value as i64 + 0x1_0000_0000) as u64
        };
        self.write_le(offset, 4, code);
    }

    /// Writes `value` at `offset` in two's complement, the low byte first.
    pub fn put_i64_at(&mut self, offset: usize, value: i64)
        requires
            offset + 8 <= old(self)@.len(),
        ensures
            final(self)@ == overwrite(
                old(self)@,
                offset as int,
                le_bytes(to_twos(value as int, 8), 8),
            ),
    {
        proof {
            lemma_radix_values();
        }
        let code: u64 = if value >= 0 {
            value as u64
        } else {
            (value - i64::MIN) as u64 + 0x8000_0000_0000_0000
        };
        self.write_le(offset, 8, code);
    }

    /// Copies `src` into the region from `offset` on and returns how many bytes that was.
    pub fn put_slice_at(&mut self, offset: usize, src: &[u8]) -> (written: usize)
        requires
            offset + src@.len() <= old(self)@.len(),
        ensures
            written == src@.len(),
            final(self)@ == overwrite(old(self)@, offset as int, src@),
    {
        let ghost before = self@;
        let len = src.len();
        let mut i: usize = 0;
        proof {
            assert(self.data@.len() == vstd::slice::spec_slice_len(self.data));
        }
        while i < len
            invariant
                i <= len == src@.len(),
                offset + len <= before.len() <= usize::MAX,
                self@.len() == before.len(),
                forall|k: int|
                    0 <= k < before.len() ==> self@[k] == if offset <= k < offset + i {
                        src@[k - offset]
                    } else {
                        before[k]
                    },
            decreases len - i,
        {
            self.data[offset + i] = src[i];
            i = i + 1;
        }
        len
    }
}

} // verus!
