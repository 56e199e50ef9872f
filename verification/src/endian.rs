//! Little-endian integers as byte strings: the mathematical model that the buffer views and
//! every cursor above them are specified against.

use vstd::prelude::*;

verus! {

/// The number of values that `width` bytes can hold: 256 to the power `width`.
pub open spec fn radix(width: nat) -> nat
    decreases width,
{
    if width == 0 {
        1
    } else {
        256 * radix((width - 1) as nat)
    }
}

/// The number that a little-endian byte string stands for: its first byte counts least.
pub open spec fn le_value(bytes: Seq<u8>) -> nat
    decreases bytes.len(),
{
    if bytes.len() == 0 {
        0
    } else {
        bytes[0] as nat + 256 * le_value(bytes.skip(1))
    }
}

/// The `width` bytes that stand for `value` in little-endian order. Where `value` does not
/// fit, its higher part is left out.
pub open spec fn le_bytes(value: nat, width: nat) -> Seq<u8>
    decreases width,
{
    if width == 0 {
        Seq::empty()
    } else {
        seq![(value % 256) as u8] + le_bytes(value / 256, (width - 1) as nat)
    }
}

/// The unsigned number that stands for the signed `value` in two's complement on `width`
/// bytes.
pub open spec fn to_twos(value: int, width: nat) -> nat {
    if value >= 0 {
        value as nat
    } else {
        (value + radix(width)) as nat
    }
}

/// The signed number that the unsigned `code` stands for in two's complement on `width`
/// bytes.
pub open spec fn from_twos(code: nat, width: nat) -> int {
    if 2 * code < radix(width) {
        code as int
    } else {
        code - radix(width)
    }
}

/// `bytes` with the bytes from index `at` on replaced by `piece`; the length stays.
pub open spec fn overwrite(bytes: Seq<u8>, at: int, piece: Seq<u8>) -> Seq<u8> {
    Seq::new(
        bytes.len(),
        |i: int|
            if at <= i < at + piece.len() {
                piece[i - at]
            } else {
                bytes[i]
            },
    )
}

/// The unsigned little-endian number stored in the `width` bytes of `bytes` from index `at`.
pub open spec fn unsigned_at(bytes: Seq<u8>, at: int, width: nat) -> nat {
    le_value(bytes.subrange(at, at + width))
}

/// The signed little-endian number stored in the `width` bytes of `bytes` from index `at`.
pub open spec fn signed_at(bytes: Seq<u8>, at: int, width: nat) -> int {
    from_twos(unsigned_at(bytes, at, width), width)
}

/// The radix of each width that a fixed-width integer has.
pub proof fn lemma_radix_values()
    ensures
        radix(0) == 1,
        radix(1) == 0x100,
        radix(2) == 0x1_0000,
        radix(3) == 0x100_0000,
        radix(4) == 0x1_0000_0000,
        radix(5) == 0x100_0000_0000,
        radix(6) == 0x1_0000_0000_0000,
        radix(7) == 0x100_0000_0000_0000,
        radix(8) == 0x1_0000_0000_0000_0000,
{
    reveal_with_fuel(radix, 9);
}

/// `le_bytes` gives exactly `width` bytes.
pub proof fn lemma_le_bytes_len(value: nat, width: nat)
    ensures
        le_bytes(value, width).len() == width,
    decreases width,
{
    if width > 0 {
        lemma_le_bytes_len(value / 256, (width - 1) as nat);
    }
}

/// A byte string stands for a number below the radix of its length.
pub proof fn lemma_le_value_bound(bytes: Seq<u8>)
    ensures
        le_value(bytes) < radix(bytes.len()),
    decreases bytes.len(),
{
    if bytes.len() > 0 {
        lemma_le_value_bound(bytes.skip(1));
    }
}

/// Reading back the bytes of a number that fits gives the number.
pub proof fn lemma_le_value_of_bytes(value: nat, width: nat)
    requires
        value < radix(width),
    ensures
        le_value(le_bytes(value, width)) == value,
    decreases width,
{
    if width > 0 {
        let rest = le_bytes(value / 256, (width - 1) as nat);
        let all = le_bytes(value, width);
        lemma_le_value_of_bytes(value / 256, (width - 1) as nat);
        assert(all.skip(1) =~= rest);
    }
}

/// Writing out the number that a byte string stands for gives the byte string.
pub proof fn lemma_le_bytes_of_value(bytes: Seq<u8>)
    ensures
        le_bytes(le_value(bytes), bytes.len()) == bytes,
    decreases bytes.len(),
{
    if bytes.len() > 0 {
        lemma_le_bytes_of_value(bytes.skip(1));
    }
}

/// Two's complement on `width` bytes loses nothing of a number in the signed range.
pub proof fn lemma_twos_round_trip(value: int, width: nat)
    requires
        -(radix(width) as int) <= 2 * value < radix(width),
    ensures
        to_twos(value, width) < radix(width),
        from_twos(to_twos(value, width), width) == value,
{
}

/// What was written at a place is what is read there.
pub proof fn lemma_overwrite_same(bytes: Seq<u8>, at: int, piece: Seq<u8>)
    requires
        0 <= at,
        at + piece.len() <= bytes.len(),
    ensures
        overwrite(bytes, at, piece).len() == bytes.len(),
        overwrite(bytes, at, piece).subrange(at, at + piece.len()) == piece,
{
}

/// A write leaves every range that it does not touch as it was.
pub proof fn lemma_overwrite_other(bytes: Seq<u8>, at: int, piece: Seq<u8>, from: int, to: int)
    requires
        0 <= from <= to <= bytes.len(),
        to <= at || at + piece.len() <= from,
    ensures
        overwrite(bytes, at, piece).subrange(from, to) == bytes.subrange(from, to),
{
}

/// An unsigned number that fits its width is read back as it was written.
pub proof fn lemma_unsigned_read_back(bytes: Seq<u8>, at: int, value: nat, width: nat)
    requires
        0 <= at,
        at + width <= bytes.len(),
        value < radix(width),
    ensures
        unsigned_at(overwrite(bytes, at, le_bytes(value, width)), at, width) == value,
{
    lemma_le_bytes_len(value, width);
    lemma_overwrite_same(bytes, at, le_bytes(value, width));
    lemma_le_value_of_bytes(value, width);
}

/// A signed number in the range of its width is read back as it was written.
pub proof fn lemma_signed_read_back(bytes: Seq<u8>, at: int, value: int, width: nat)
    requires
        0 <= at,
        at + width <= bytes.len(),
        -(radix(width) as int) <= 2 * value < radix(width),
    ensures
        signed_at(overwrite(bytes, at, le_bytes(to_twos(value, width), width)), at, width)
            == value,
{
    lemma_unsigned_read_back(bytes, at, to_twos(value, width), width);
}

/// A write elsewhere does not change what is read at a place.
pub proof fn lemma_unsigned_untouched(
    bytes: Seq<u8>,
    at: int,
    piece: Seq<u8>,
    from: int,
    width: nat,
)
    requires
        0 <= from,
        from + width <= bytes.len(),
        from + width <= at || at + piece.len() <= from,
    ensures
        unsigned_at(overwrite(bytes, at, piece), from, width) == unsigned_at(bytes, from, width),
        signed_at(overwrite(bytes, at, piece), from, width) == signed_at(bytes, from, width),
{
    lemma_overwrite_other(bytes, at, piece, from, from + width);
}

} // verus!
