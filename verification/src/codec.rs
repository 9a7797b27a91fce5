//! The byte-level meaning of a slot: how a value becomes bytes and back.
//!
//! A slot of width `w` holds a value of `8 * w` bits. In little-endian order
//! byte `k` of the slot is `(value >> (8 * k)) & 0xFF`; in big-endian order the
//! same bytes stand in reverse. Reading a slot ORs the bytes back together,
//! each shifted to its place. Signed and floating-point values travel as their
//! bit patterns.

use vstd::prelude::*;

verus! {

/// Order of the bytes of a slot on the wire.
#[derive(Debug, Clone, Copy, PartialEq, Eq, Structural)]
pub enum Endianness {
    Little,
    Big,
}

/// The byte order used where none is asked for.
pub fn default_endianness() -> (order: Endianness)
    ensures
        order == Endianness::Little,
{
    Endianness::Little
}

/// Byte `k` of `value`, counted from the least significant byte.
pub open spec fn byte_of(value: u64, k: nat) -> u8 {
    ((value >> ((8 * k) as u64)) & 0xff) as u8
}

/// The value whose set bits are the low `8 * width` bits.
pub open spec fn low_mask(width: nat) -> u64 {
    if width >= 8 {
        0xffff_ffff_ffff_ffff
    } else {
        ((1u64 << ((8 * width) as u64)) - 1) as u64
    }
}

/// `value` can be held in `width` bytes.
pub open spec fn fits(value: u64, width: nat) -> bool {
    value & low_mask(width) == value
}

/// The bytes of a slot of `width` bytes that holds `value`.
pub open spec fn slot_bytes(value: u64, width: nat, order: Endianness) -> Seq<u8> {
    Seq::new(
        width,
        |i: int|
            match order {
                Endianness::Little => byte_of(value, i as nat),
                Endianness::Big => byte_of(value, (width - 1 - i) as nat),
            },
    )
}

/// The OR of the first `count` bytes of `bytes`, byte `k` shifted left by
/// `8 * k` bits.
pub open spec fn or_reduce(bytes: Seq<u8>, count: nat) -> u64
    decreases count,
{
    if count == 0 {
        0
    } else {
        or_reduce(bytes, (count - 1) as nat) | ((bytes[count - 1] as u64) << ((8 * (count
            - 1)) as u64))
    }
}

/// The value that a slot with the bytes `bytes` holds.
pub open spec fn slot_value(bytes: Seq<u8>, order: Endianness) -> u64 {
    match order {
        Endianness::Little => or_reduce(bytes, bytes.len()),
        Endianness::Big => or_reduce(bytes.reverse(), bytes.len()),
    }
}

proof fn lemma_mask_step(value: u64, count: u64)
    requires
        1 <= count <= 8,
    ensures
        (value & low_mask((count - 1) as nat)) | ((byte_of(value, (count - 1) as nat) as u64) << ((8
            * (count - 1)) as u64)) == value & low_mask(count as nat),
{
    let shift: u64 = (8 * (count - 1)) as u64;
    let below: u64 = low_mask((count - 1) as nat);
    let upto: u64 = low_mask(count as nat);
    let byte: u8 = byte_of(value, (count - 1) as nat);
    assert((value & below) | ((byte as u64) << shift) == value & upto) by (bit_vector)
        requires
            shift == 0 || shift == 8 || shift == 16 || shift == 24 || shift == 32 || shift == 40
                || shift == 48 || shift == 56,
            byte == ((value >> shift) & 0xff) as u8,
            below == ((1u64 << shift) - 1) as u64,
            upto == if shift == 56 {
                0xffff_ffff_ffff_ffffu64
            } else {
                ((1u64 << ((shift + 8) as u64)) - 1) as u64
            },
    ;
}

proof fn lemma_or_reduce_little(value: u64, width: nat, count: nat)
    requires
        count <= width <= 8,
    ensures
        or_reduce(slot_bytes(value, width, Endianness::Little), count) == value & low_mask(count),
    decreases count,
{
    if count == 0 {
        assert(value & (((1u64 << 0u64) - 1) as u64) == 0) by (bit_vector);
    } else {
        lemma_or_reduce_little(value, width, (count - 1) as nat);
        lemma_mask_step(value, count as u64);
    }
}

/// Reading a slot gives back the value that was written to it, in either byte
/// order, for every width up to eight bytes and every value that the width
/// can hold.
pub proof fn lemma_slot_round_trip(value: u64, width: nat, order: Endianness)
    requires
        width <= 8,
        fits(value, width),
    ensures
        slot_value(slot_bytes(value, width, order), order) == value,
{
    lemma_or_reduce_little(value, width, width);
    match order {
        Endianness::Little => {},
        Endianness::Big => {
            assert(slot_bytes(value, width, Endianness::Big).reverse() =~= slot_bytes(
                value,
                width,
                Endianness::Little,
            ));
        },
    }
}

/// A value can be held in fewer than eight bytes exactly when it is less than
/// two to the power of the number of bits in them.
pub proof fn lemma_fits_below_power(value: u64, width: nat)
    requires
        width < 8,
    ensures
        fits(value, width) <==> value < (1u64 << ((8 * width) as u64)),
{
    let shift: u64 = (8 * width) as u64;
    assert((value & (((1u64 << shift) - 1) as u64) == value) <==> value < (1u64 << shift))
        by (bit_vector)
        requires
            shift == 0 || shift == 8 || shift == 16 || shift == 24 || shift == 32 || shift == 40
                || shift == 48 || shift == 56,
    ;
}

proof fn lemma_or_reduce_bytes(bytes: Seq<u8>, count: nat)
    requires
        count <= bytes.len() <= 8,
    ensures
        fits(or_reduce(bytes, count), count),
        forall|k: nat| k < count ==> #[trigger] byte_of(or_reduce(bytes, count), k) == bytes[k as int],
    decreases count,
{
    if count == 0 {
        assert(0u64 & (((1u64 << 0u64) - 1) as u64) == 0u64) by (bit_vector);
    } else {
        lemma_or_reduce_bytes(bytes, (count - 1) as nat);
        let below: u64 = or_reduce(bytes, (count - 1) as nat);
        let byte: u8 = bytes[count - 1];
        let shift: u64 = (8 * (count - 1)) as u64;
        let whole: u64 = or_reduce(bytes, count);
        let mask: u64 = low_mask((count - 1) as nat);
        let upto: u64 = low_mask(count);
        assert(whole & upto == whole && ((whole >> shift) & 0xff) as u8 == byte) by (bit_vector)
            requires
                shift == 0 || shift == 8 || shift == 16 || shift == 24 || shift == 32 || shift
                    == 40 || shift == 48 || shift == 56,
                whole == below | ((byte as u64) << shift),
                mask == ((1u64 << shift) - 1) as u64,
                below & mask == below,
                upto == if shift == 56 {
                    0xffff_ffff_ffff_ffffu64
                } else {
                    ((1u64 << ((shift + 8) as u64)) - 1) as u64
                },
        ;
        assert forall|k: nat| k < count implies #[trigger] byte_of(whole, k) == bytes[k as int] by {
            if k < count - 1 {
                let lower: u64 = (8 * k) as u64;
                assert(byte_of(below, k) == bytes[k as int]);
                assert(((whole >> lower) & 0xff) as u8 == ((below >> lower) & 0xff) as u8)
                    by (bit_vector)
                    requires
                        shift == 8 || shift == 16 || shift == 24 || shift == 32 || shift == 40
                            || shift == 48 || shift == 56,
                        lower + 8 <= shift,
                        whole == below | ((byte as u64) << shift),
                ;
            }
        }
    }
}

/// Writing the value that was read from a slot gives back the bytes that it
/// was read from, in either byte order: no two byte strings of one length
/// stand for the same value.
pub proof fn lemma_slot_bytes_round_trip(bytes: Seq<u8>, order: Endianness)
    requires
        bytes.len() <= 8,
    ensures
        fits(slot_value(bytes, order), bytes.len()),
        slot_bytes(slot_value(bytes, order), bytes.len(), order) == bytes,
{
    match order {
        Endianness::Little => {
            lemma_or_reduce_bytes(bytes, bytes.len());
        },
        Endianness::Big => {
            lemma_or_reduce_bytes(bytes.reverse(), bytes.len());
        },
    }
}

/// In big-endian order the bytes of a slot are those of little-endian order,
/// in reverse.
pub proof fn lemma_big_endian_is_reversed(value: u64, width: nat)
    ensures
        slot_bytes(value, width, Endianness::Big) == slot_bytes(
            value,
            width,
            Endianness::Little,
        ).reverse(),
{
}

/// Whether `value` can be held in `width` bytes.
pub fn fits_in(value: u64, width: usize) -> (ok: bool)
    ensures
        ok == fits(value, width as nat),
{
    if width >= 8 {
        assert(value & 0xffff_ffff_ffff_ffffu64 == value) by (bit_vector);
        true
    } else {
        let shift: u64 = 8 * (width as u64);
        assert(1u64 << shift >= 1) by (bit_vector)
            requires
                shift < 64,
        ;
        let mask: u64 = (1u64 << shift) - 1;
        value & mask == value
    }
}

/// Index in the buffer of byte `k` of a slot, counted from the least
/// significant byte.
pub open spec fn byte_index(offset: int, width: int, order: Endianness, k: int) -> int {
    match order {
        Endianness::Little => offset + k,
        Endianness::Big => offset + width - 1 - k,
    }
}

/// Writes `value` into the slot of `width` bytes at `offset`; the bytes
/// outside the slot stay as they are.
pub fn write_slot(
    buffer: &mut Vec<u8>,
    offset: usize,
    width: usize,
    order: Endianness,
    value: u64,
)
    requires
        width <= 8,
        offset + width <= old(buffer).len(),
    ensures
        final(buffer)@ == old(buffer)@.subrange(0, offset as int) + slot_bytes(
            value,
            width as nat,
            order,
        ) + old(buffer)@.subrange(offset + width, old(buffer).len() as int),
{
    let mut k: usize = 0;
    while k < width
        invariant
            k <= width <= 8,
            offset + width <= buffer.len(),
            buffer.len() == old(buffer).len(),
            forall|j: int|
                0 <= j < k ==> buffer[byte_index(offset as int, width as int, order, j)] == byte_of(
                    value,
                    j as nat,
                ),
            forall|i: int|
                0 <= i < buffer.len() && !(exists|j: int|
                    0 <= j < k && i == byte_index(offset as int, width as int, order, j))
                    ==> buffer[i] == old(buffer)[i],
        decreases width - k,
    {
        let index: usize = match order {
            Endianness::Little => offset + k,
            Endianness::Big => offset + width - 1 - k,
        };
        let shift: u64 = 8 * (k as u64);
        let part: u64 = (value >> shift) & 0xff;
        assert(part <= 0xff) by (bit_vector)
            requires
                part == (value >> shift) & 0xff,
        ;
        buffer.set(index, part as u8);
        assert forall|i: int|
            0 <= i < buffer.len() && !(exists|j: int|
                0 <= j < k + 1 && i == byte_index(
                    offset as int,
                    width as int,
                    order,
                    j,
                )) implies buffer[i] == old(buffer)[i] by {
            assert(i != index) by {
                if i == index {
                    assert(0 <= k < k + 1 && i == byte_index(
                        offset as int,
                        width as int,
                        order,
                        k as int,
                    ));
                }
            }
        }
        k += 1;
    }
    let ghost expected = old(buffer)@.subrange(0, offset as int) + slot_bytes(
        value,
        width as nat,
        order,
    ) + old(buffer)@.subrange(offset + width, old(buffer).len() as int);
    assert forall|i: int| 0 <= i < buffer.len() implies buffer[i] == expected[i] by {
        if offset <= i < offset + width {
            let j = match order {
                Endianness::Little => i - offset,
                Endianness::Big => offset + width - 1 - i,
            };
            assert(i == byte_index(offset as int, width as int, order, j));
        }
    }
}

/// Reads the value of the slot of `width` bytes at `offset`.
pub fn read_slot(data: &[u8], offset: usize, width: usize, order: Endianness) -> (value: u64)
    requires
        width <= 8,
        offset + width <= data.len(),
    ensures
        value == slot_value(data@.subrange(offset as int, offset + width), order),
{
    let ghost slot = data@.subrange(offset as int, offset + width);
    let ghost ordered = match order {
        Endianness::Little => slot,
        Endianness::Big => slot.reverse(),
    };
    let mut value: u64 = 0;
    let mut k: usize = 0;
    while k < width
        invariant
            k <= width <= 8,
            offset + width <= data.len(),
            slot == data@.subrange(offset as int, offset + width),
            ordered == match order {
                Endianness::Little => slot,
                Endianness::Big => slot.reverse(),
            },
            value == or_reduce(ordered, k as nat),
        decreases width - k,
    {
        let index: usize = match order {
            Endianness::Little => offset + k,
            Endianness::Big => offset + width - 1 - k,
        };
        let shift: u64 = 8 * (k as u64);
        let byte: u8 = data[index];
        value = value | ((byte as u64) << shift);
        k += 1;
    }
    value
}

} // verus!
