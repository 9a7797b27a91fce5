//! The wire image of a packet: the bytes of all its slots, and the values
//! read back from them.

use crate::codec::{
    fits, fits_in, lemma_slot_round_trip, read_slot, slot_bytes, slot_value, write_slot,
};
use crate::slots::{slot_views, slots_tile, slots_width, SlotCodec, SlotView};
use vstd::prelude::*;

verus! {

/// Why a packet could not be written or read.
#[derive(Debug, Clone, PartialEq, Eq)]
pub enum WireError {
    /// The number of values is not the number of slots.
    ValueCount { expected: usize, found: usize },
    /// The value for slot `slot` does not fit in the slot's width.
    ValueTooWide { slot: usize },
    /// The buffer does not have the packet's length.
    BufferLength { expected: usize, found: usize },
}

/// The bytes of `slots` holding `values`, one slot after the other.
pub open spec fn wire_bytes(slots: Seq<SlotView>, values: Seq<u64>) -> Seq<u8>
    decreases slots.len(),
{
    if slots.len() == 0 {
        Seq::empty()
    } else {
        wire_bytes(slots.drop_last(), values) + slot_bytes(
            values[slots.len() - 1],
            slots.last().byte_width,
            slots.last().byte_order,
        )
    }
}

/// The values that `slots` hold in the buffer `data`.
pub open spec fn wire_values(slots: Seq<SlotView>, data: Seq<u8>) -> Seq<u64> {
    Seq::new(
        slots.len(),
        |j: int|
            slot_value(
                data.subrange(slots[j].start(), slots[j].end()),
                slots[j].byte_order,
            ),
    )
}

/// There is one value for each slot, and each fits in its slot.
pub open spec fn values_fit(slots: Seq<SlotView>, values: Seq<u64>) -> bool {
    &&& values.len() == slots.len()
    &&& forall|j: int| 0 <= j < slots.len() ==> fits(#[trigger] values[j], slots[j].byte_width)
}

/// The wire image is as long as the slots are wide together.
pub proof fn lemma_wire_bytes_len(slots: Seq<SlotView>, values: Seq<u64>)
    ensures
        wire_bytes(slots, values).len() == slots_width(slots),
    decreases slots.len(),
{
    if slots.len() > 0 {
        lemma_wire_bytes_len(slots.drop_last(), values);
    }
}

/// The wire image of the first `count` slots is the start of the image of
/// all of them.
proof fn lemma_wire_bytes_prefix(slots: Seq<SlotView>, values: Seq<u64>, count: int)
    requires
        0 <= count <= slots.len(),
    ensures
        wire_bytes(slots.take(count), values) == wire_bytes(slots, values).subrange(
            0,
            slots_width(slots.take(count)) as int,
        ),
        slots_width(slots.take(count)) <= slots_width(slots),
    decreases slots.len() - count,
{
    lemma_wire_bytes_len(slots, values);
    lemma_wire_bytes_len(slots.take(count), values);
    if count == slots.len() {
        assert(slots.take(count) =~= slots);
    } else {
        lemma_wire_bytes_prefix(slots, values, count + 1);
        lemma_wire_bytes_len(slots.take(count + 1), values);
        assert(slots.take(count + 1).drop_last() =~= slots.take(count));
        let longer = wire_bytes(slots.take(count + 1), values);
    }
}

/// The wire image of the first `count + 1` slots is that of the first
/// `count`, followed by the bytes of slot `count`.
proof fn lemma_wire_bytes_step(slots: Seq<SlotView>, values: Seq<u64>, count: int)
    requires
        0 <= count < slots.len(),
    ensures
        wire_bytes(slots.take(count + 1), values) == wire_bytes(slots.take(count), values)
            + slot_bytes(values[count], slots[count].byte_width, slots[count].byte_order),
{
    assert(slots.take(count + 1).drop_last() =~= slots.take(count));
}

/// Where a buffer starts with `before` followed by `piece`, the bytes after
/// `before` are `piece`.
proof fn lemma_piece_in_image(full: Seq<u8>, before: Seq<u8>, piece: Seq<u8>)
    requires
        before.len() + piece.len() <= full.len(),
        full.subrange(0, (before.len() + piece.len()) as int) == before + piece,
    ensures
        full.subrange(before.len() as int, (before.len() + piece.len()) as int) == piece,
{
    let start = before.len() as int;
    let end = (before.len() + piece.len()) as int;
    assert forall|i: int| 0 <= i < piece.len() implies full.subrange(start, end)[i] == piece[i] by {
        assert((before + piece)[start + i] == piece[i]);
    }
}

/// In the wire image, the bytes at a slot's place are the bytes of its value.
pub proof fn lemma_wire_slot(slots: Seq<SlotView>, values: Seq<u64>, j: int)
    requires
        slots_tile(slots),
        0 <= j < slots.len(),
    ensures
        wire_bytes(slots, values).subrange(slots[j].start(), slots[j].end()) == slot_bytes(
            values[j],
            slots[j].byte_width,
            slots[j].byte_order,
        ),
{
    let full = wire_bytes(slots, values);
    let before = wire_bytes(slots.take(j), values);
    let piece = slot_bytes(values[j], slots[j].byte_width, slots[j].byte_order);
    let slot = slots[j];
    assert(before.len() == slot.byte_offset) by {
        lemma_wire_bytes_len(slots.take(j), values);
    }
    assert(before.len() + piece.len() <= full.len() && full.subrange(
        0,
        (before.len() + piece.len()) as int,
    ) == before + piece) by {
        lemma_wire_bytes_step(slots, values, j);
        lemma_wire_bytes_prefix(slots, values, j + 1);
        lemma_wire_bytes_len(slots.take(j + 1), values);
        lemma_wire_bytes_len(slots, values);
    }
    lemma_piece_in_image(full, before, piece);
}

/// Reading back what was written gives the values that were written: for
/// every table of slots that tile their buffer, in whatever byte order each
/// slot has, and every list of values that fit their slots.
pub proof fn lemma_wire_round_trip(slots: Seq<SlotView>, values: Seq<u64>)
    requires
        slots_tile(slots),
        values_fit(slots, values),
    ensures
        wire_values(slots, wire_bytes(slots, values)) == values,
{
    let back = wire_values(slots, wire_bytes(slots, values));
    assert forall|j: int| 0 <= j < slots.len() implies back[j] == values[j] by {
        lemma_wire_slot(slots, values, j);
        lemma_slot_round_trip(values[j], slots[j].byte_width, slots[j].byte_order);
    }
}

/// Reading a packet back gives the values that were written to it: for every
/// packet, either byte order, and every list of values that fit the slots of
/// the packet. Arrays of any length are covered, the empty array too.
pub proof fn lemma_packet_round_trip(
    packet: crate::models::parsing_models::PacketExprView,
    order: crate::codec::Endianness,
    values: Seq<u64>,
)
    requires
        values_fit(crate::slots::slots_of(packet, order), values),
    ensures
        wire_values(
            crate::slots::slots_of(packet, order),
            wire_bytes(crate::slots::slots_of(packet, order), values),
        ) == values,
        wire_bytes(crate::slots::slots_of(packet, order), values).len() == packet.total_length(),
{
    crate::slots::lemma_slots_tile_packet(packet, order);
    lemma_wire_round_trip(crate::slots::slots_of(packet, order), values);
    lemma_wire_bytes_len(crate::slots::slots_of(packet, order), values);
}

/// Writes `values` into a fresh buffer, one value for each slot.
pub(crate) fn serialize_slots(slots: &Vec<SlotCodec>, total_size: usize, values: &Vec<u64>) -> (result:
    Result<Vec<u8>, WireError>)
    requires
        slots_tile(slot_views(slots@)),
        slots_width(slot_views(slots@)) == total_size,
    ensures
        match result {
            Ok(bytes) => {
                &&& values_fit(slot_views(slots@), values@)
                &&& bytes@ == wire_bytes(slot_views(slots@), values@)
            },
            Err(WireError::ValueCount { expected, found }) => {
                &&& values.len() != slots.len()
                &&& expected == slots.len()
                &&& found == values.len()
            },
            Err(WireError::ValueTooWide { slot }) => {
                &&& values.len() == slots.len()
                &&& slot < slots.len()
                &&& !fits(values[slot as int], slots[slot as int]@.byte_width)
                &&& forall|j: int| 0 <= j < slot ==> fits(#[trigger] values[j], slots[j]@.byte_width)
            },
            Err(WireError::BufferLength { .. }) => false,
        },
{
    let ghost views = slot_views(slots@);
    if values.len() != slots.len() {
        return Err(WireError::ValueCount { expected: slots.len(), found: values.len() });
    }
    let mut buffer: Vec<u8> = vec![0u8; total_size];
    let mut j: usize = 0;
    while j < slots.len()
        invariant
            j <= slots.len(),
            values.len() == slots.len(),
            views == slot_views(slots@),
            slots_tile(views),
            slots_width(views) == total_size,
            buffer.len() == total_size,
            forall|i: int| 0 <= i < j ==> fits(#[trigger] values[i], slots[i]@.byte_width),
            buffer@.subrange(0, slots_width(views.take(j as int)) as int) == wire_bytes(
                views.take(j as int),
                values@,
            ),
        decreases slots.len() - j,
    {
        let slot = slots[j];
        if !fits_in(values[j], slot.byte_width) {
            return Err(WireError::ValueTooWide { slot: j });
        }
        proof {
            lemma_wire_bytes_prefix(views, values@, j as int + 1);
            lemma_wire_bytes_len(views, values@);
            lemma_wire_bytes_len(views.take(j as int + 1), values@);
            assert(views.take(j as int + 1).drop_last() =~= views.take(j as int));
        }
        write_slot(&mut buffer, slot.byte_offset, slot.byte_width, slot.byte_order, values[j]);
        j += 1;
    }
    proof {
        assert(views.take(j as int) =~= views);
    }
    Ok(buffer)
}

/// Reads the value of each slot from `data`.
pub(crate) fn deserialize_slots(slots: &Vec<SlotCodec>, total_size: usize, data: &[u8]) -> (result:
    Result<Vec<u64>, WireError>)
    requires
        slots_tile(slot_views(slots@)),
        slots_width(slot_views(slots@)) == total_size,
    ensures
        match result {
            Ok(values) => {
                &&& data.len() == total_size
                &&& values@ == wire_values(slot_views(slots@), data@)
            },
            Err(WireError::BufferLength { expected, found }) => {
                &&& data.len() != total_size
                &&& expected == total_size
                &&& found == data.len()
            },
            Err(_) => false,
        },
{
    let ghost views = slot_views(slots@);
    if data.len() != total_size {
        return Err(WireError::BufferLength { expected: total_size, found: data.len() });
    }
    let mut values: Vec<u64> = Vec::new();
    let mut j: usize = 0;
    while j < slots.len()
        invariant
            j <= slots.len(),
            views == slot_views(slots@),
            slots_tile(views),
            slots_width(views) == total_size,
            data.len() == total_size,
            values.len() == j,
            forall|i: int| 0 <= i < j ==> values[i] == wire_values(views, data@)[i],
        decreases slots.len() - j,
    {
        let slot = slots[j];
        proof {
            lemma_wire_bytes_prefix(views, Seq::empty(), j as int + 1);
            assert(views.take(j as int + 1).drop_last() =~= views.take(j as int));
        }
        values.push(read_slot(data, slot.byte_offset, slot.byte_width, slot.byte_order));
        j += 1;
    }
    Ok(values)
}

} // verus!
