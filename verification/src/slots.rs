//! Slots: the scalar cells that the fields of a packet expand into.
//!
//! A scalar field is one slot. An array field of length `n` is `n` slots of
//! the element's width, one after the other. The slots of a packet follow one
//! another without gaps, in the order of the fields, so both the view of an
//! array as one field and its view as `n` scalars come from the same table.

use crate::codec::Endianness;
use crate::layout::{lemma_total_length_monotonic, lemma_total_length_step, offset_of, total_length};
use crate::models::parsing_models::{PacketExpr, PacketExprView, PrimitiveType, TypeNode};
use vstd::prelude::*;

verus! {

/// How one slot is read from and written to the byte buffer: the slot holds
/// the `byte_width` bytes from `byte_offset` on, in `byte_order`.
#[derive(Debug, Clone, Copy, PartialEq, Eq)]
pub struct SlotCodec {
    /// Index of the field that the slot belongs to.
    pub field_index: usize,
    /// Index of the slot in its array; `None` where the field is a scalar.
    pub element_index: Option<usize>,
    /// Type of the value that the slot holds.
    pub primitive: PrimitiveType,
    pub byte_offset: usize,
    pub byte_width: usize,
    pub byte_order: Endianness,
}

/// The mathematical value of a [`SlotCodec`].
pub struct SlotView {
    pub field_index: nat,
    pub element_index: Option<nat>,
    pub primitive: PrimitiveType,
    pub byte_offset: nat,
    pub byte_width: nat,
    pub byte_order: Endianness,
}

impl SlotView {
    /// Offset of the slot's first byte.
    pub open spec fn start(self) -> int {
        self.byte_offset as int
    }

    /// Offset of the first byte after the slot.
    pub open spec fn end(self) -> int {
        (self.byte_offset + self.byte_width) as int
    }
}

impl View for SlotCodec {
    type V = SlotView;

    open spec fn view(&self) -> SlotView {
        SlotView {
            field_index: self.field_index as nat,
            element_index: match self.element_index {
                Some(k) => Some(k as nat),
                None => None,
            },
            primitive: self.primitive,
            byte_offset: self.byte_offset as nat,
            byte_width: self.byte_width as nat,
            byte_order: self.byte_order,
        }
    }
}

/// The views of a table of slots.
pub open spec fn slot_views(slots: Seq<SlotCodec>) -> Seq<SlotView> {
    Seq::new(slots.len(), |i: int| slots[i]@)
}

/// Slot `element` of field `index`.
pub open spec fn slot_of(types: Seq<TypeNode>, index: int, element: int, order: Endianness)
    -> SlotView {
    SlotView {
        field_index: index as nat,
        element_index: if types[index].array_length() is Some {
            Some(element as nat)
        } else {
            None
        },
        primitive: types[index].primitive(),
        byte_offset: (offset_of(types, index) + element * types[index].element_width()) as nat,
        byte_width: types[index].element_width(),
        byte_order: order,
    }
}

/// The slots of field `index`, in order.
pub open spec fn field_slots(types: Seq<TypeNode>, index: int, order: Endianness) -> Seq<
    SlotView,
> {
    Seq::new(types[index].element_count(), |k: int| slot_of(types, index, k, order))
}

/// The slots of the first `count` fields, in order.
pub open spec fn slots_upto(types: Seq<TypeNode>, count: nat, order: Endianness) -> Seq<SlotView>
    decreases count,
{
    if count == 0 {
        Seq::empty()
    } else {
        slots_upto(types, (count - 1) as nat, order) + field_slots(types, count - 1, order)
    }
}

/// The slots of a packet, in wire order.
pub open spec fn slots_of(packet: PacketExprView, order: Endianness) -> Seq<SlotView> {
    slots_upto(packet.field_types(), packet.fields.len(), order)
}

/// Number of slots of the first `count` fields.
pub open spec fn slot_count(types: Seq<TypeNode>, count: nat) -> nat
    decreases count,
{
    if count == 0 {
        0
    } else {
        slot_count(types, (count - 1) as nat) + types[count - 1].element_count()
    }
}

/// The table of the first `count` fields has `slot_count` slots, and slot
/// `element` of an earlier field `index` stands at the field's first slot
/// plus `element`.
pub proof fn lemma_slot_index(
    types: Seq<TypeNode>,
    count: nat,
    order: Endianness,
    index: int,
    element: int,
)
    requires
        0 <= index < count <= types.len(),
        0 <= element < types[index].element_count(),
    ensures
        slots_upto(types, count, order).len() == slot_count(types, count),
        slot_count(types, index as nat) + element < slot_count(types, count),
        slots_upto(types, count, order)[slot_count(types, index as nat) + element] == slot_of(
            types,
            index,
            element,
            order,
        ),
    decreases count,
{
    lemma_slot_count_len(types, count, order);
    lemma_slot_count_len(types, (count - 1) as nat, order);
    if index < count - 1 {
        lemma_slot_index(types, (count - 1) as nat, order, index, element);
    }
}

/// The slots of a field are the cells of its layout entry: slot `element` of
/// field `index` is as wide as the entry says and lies `element` widths
/// after the entry's offset. So the view of an array as one field and its
/// view as so many scalars agree.
pub proof fn lemma_slot_lies_in_its_entry(
    packet: PacketExprView,
    order: Endianness,
    index: int,
    element: int,
)
    requires
        0 <= index < packet.fields.len(),
        0 <= element < packet.fields[index].expr.element_count(),
    ensures
        ({
            let slot = slots_of(packet, order)[slot_count(packet.field_types(), index as nat)
                + element];
            let entry = crate::layout::layout_of(packet).entries[index];
            &&& slot_count(packet.field_types(), index as nat) + element < slots_of(
                packet,
                order,
            ).len()
            &&& slot.field_index == index
            &&& slot.byte_width == entry.byte_width
            &&& slot.byte_offset == entry.byte_offset + element * entry.byte_width
            &&& slot.byte_offset + slot.byte_width <= entry.end()
        }),
{
    let types = packet.field_types();
    lemma_slot_index(types, types.len(), order, index, element);
    let width = types[index].element_width();
    let count = types[index].element_count();
    assert(element * width + width <= width * count) by (nonlinear_arith)
        requires
            0 <= element < count,
            width >= 0,
    ;
}

/// The table of the first `count` fields has `slot_count` slots.
pub proof fn lemma_slot_count_len(types: Seq<TypeNode>, count: nat, order: Endianness)
    requires
        count <= types.len(),
    ensures
        slots_upto(types, count, order).len() == slot_count(types, count),
    decreases count,
{
    if count > 0 {
        lemma_slot_count_len(types, (count - 1) as nat, order);
    }
}

/// More fields have no fewer slots.
pub proof fn lemma_slot_count_monotonic(types: Seq<TypeNode>, lower: nat, upper: nat)
    requires
        lower <= upper,
    ensures
        slot_count(types, lower) <= slot_count(types, upper),
    decreases upper,
{
    if lower < upper {
        lemma_slot_count_monotonic(types, lower, (upper - 1) as nat);
    }
}

/// Sum of the widths of `slots`.
pub open spec fn slots_width(slots: Seq<SlotView>) -> nat
    decreases slots.len(),
{
    if slots.len() == 0 {
        0
    } else {
        slots_width(slots.drop_last()) + slots.last().byte_width
    }
}

/// Each slot starts where the slots before it end, and no slot is wider than
/// eight bytes.
pub open spec fn slots_tile(slots: Seq<SlotView>) -> bool {
    forall|j: int|
        0 <= j < slots.len() ==> {
            &&& (#[trigger] slots[j]).byte_offset == slots_width(slots.take(j))
            &&& 1 <= slots[j].byte_width <= 8
        }
}

proof fn lemma_slots_width_append(a: Seq<SlotView>, b: Seq<SlotView>)
    ensures
        slots_width(a + b) == slots_width(a) + slots_width(b),
    decreases b.len(),
{
    if b.len() == 0 {
    } else {
        lemma_slots_width_append(a, b.drop_last());
        assert((a + b).drop_last() =~= a + b.drop_last());
    }
}

proof fn lemma_field_slots_width(types: Seq<TypeNode>, index: int, order: Endianness, count: int)
    requires
        0 <= index < types.len(),
        0 <= count <= types[index].element_count(),
    ensures
        slots_width(field_slots(types, index, order).take(count)) == count
            * types[index].element_width(),
    decreases count,
{
    let slots = field_slots(types, index, order);
    let width = types[index].element_width();
    if count > 0 {
        lemma_field_slots_width(types, index, order, count - 1);
        assert(slots.take(count).drop_last() =~= slots.take(count - 1));
        assert(count * width == (count - 1) * width + width) by (nonlinear_arith);
    } else {
        assert(count * width == 0) by (nonlinear_arith)
            requires
                count == 0,
        ;
    }
}

/// The slots of the first `count` fields take as many bytes as those fields.
pub proof fn lemma_slots_upto_width(types: Seq<TypeNode>, count: nat, order: Endianness)
    requires
        count <= types.len(),
    ensures
        slots_width(slots_upto(types, count, order)) == total_length(types.take(count as int)),
    decreases count,
{
    if count > 0 {
        let before = slots_upto(types, (count - 1) as nat, order);
        let here = field_slots(types, count - 1, order);
        lemma_slots_upto_width(types, (count - 1) as nat, order);
        lemma_slots_width_append(before, here);
        lemma_field_slots_width(types, count - 1, order, types[count - 1].element_count() as int);
        assert(here.take(here.len() as int) =~= here);
        lemma_total_length_step(types, count - 1);
        assert(types[count - 1].element_count() * types[count - 1].element_width() == types[count
            - 1].byte_length()) by (nonlinear_arith)
            requires
                types[count - 1].byte_length() == types[count - 1].element_width() * types[count
                    - 1].element_count(),
        ;
    }
}

proof fn lemma_slots_upto_tile(types: Seq<TypeNode>, count: nat, order: Endianness)
    requires
        count <= types.len(),
    ensures
        slots_tile(slots_upto(types, count, order)),
    decreases count,
{
    let all = slots_upto(types, count, order);
    if count > 0 {
        let before = slots_upto(types, (count - 1) as nat, order);
        let here = field_slots(types, count - 1, order);
        lemma_slots_upto_tile(types, (count - 1) as nat, order);
        lemma_slots_upto_width(types, (count - 1) as nat, order);
        assert forall|j: int| 0 <= j < all.len() implies (#[trigger] all[j]).byte_offset
            == slots_width(all.take(j)) && 1 <= all[j].byte_width <= 8 by {
            if j < before.len() {
                assert(all.take(j) =~= before.take(j));
            } else {
                let k = j - before.len();
                assert(all.take(j) =~= before + here.take(k));
                lemma_slots_width_append(before, here.take(k));
                lemma_field_slots_width(types, count - 1, order, k);
            }
        }
    }
}

/// The slots of a packet tile its buffer: they follow one another without
/// gaps, and together they take the packet's total length.
pub proof fn lemma_slots_tile_packet(packet: PacketExprView, order: Endianness)
    ensures
        slots_tile(slots_of(packet, order)),
        slots_width(slots_of(packet, order)) == packet.total_length(),
{
    let types = packet.field_types();
    lemma_slots_upto_tile(types, types.len(), order);
    lemma_slots_upto_width(types, types.len(), order);
    assert(types.take(types.len() as int) =~= types);
}

/// Expands the fields of `packet` into its slots. `None` comes back exactly
/// when the packet's total length is more than `usize::MAX`.
pub fn expand_slots(packet: &PacketExpr, order: Endianness) -> (slots: Option<Vec<SlotCodec>>)
    ensures
        slots matches Some(s) ==> slot_views(s@) == slots_of(packet@, order),
        slots is None <==> packet@.total_length() > usize::MAX,
{
    let ghost types = packet@.field_types();
    let mut slots: Vec<SlotCodec> = Vec::new();
    let mut position: usize = 0;
    let mut i: usize = 0;
    while i < packet.fields.len()
        invariant
            i <= packet.fields.len(),
            types == packet@.field_types(),
            position == total_length(types.take(i as int)),
            slot_views(slots@) == slots_upto(types, i as nat, order),
        decreases packet.fields.len() - i,
    {
        let field_type = packet.fields[i].expr;
        proof {
            lemma_total_length_step(types, i as int);
            lemma_total_length_monotonic(types, i as int + 1);
        }
        let length: usize = match field_type.checked_length_bytes() {
            Some(length) => length,
            None => { return None; },
        };
        if position.checked_add(length).is_none() {
            return None;
        }
        let width: usize = field_type.get_type_length_bytes();
        let count: usize = field_type.get_element_count();
        let is_array: bool = field_type.get_array_length().is_some();
        let primitive = field_type.get_primitive();
        let ghost before = slot_views(slots@);
        let ghost start = position;
        assert(count * width == length) by (nonlinear_arith)
            requires
                length == width * count,
        ;
        let mut k: usize = 0;
        while k < count
            invariant
                k <= count,
                i < packet.fields.len(),
                types == packet@.field_types(),
                field_type == types[i as int],
                width == field_type.element_width(),
                count == field_type.element_count(),
                is_array == (field_type.array_length() is Some),
                primitive == field_type.primitive(),
                start == offset_of(types, i as int),
                position == start + k * width,
                start + count * width <= usize::MAX,
                slot_views(slots@) == before + field_slots(types, i as int, order).take(k as int),
            decreases count - k,
        {
            assert((k + 1) * width <= count * width) by (nonlinear_arith)
                requires
                    k + 1 <= count,
                    width >= 0,
            ;
            assert((k + 1) * width == k * width + width) by (nonlinear_arith);
            let ghost earlier = slots@;
            slots.push(
                SlotCodec {
                    field_index: i,
                    element_index: if is_array {
                        Some(k)
                    } else {
                        None
                    },
                    primitive,
                    byte_offset: position,
                    byte_width: width,
                    byte_order: order,
                },
            );
            assert(slot_views(slots@) =~= slot_views(earlier).push(slots@.last()@));
            position = position + width;
            k += 1;
        }
        assert(count * width == field_type.byte_length()) by (nonlinear_arith)
            requires
                field_type.byte_length() == width * count,
        ;
        i += 1;
    }
    assert(types.take(i as int) =~= types);
    Some(slots)
}

} // verus!
