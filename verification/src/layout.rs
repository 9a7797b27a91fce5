//! The layout engine: byte offsets and sizes of the fields of a packet.
//!
//! A cursor starts at zero and walks the fields in declared order. Each field
//! is placed at the cursor and moves it on by the field's byte length: the
//! element width for a scalar, the element width times the length for an
//! array. Calculated fields are not part of the layout.

use crate::models::parsing_models::{PacketExpr, PacketExprView, TypeExprView, TypeNode};
use vstd::prelude::*;

verus! {

/// Sum of the byte lengths of `types`.
pub open spec fn total_length(types: Seq<TypeNode>) -> nat
    decreases types.len(),
{
    if types.len() == 0 {
        0
    } else {
        total_length(types.drop_last()) + types.last().byte_length()
    }
}

/// Offset of field `index`: the bytes taken by the fields before it.
pub open spec fn offset_of(types: Seq<TypeNode>, index: int) -> nat {
    total_length(types.take(index))
}

/// The fields before `index + 1` take what the fields before `index` take, and
/// the length of field `index`.
pub proof fn lemma_total_length_step(types: Seq<TypeNode>, index: int)
    requires
        0 <= index < types.len(),
    ensures
        total_length(types.take(index + 1)) == total_length(types.take(index))
            + types[index].byte_length(),
{
    assert(types.take(index + 1).drop_last() =~= types.take(index));
}

/// A prefix of the fields takes no more room than all of them.
pub proof fn lemma_total_length_monotonic(types: Seq<TypeNode>, index: int)
    requires
        0 <= index <= types.len(),
    ensures
        total_length(types.take(index)) <= total_length(types),
    decreases types.len() - index,
{
    if index == types.len() {
        assert(types.take(index) =~= types);
    } else {
        lemma_total_length_step(types, index);
        lemma_total_length_monotonic(types, index + 1);
    }
}

/// Where one field lies in the packet's byte buffer.
#[derive(Debug, Clone, PartialEq, Eq)]
pub struct LayoutEntry {
    pub field_id: String,
    pub byte_offset: usize,
    pub byte_width: usize,
    pub element_count: usize,
}

/// The mathematical value of a [`LayoutEntry`].
pub struct LayoutEntryView {
    pub field_id: Seq<char>,
    pub byte_offset: nat,
    pub byte_width: nat,
    pub element_count: nat,
}

impl LayoutEntryView {
    /// Bytes that the entry covers: one element's width for each element.
    pub open spec fn size(self) -> nat {
        self.byte_width * self.element_count
    }

    /// First byte offset after the entry.
    pub open spec fn end(self) -> nat {
        self.byte_offset + self.size()
    }
}

impl View for LayoutEntry {
    type V = LayoutEntryView;

    open spec fn view(&self) -> LayoutEntryView {
        LayoutEntryView {
            field_id: self.field_id@,
            byte_offset: self.byte_offset as nat,
            byte_width: self.byte_width as nat,
            element_count: self.element_count as nat,
        }
    }
}

/// The layout of one packet: an entry for each field in declared order, and
/// the size of the whole packet.
#[derive(Debug, Clone, PartialEq, Eq)]
pub struct PacketLayout {
    pub entries: Vec<LayoutEntry>,
    pub total_size: usize,
}

/// The mathematical value of a [`PacketLayout`].
pub struct PacketLayoutView {
    pub entries: Seq<LayoutEntryView>,
    pub total_size: nat,
}

impl View for PacketLayout {
    type V = PacketLayoutView;

    open spec fn view(&self) -> PacketLayoutView {
        PacketLayoutView {
            entries: Seq::new(self.entries.len() as nat, |i: int| self.entries[i]@),
            total_size: self.total_size as nat,
        }
    }
}

/// Sum over `entries` of width times element count.
pub open spec fn entries_size(entries: Seq<LayoutEntryView>) -> nat
    decreases entries.len(),
{
    if entries.len() == 0 {
        0
    } else {
        entries_size(entries.drop_last()) + entries.last().size()
    }
}

impl PacketLayoutView {
    /// The entries tile the buffer: the first starts at zero, each next one
    /// starts where the one before it ends, and the last ends at the total
    /// size. So there are neither gaps nor overlaps.
    pub open spec fn contiguous(self) -> bool {
        &&& self.entries.len() == 0 ==> self.total_size == 0
        &&& self.entries.len() > 0 ==> self.entries[0].byte_offset == 0
        &&& self.entries.len() > 0 ==> self.entries.last().end() == self.total_size
        &&& forall|i: int|
            0 <= i < self.entries.len() - 1 ==> #[trigger] self.entries[i].end() == self.entries[i
                + 1].byte_offset
    }

    /// The byte lengths of the entries add up to the total size.
    pub open spec fn sizes_add_up(self) -> bool {
        entries_size(self.entries) == self.total_size
    }

    /// Entries further down start at greater offsets.
    pub open spec fn strictly_increasing(self) -> bool {
        forall|i: int, j: int|
            0 <= i < j < self.entries.len() ==> #[trigger] self.entries[i].byte_offset
                < #[trigger] self.entries[j].byte_offset
    }
}

/// The entry of field `index` of `fields`.
pub open spec fn entry_of(fields: Seq<TypeExprView>, index: int) -> LayoutEntryView {
    LayoutEntryView {
        field_id: fields[index].id,
        byte_offset: offset_of(Seq::new(fields.len(), |i: int| fields[i].expr), index),
        byte_width: fields[index].expr.element_width(),
        element_count: fields[index].expr.element_count(),
    }
}

/// The layout that the cursor walk gives to `packet`.
pub open spec fn layout_of(packet: PacketExprView) -> PacketLayoutView {
    PacketLayoutView {
        entries: Seq::new(packet.fields.len(), |i: int| entry_of(packet.fields, i)),
        total_size: packet.total_length(),
    }
}

/// The entries of the first `count` fields cover what those fields take.
proof fn lemma_entries_size_prefix(packet: PacketExprView, count: int)
    requires
        0 <= count <= packet.fields.len(),
    ensures
        entries_size(layout_of(packet).entries.take(count)) == total_length(
            packet.field_types().take(count),
        ),
    decreases count,
{
    let entries = layout_of(packet).entries;
    let types = packet.field_types();
    if count > 0 {
        lemma_entries_size_prefix(packet, count - 1);
        lemma_total_length_step(types, count - 1);
        assert(entries.take(count).drop_last() =~= entries.take(count - 1));
    }
}

/// Every packet's layout is gap-free and overlap-free, and the byte lengths of
/// its entries add up to the packet's total size.
pub proof fn lemma_layout_tiles_packet(packet: PacketExprView)
    ensures
        layout_of(packet).sizes_add_up(),
        layout_of(packet).contiguous(),
{
    let layout = layout_of(packet);
    let types = packet.field_types();
    let n = packet.fields.len() as int;
    lemma_entries_size_prefix(packet, n);
    assert(layout.entries.take(n) =~= layout.entries);
    if n > 0 {
        lemma_total_length_step(types, n - 1);
    }
    assert forall|i: int| 0 <= i < n - 1 implies #[trigger] layout.entries[i].end()
        == layout.entries[i + 1].byte_offset by {
        lemma_total_length_step(types, i);
    }
}

/// Where no field is an empty array, offsets grow strictly from one entry to
/// the next.
pub proof fn lemma_layout_strictly_increasing(packet: PacketExprView)
    requires
        forall|i: int| 0 <= i < packet.fields.len() ==> packet.fields[i].expr.element_count() > 0,
    ensures
        layout_of(packet).strictly_increasing(),
{
    let layout = layout_of(packet);
    assert forall|i: int, j: int| 0 <= i < j < layout.entries.len() implies layout.entries[i].byte_offset
        < layout.entries[j].byte_offset by {
        lemma_offsets_grow(packet, i, j);
    }
}

proof fn lemma_offsets_grow(packet: PacketExprView, i: int, j: int)
    requires
        0 <= i < j < packet.fields.len(),
        forall|k: int| 0 <= k < packet.fields.len() ==> packet.fields[k].expr.element_count() > 0,
    ensures
        offset_of(packet.field_types(), i) < offset_of(packet.field_types(), j),
    decreases j - i,
{
    let types = packet.field_types();
    lemma_total_length_step(types, j - 1);
    assert(types[j - 1].byte_length() > 0) by {
        assert(types[j - 1].byte_length() >= types[j - 1].element_count()) by (nonlinear_arith)
            requires
                types[j - 1].byte_length() == types[j - 1].element_width() * types[j
                    - 1].element_count(),
                types[j - 1].element_width() >= 1,
        ;
    }
    if i < j - 1 {
        lemma_offsets_grow(packet, i, j - 1);
    }
}

/// Lays out `packet`. Fails only where the packet does not fit in the address
/// space: `None` comes back exactly when its total length is more than
/// `usize::MAX`.
pub fn checked_layout(packet: &PacketExpr) -> (layout: Option<PacketLayout>)
    ensures
        layout matches Some(l) ==> l@ == layout_of(packet@) && l@.sizes_add_up()
            && l@.contiguous(),
        layout is None <==> packet@.total_length() > usize::MAX,
{
    proof {
        lemma_layout_tiles_packet(packet@);
    }
    let ghost types = packet@.field_types();
    let mut entries: Vec<LayoutEntry> = Vec::new();
    let mut cursor: usize = 0;
    let mut i: usize = 0;
    while i < packet.fields.len()
        invariant
            i <= packet.fields.len(),
            types == packet@.field_types(),
            cursor == total_length(types.take(i as int)),
            entries.len() == i,
            forall|k: int| 0 <= k < i ==> entries[k]@ == entry_of(packet@.fields, k),
        decreases packet.fields.len() - i,
    {
        let field = &packet.fields[i];
        proof {
            lemma_total_length_step(types, i as int);
            lemma_total_length_monotonic(types, i as int + 1);
        }
        let length: usize = match field.expr.checked_length_bytes() {
            Some(length) => length,
            None => { return None; },
        };
        let next: usize = match cursor.checked_add(length) {
            Some(next) => next,
            None => { return None; },
        };
        entries.push(
            LayoutEntry {
                field_id: field.id.clone(),
                byte_offset: cursor,
                byte_width: field.expr.get_type_length_bytes(),
                element_count: field.expr.get_element_count(),
            },
        );
        cursor = next;
        i += 1;
    }
    assert(types.take(i as int) =~= types);
    let layout = PacketLayout { entries, total_size: cursor };
    assert(layout@.entries =~= layout_of(packet@).entries);
    Some(layout)
}

/// Lays out `packet`: one entry for each field in declared order, and the
/// total size.
pub fn compute_layout(packet: &PacketExpr) -> (layout: PacketLayout)
    requires
        packet@.total_length() <= usize::MAX,
    ensures
        layout@ == layout_of(packet@),
        layout@.sizes_add_up(),
        layout@.contiguous(),
{
    match checked_layout(packet) {
        Some(layout) => layout,
        None => vstd::pervasive::unreached(),
    }
}

} // verus!
