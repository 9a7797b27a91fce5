//! The data model of packet definitions.
//!
//! [`parsing_models`] holds the syntax tree that the parser builds, and
//! [`codegen_models`] the values handed to templates. The types of this file
//! describe groups of packets whose fields are listed with a repeat count;
//! [`PacketGroup::post_process`] lays their fields out.

pub mod codegen_models;
pub mod parsing_models;

use crate::text::{decimal, decimal_string};
use crate::utilities::{camel_case, CaseWrapper, Casing};
use vstd::prelude::*;
use vstd::string::*;

verus! {

/// The groups of packets of one definition.
#[derive(Debug, Clone, PartialEq, Eq)]
pub struct PacketParser {
    pub packet_groups: Vec<PacketGroup>,
}

/// A group of packet definitions that share a multiplexer.
#[derive(Debug, Clone, PartialEq, Eq)]
pub struct PacketGroup {
    pub name: String,
    pub packet_definition: Vec<PacketDefinition>,
    pub packet_multiplexer: PacketMultiplexer,
}

impl PacketGroup {
    /// Lays out the fields of every packet of the group. A field with a
    /// repeat count of more than one becomes that many fields, named after
    /// it with the index at the end; every resulting field has its length,
    /// its start in the packet and its variable name in camel case filled
    /// in, and a repeat count of one. Each packet is laid out from offset
    /// zero. The rest of the group stays as it is.
    pub fn post_process(&mut self)
        requires
            all_fit(definition_views(old(self).packet_definition@)),
        ensures
            definition_views(final(self).packet_definition@) == all_processed(
                definition_views(old(self).packet_definition@),
            ),
            final(self).name == old(self).name,
            final(self).packet_multiplexer == old(self).packet_multiplexer,
    {
        self.packet_definition = expand_definitions(&self.packet_definition);
    }

    /// Lays out the fields of every packet of the group as
    /// [`PacketGroup::post_process`] does, where every packet fits in
    /// `u32::MAX` bytes; leaves the group as it is and returns `false` where
    /// one does not.
    pub fn try_post_process(&mut self) -> (done: bool)
        ensures
            done == all_fit(definition_views(old(self).packet_definition@)),
            done ==> definition_views(final(self).packet_definition@) == all_processed(
                definition_views(old(self).packet_definition@),
            ),
            !done ==> final(self).packet_definition == old(self).packet_definition,
            final(self).name == old(self).name,
            final(self).packet_multiplexer == old(self).packet_multiplexer,
    {
        if definitions_fit(&self.packet_definition) {
            self.packet_definition = expand_definitions(&self.packet_definition);
            true
        } else {
            false
        }
    }
}

/// A packet: its name and its fields in wire order.
#[derive(Debug, Clone, PartialEq, Eq)]
pub struct PacketDefinition {
    pub packet_name: String,
    pub sequence: Vec<FieldDefinition>,
    pub calculated_fields: Vec<CalculatedFields>,
}

/// The mathematical value of a [`PacketDefinition`]. Its calculated fields
/// hold nothing, so only their number is kept.
pub struct PacketDefinitionView {
    pub packet_name: Seq<char>,
    pub sequence: Seq<FieldDefinitionView>,
    pub calculated_fields: nat,
}

impl View for PacketDefinition {
    type V = PacketDefinitionView;

    open spec fn view(&self) -> PacketDefinitionView {
        PacketDefinitionView {
            packet_name: self.packet_name@,
            sequence: sequence_view(self.sequence@),
            calculated_fields: self.calculated_fields.len() as nat,
        }
    }
}

impl PacketDefinitionView {
    /// The packet with each field replaced by its copies.
    pub open spec fn processed(self) -> PacketDefinitionView {
        PacketDefinitionView { sequence: expanded(self.sequence), ..self }
    }

    /// The copies of the packet's fields take no more than `u32::MAX` bytes.
    pub open spec fn fits(self) -> bool {
        size_upto(self.sequence, self.sequence.len()) <= u32::MAX
    }
}

/// How the packet of a group is told from the bytes of its header: the
/// discriminator lies at `discriminator_begin` and is `discriminator_length`
/// bytes long.
#[derive(Debug, Clone, PartialEq, Eq)]
pub struct PacketMultiplexer {
    pub name: String,
    pub header_packet_definition: String,
    pub discriminator_begin: u32,
    pub discriminator_length: u32,
    pub choices: Vec<PacketMultiplexerChoice>,
}

impl PacketMultiplexer {
    /// Offset of the first byte after the discriminator.
    pub fn get_discriminator_end(&self) -> (end: u32)
        requires
            self.discriminator_begin + self.discriminator_length <= u32::MAX,
        ensures
            end == self.discriminator_begin + self.discriminator_length,
    {
        self.discriminator_begin + self.discriminator_length
    }
}

/// One choice of a multiplexer: the packet that a discriminator value selects.
#[derive(Debug, Clone, PartialEq, Eq)]
pub struct PacketMultiplexerChoice {
    pub value: String,
    pub packet: String,
}

/// A field of a packet definition.
#[derive(Debug, Clone, PartialEq, Eq)]
pub struct FieldDefinition {
    pub name: String,
    pub field_type: PacketFieldType,
    pub start_byte: u32,
    pub repeat: u32,
    pub length: u32,
    pub variable_name: String,
}

impl FieldDefinition {
    /// Offset of the first byte after one value of the field's type placed
    /// at the field's start.
    pub fn get_end_byte(&self) -> (end: u32)
        requires
            self.start_byte + self.field_type.size() <= u32::MAX,
        ensures
            end == self.start_byte + self.field_type.size(),
    {
        self.start_byte + self.field_type.get_size()
    }

    /// Whether the field is a signed 8-bit integer.
    pub fn is_integer_8(&self) -> (yes: bool)
        ensures
            yes == (self.field_type == PacketFieldType::Integer8),
    {
        self.field_type == PacketFieldType::Integer8
    }

    /// Whether the field is an unsigned 8-bit integer.
    pub fn is_unsigned_integer_8(&self) -> (yes: bool)
        ensures
            yes == (self.field_type == PacketFieldType::UnsignedInteger8),
    {
        self.field_type == PacketFieldType::UnsignedInteger8
    }

    /// Whether the field is a signed 16-bit integer.
    pub fn is_integer_16(&self) -> (yes: bool)
        ensures
            yes == (self.field_type == PacketFieldType::Integer16),
    {
        self.field_type == PacketFieldType::Integer16
    }

    /// Whether the field is an unsigned 16-bit integer.
    pub fn is_unsigned_integer_16(&self) -> (yes: bool)
        ensures
            yes == (self.field_type == PacketFieldType::UnsignedInteger16),
    {
        self.field_type == PacketFieldType::UnsignedInteger16
    }

    /// Whether the field is a signed 32-bit integer.
    pub fn is_integer_32(&self) -> (yes: bool)
        ensures
            yes == (self.field_type == PacketFieldType::Integer32),
    {
        self.field_type == PacketFieldType::Integer32
    }

    /// Whether the field is an unsigned 32-bit integer.
    pub fn is_unsigned_integer_32(&self) -> (yes: bool)
        ensures
            yes == (self.field_type == PacketFieldType::UnsignedInteger32),
    {
        self.field_type == PacketFieldType::UnsignedInteger32
    }

    /// Whether the field is a signed 64-bit integer.
    pub fn is_integer_64(&self) -> (yes: bool)
        ensures
            yes == (self.field_type == PacketFieldType::Integer64),
    {
        self.field_type == PacketFieldType::Integer64
    }

    /// Whether the field is an unsigned 64-bit integer.
    pub fn is_unsigned_integer_64(&self) -> (yes: bool)
        ensures
            yes == (self.field_type == PacketFieldType::UnsignedInteger64),
    {
        self.field_type == PacketFieldType::UnsignedInteger64
    }

    /// Whether the field is a 16-bit floating-point number.
    pub fn is_float_16(&self) -> (yes: bool)
        ensures
            yes == (self.field_type == PacketFieldType::Float16),
    {
        self.field_type == PacketFieldType::Float16
    }

    /// Whether the field is a 32-bit floating-point number.
    pub fn is_float_32(&self) -> (yes: bool)
        ensures
            yes == (self.field_type == PacketFieldType::Float32),
    {
        self.field_type == PacketFieldType::Float32
    }

    /// Whether the field is a 64-bit floating-point number.
    pub fn is_float_64(&self) -> (yes: bool)
        ensures
            yes == (self.field_type == PacketFieldType::Float64),
    {
        self.field_type == PacketFieldType::Float64
    }

    /// Whether the field is a MAC address.
    pub fn is_mac_address(&self) -> (yes: bool)
        ensures
            yes == (self.field_type == PacketFieldType::MacAddress),
    {
        self.field_type == PacketFieldType::MacAddress
    }

    /// Whether the field is a date and time.
    pub fn is_date_time(&self) -> (yes: bool)
        ensures
            yes == (self.field_type == PacketFieldType::DateTime),
    {
        self.field_type == PacketFieldType::DateTime
    }

    /// Whether the field is a truth value.
    pub fn is_boolean(&self) -> (yes: bool)
        ensures
            yes == (self.field_type == PacketFieldType::Boolean),
    {
        self.field_type == PacketFieldType::Boolean
    }

}

/// The mathematical value of a [`FieldDefinition`].
pub struct FieldDefinitionView {
    pub name: Seq<char>,
    pub field_type: PacketFieldType,
    pub start_byte: nat,
    pub repeat: nat,
    pub length: nat,
    pub variable_name: Seq<char>,
}

impl View for FieldDefinition {
    type V = FieldDefinitionView;

    open spec fn view(&self) -> FieldDefinitionView {
        FieldDefinitionView {
            name: self.name@,
            field_type: self.field_type,
            start_byte: self.start_byte as nat,
            repeat: self.repeat as nat,
            length: self.length as nat,
            variable_name: self.variable_name@,
        }
    }
}

/// The calculated fields of a packet definition. There is nothing to say of
/// one yet.
#[derive(Debug, Clone, Copy, PartialEq, Eq, Structural)]
pub struct CalculatedFields {}

/// The types that a field of a packet definition can have.
#[derive(Debug, Clone, Copy, PartialEq, Eq, Structural)]
pub enum PacketFieldType {
    Integer8,
    UnsignedInteger8,
    Integer16,
    UnsignedInteger16,
    Integer32,
    UnsignedInteger32,
    Integer64,
    UnsignedInteger64,
    Float16,
    Float32,
    Float64,
    MacAddress,
    DateTime,
    Boolean,
}

impl PacketFieldType {
    /// Width in bytes of a value of the type.
    pub open spec fn size(self) -> nat {
        match self {
            PacketFieldType::Integer8 => 1,
            PacketFieldType::UnsignedInteger8 => 1,
            PacketFieldType::Integer16 => 2,
            PacketFieldType::UnsignedInteger16 => 2,
            PacketFieldType::Integer32 => 4,
            PacketFieldType::UnsignedInteger32 => 4,
            PacketFieldType::Integer64 => 8,
            PacketFieldType::UnsignedInteger64 => 8,
            PacketFieldType::Float16 => 4,
            PacketFieldType::Float32 => 4,
            PacketFieldType::Float64 => 8,
            PacketFieldType::MacAddress => 6,
            PacketFieldType::DateTime => 4,
            PacketFieldType::Boolean => 1,
        }
    }

    /// Width in bytes of a value of the type.
    pub fn get_size(&self) -> (size: u32)
        ensures
            size == self.size(),
            1 <= size <= 8,
    {
        match self {
            PacketFieldType::Integer8 => 1,
            PacketFieldType::UnsignedInteger8 => 1,
            PacketFieldType::Integer16 => 2,
            PacketFieldType::UnsignedInteger16 => 2,
            PacketFieldType::Integer32 => 4,
            PacketFieldType::UnsignedInteger32 => 4,
            PacketFieldType::Integer64 => 8,
            PacketFieldType::UnsignedInteger64 => 8,
            PacketFieldType::Float16 => 4,
            PacketFieldType::Float32 => 4,
            PacketFieldType::Float64 => 8,
            PacketFieldType::MacAddress => 6,
            PacketFieldType::DateTime => 4,
            PacketFieldType::Boolean => 1,
        }
    }
}

/// The views of a list of fields.
pub open spec fn sequence_view(fields: Seq<FieldDefinition>) -> Seq<FieldDefinitionView> {
    Seq::new(fields.len(), |i: int| fields[i]@)
}

/// Number of fields that a field with the repeat count `repeat` expands
/// into: the count where it is more than one, one otherwise.
pub open spec fn copies(repeat: nat) -> nat {
    if repeat > 1 {
        repeat
    } else {
        1
    }
}

/// Copy `k` of `field`, where the first copy starts at `start`. Where the
/// field is repeated the copy has `k` at the end of its names.
pub open spec fn copy_of(field: FieldDefinitionView, start: nat, k: nat) -> FieldDefinitionView {
    let suffix = if field.repeat > 1 {
        decimal(k)
    } else {
        Seq::empty()
    };
    FieldDefinitionView {
        name: field.name + suffix,
        field_type: field.field_type,
        start_byte: start + k * field.field_type.size(),
        repeat: 1,
        length: field.field_type.size(),
        variable_name: camel_case(field.name) + suffix,
    }
}

/// Bytes taken by the first `count` fields with all their copies.
pub open spec fn size_upto(fields: Seq<FieldDefinitionView>, count: nat) -> nat
    decreases count,
{
    if count == 0 {
        0
    } else {
        size_upto(fields, (count - 1) as nat) + copies(fields[count - 1].repeat) * fields[count
            - 1].field_type.size()
    }
}

/// The first `count` copies of field `index`.
pub open spec fn copies_upto(fields: Seq<FieldDefinitionView>, index: int, count: nat) -> Seq<
    FieldDefinitionView,
> {
    Seq::new(count, |k: int| copy_of(fields[index], size_upto(fields, index as nat), k as nat))
}

/// The first `count` fields, each replaced by its copies, laid out one after
/// the other from offset zero.
pub open spec fn expanded_upto(fields: Seq<FieldDefinitionView>, count: nat) -> Seq<
    FieldDefinitionView,
>
    decreases count,
{
    if count == 0 {
        Seq::empty()
    } else {
        expanded_upto(fields, (count - 1) as nat) + copies_upto(
            fields,
            count - 1,
            copies(fields[count - 1].repeat),
        )
    }
}

/// The fields of a packet, each replaced by its copies.
pub open spec fn expanded(fields: Seq<FieldDefinitionView>) -> Seq<FieldDefinitionView> {
    expanded_upto(fields, fields.len())
}

/// The views of a list of packet definitions.
pub open spec fn definition_views(packets: Seq<PacketDefinition>) -> Seq<PacketDefinitionView> {
    Seq::new(packets.len(), |i: int| packets[i]@)
}

/// Every packet of `packets` fits.
pub open spec fn all_fit(packets: Seq<PacketDefinitionView>) -> bool {
    forall|i: int| 0 <= i < packets.len() ==> (#[trigger] packets[i]).fits()
}

/// The packets of `packets`, each with its fields replaced by their copies.
pub open spec fn all_processed(packets: Seq<PacketDefinitionView>) -> Seq<PacketDefinitionView> {
    Seq::new(packets.len(), |i: int| packets[i].processed())
}

proof fn lemma_size_upto_monotonic(fields: Seq<FieldDefinitionView>, lower: nat, upper: nat)
    requires
        lower <= upper,
    ensures
        size_upto(fields, lower) <= size_upto(fields, upper),
    decreases upper,
{
    if lower < upper {
        lemma_size_upto_monotonic(fields, lower, (upper - 1) as nat);
        assert(copies(fields[upper - 1].repeat) * fields[upper - 1].field_type.size() >= 0)
            by (nonlinear_arith);
    }
}

/// Whether the copies of the fields of `sequence` take no more than
/// `u32::MAX` bytes.
fn sequence_fits(sequence: &Vec<FieldDefinition>) -> (fits: bool)
    ensures
        fits == (size_upto(sequence_view(sequence@), sequence.len() as nat) <= u32::MAX),
{
    let ghost views = sequence_view(sequence@);
    let mut byte_counter: u32 = 0;
    let mut i: usize = 0;
    while i < sequence.len()
        invariant
            i <= sequence.len(),
            views == sequence_view(sequence@),
            byte_counter == size_upto(views, i as nat),
        decreases sequence.len() - i,
    {
        let s = &sequence[i];
        let count: u32 = if s.repeat > 1 {
            s.repeat
        } else {
            1
        };
        proof {
            lemma_size_upto_monotonic(views, (i + 1) as nat, sequence.len() as nat);
        }
        let total: u32 = match count.checked_mul(s.field_type.get_size()) {
            Some(total) => total,
            None => { return false; },
        };
        byte_counter = match byte_counter.checked_add(total) {
            Some(sum) => sum,
            None => { return false; },
        };
        i += 1;
    }
    true
}

/// The fields of `sequence`, each replaced by its copies and laid out from
/// offset zero.
fn expand_sequence(sequence: &Vec<FieldDefinition>) -> (fields: Vec<FieldDefinition>)
    requires
        size_upto(sequence_view(sequence@), sequence.len() as nat) <= u32::MAX,
    ensures
        sequence_view(fields@) == expanded(sequence_view(sequence@)),
{
    let ghost views = sequence_view(sequence@);
    let mut fields: Vec<FieldDefinition> = Vec::new();
    let mut byte_counter: u32 = 0;
    let mut i: usize = 0;
    while i < sequence.len()
        invariant
            i <= sequence.len(),
            views == sequence_view(sequence@),
            size_upto(views, sequence.len() as nat) <= u32::MAX,
            byte_counter == size_upto(views, i as nat),
            sequence_view(fields@) == expanded_upto(views, i as nat),
        decreases sequence.len() - i,
    {
        let s = &sequence[i];
        let type_size: u32 = s.field_type.get_size();
        let count: u32 = if s.repeat > 1 {
            s.repeat
        } else {
            1
        };
        proof {
            lemma_size_upto_monotonic(views, (i + 1) as nat, sequence.len() as nat);
        }
        let camel = CaseWrapper(s.name.clone()).to_camel_case();
        let ghost before = sequence_view(fields@);
        let ghost start = byte_counter;
        let mut k: u32 = 0;
        while k < count
            invariant
                k <= count,
                i < sequence.len(),
                views == sequence_view(sequence@),
                views[i as int] == s@,
                count == copies(s@.repeat),
                type_size == s.field_type.size(),
                camel@ == camel_case(s.name@),
                start == size_upto(views, i as nat),
                byte_counter == start + k * type_size,
                start + count * type_size <= u32::MAX,
                sequence_view(fields@) == before + copies_upto(views, i as int, k as nat),
            decreases count - k,
        {
            assert((k + 1) * type_size <= count * type_size) by (nonlinear_arith)
                requires
                    k + 1 <= count,
                    type_size >= 0,
            ;
            assert((k + 1) * type_size == k * type_size + type_size) by (nonlinear_arith);
            let mut name = s.name.clone();
            let mut variable_name = camel.clone();
            if s.repeat > 1 {
                let digits = decimal_string(k as u64);
                name.append(digits.as_str());
                variable_name.append(digits.as_str());
            }
            let new_def = FieldDefinition {
                length: type_size,
                name,
                repeat: 1,
                start_byte: byte_counter,
                field_type: s.field_type,
                variable_name,
            };
            let ghost earlier = sequence_view(fields@);
            fields.push(new_def);
            assert(sequence_view(fields@) =~= earlier.push(new_def@));
            byte_counter = byte_counter + type_size;
            k += 1;
        }
        i += 1;
    }
    fields
}

/// Whether every packet of `packets` fits.
fn definitions_fit(packets: &Vec<PacketDefinition>) -> (fit: bool)
    ensures
        fit == all_fit(definition_views(packets@)),
{
    let ghost views = definition_views(packets@);
    let mut i: usize = 0;
    while i < packets.len()
        invariant
            i <= packets.len(),
            views == definition_views(packets@),
            forall|k: int| 0 <= k < i ==> (#[trigger] views[k]).fits(),
        decreases packets.len() - i,
    {
        if !sequence_fits(&packets[i].sequence) {
            assert(!views[i as int].fits());
            return false;
        }
        i += 1;
    }
    true
}

/// The packets of `packets` with their fields expanded.
fn expand_definitions(packets: &Vec<PacketDefinition>) -> (processed: Vec<PacketDefinition>)
    requires
        all_fit(definition_views(packets@)),
    ensures
        definition_views(processed@) == all_processed(definition_views(packets@)),
{
    let ghost views = definition_views(packets@);
    let mut processed: Vec<PacketDefinition> = Vec::new();
    let mut i: usize = 0;
    while i < packets.len()
        invariant
            i <= packets.len(),
            views == definition_views(packets@),
            all_fit(views),
            processed.len() == i,
            forall|k: int| 0 <= k < i ==> processed[k]@ == views[k].processed(),
        decreases packets.len() - i,
    {
        let p = &packets[i];
        assert(views[i as int].fits());
        let sequence = expand_sequence(&p.sequence);
        let mut calculated_fields: Vec<CalculatedFields> = Vec::new();
        let mut k: usize = 0;
        while k < p.calculated_fields.len()
            invariant
                k <= p.calculated_fields.len(),
                calculated_fields.len() == k,
            decreases p.calculated_fields.len() - k,
        {
            calculated_fields.push(CalculatedFields {  });
            k += 1;
        }
        processed.push(
            PacketDefinition { packet_name: p.packet_name.clone(), sequence, calculated_fields },
        );
        i += 1;
    }
    processed
}

} // verus!
