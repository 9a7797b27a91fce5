//! The emitters: from packet definitions to source text in a target
//! language.
//!
//! Every target is written by the same routine, which walks the fields of a
//! packet and the slots that they expand into. What differs between targets
//! is held in a [`Dialect`]: the templates of the declarations and of the
//! statements, and the names of the types and operators. A template is text
//! in which `$` and a letter stand for a value:
//!
//! | key  | value                                         |
//! |------|-----------------------------------------------|
//! | `$N` | name of the packet                            |
//! | `$F` | name of the field                             |
//! | `$P` | name of the field in Pascal case              |
//! | `$K` | name of the field in camel case               |
//! | `$T` | name of the field's type in the target        |
//! | `$W` | name of the unsigned type that holds the bits |
//! | `$L` | length of the array                           |
//! | `$S` | size of the packet in bytes                   |
//! | `$I` | index of the byte in the buffer               |
//! | `$H` | number of bits by which the byte is shifted   |
//! | `$E` | index of the element in its array             |
//! | `$A` `$B` `$C` | texts made before, such as operands |
//! | `$$` | a dollar sign                                 |
//!
//! A slot of one byte is copied as it stands. A wider slot is written byte
//! by byte, byte `k` of a slot at `offset` being `(value >> (8 * k)) & 0xFF`
//! at index `offset + k`, and read back by OR-ing the bytes shifted to their
//! places: the byte order is little-endian in every target.
//!
//! No text is made for what cannot be written in full. A packet without a
//! codec description, and a field that is a MAC address, give an error in
//! place of the text, never a text with something left out.

pub mod c_generator;
pub mod go_generator;
pub mod net_generator;
pub mod python_generator;
pub mod rust_generator;
pub mod zig_generator;

use crate::codec::Endianness;
use crate::ir::{
    build_codec, codec_of, governing_expr, holds_aggregate, is_name_taken,
    lemma_aggregate_has_no_codec, name_taken, types_of, CalculatedCodec, CalculatedCodecView,
    CodecError, CodecErrorView, CodecExpr, CodecExprView,
};
use crate::layout::{lemma_total_length_monotonic, lemma_total_length_step, offset_of, total_length};
use crate::models::parsing_models::{
    BinaryOp, PacketExpr, PacketExprView, PrimitiveType, TypeExpr, TypeExprView, TypeNode,
};
use crate::slots::{field_slots, slots_of, slots_upto, SlotView};
use crate::text::{decimal, decimal_string, push_decimal, to_chars};
use crate::utilities::{camel_case, pascal_case, CaseWrapper, Casing};
use vstd::prelude::*;
use vstd::string::*;

verus! {

/// What is particular to one target language.
#[derive(Debug, Clone, Copy)]
pub struct Dialect {
    /// What stands before the first packet.
    pub header: &'static str,
    /// Opens the type of a packet.
    pub type_open: &'static str,
    /// Declares a scalar field.
    pub scalar_field: &'static str,
    /// Declares an array field.
    pub array_field: &'static str,
    /// Declares a calculated field.
    pub calculated_field: &'static str,
    /// Closes the type of a packet.
    pub type_close: &'static str,
    /// Opens the function that writes a packet.
    pub serialize_open: &'static str,
    /// Names a field before the statements that write the packet.
    pub write_prologue: &'static str,
    /// Closes the function that writes a packet.
    pub serialize_close: &'static str,
    /// Opens the function that reads a packet.
    pub deserialize_open: &'static str,
    /// Stands between the statements that read a packet and what builds it.
    pub builders_open: &'static str,
    /// Hands a scalar field that was read to the packet.
    pub scalar_builder: &'static str,
    /// Starts handing an array field that was read to the packet.
    pub array_builder_open: &'static str,
    /// Names one element of an array field that was read.
    pub array_builder_item: &'static str,
    /// Stands between two elements of an array field that was read.
    pub array_builder_separator: &'static str,
    /// Ends handing an array field that was read to the packet.
    pub array_builder_close: &'static str,
    /// Hands a calculated field to the packet.
    pub calculated_builder: &'static str,
    /// Closes the function that reads a packet.
    pub deserialize_close: &'static str,
    /// Names a scalar field where it is written to the buffer.
    pub write_scalar_accessor: &'static str,
    /// Names an element of an array field where it is written to the buffer.
    pub write_element_accessor: &'static str,
    /// Names a scalar field where it is read from the buffer.
    pub read_scalar_accessor: &'static str,
    /// Names an element of an array field where it is read from the buffer.
    pub read_element_accessor: &'static str,
    /// Copies an unsigned slot of one byte into the buffer.
    pub byte_write: &'static str,
    /// Copies a signed slot of one byte into the buffer.
    pub signed_byte_write: &'static str,
    /// Copies an unsigned slot of one byte out of the buffer.
    pub byte_read: &'static str,
    /// Copies a signed slot of one byte out of the buffer.
    pub signed_byte_read: &'static str,
    /// Takes the bits of an integer slot that is about to be written.
    pub integer_write_open: &'static str,
    /// Takes the bits of a floating-point slot that is about to be written.
    pub float_write_open: &'static str,
    /// Writes one byte of a slot.
    pub write_byte: &'static str,
    /// Ends the writing of a slot.
    pub write_close: &'static str,
    /// Starts the reading of an integer slot.
    pub integer_read_open: &'static str,
    /// Starts the reading of a floating-point slot.
    pub float_read_open: &'static str,
    /// Reads one byte of a slot.
    pub read_byte: &'static str,
    /// Stores the bits read as an integer slot.
    pub integer_read_close: &'static str,
    /// Stores the bits read as a floating-point slot.
    pub float_read_close: &'static str,
    /// Names a scalar field in an expression.
    pub scalar_reference: &'static str,
    /// Names an element of an array field in an expression.
    pub element_reference: &'static str,
    /// An unsigned integer literal.
    pub unsigned_literal: &'static str,
    /// A signed integer literal.
    pub signed_literal: &'static str,
    /// A floating-point literal.
    pub float_literal: &'static str,
    /// An expression in parentheses.
    pub group: &'static str,
    /// Two operands joined by an operator.
    pub binary: &'static str,
    /// A power.
    pub power: &'static str,
    /// A conditional: `$A` is the predicate.
    pub select: &'static str,
    /// A square root.
    pub sqrt: &'static str,
    /// The smaller of two values.
    pub min: &'static str,
    /// The greater of two values.
    pub max: &'static str,
    /// Gives a calculated field its value.
    pub calculated_assign: &'static str,
    /// The operator of addition.
    pub op_plus: &'static str,
    /// The operator of subtraction.
    pub op_minus: &'static str,
    /// The operator of multiplication.
    pub op_mult: &'static str,
    /// The operator of division.
    pub op_div: &'static str,
    /// The operator of greater than.
    pub op_gt: &'static str,
    /// The operator of less than.
    pub op_lt: &'static str,
    /// The operator of greater than or equal.
    pub op_gte: &'static str,
    /// The operator of less than or equal.
    pub op_lte: &'static str,
    /// The operator of equality.
    pub op_equals: &'static str,
    /// The operator of inequality.
    pub op_not_equals: &'static str,
    /// The operator of conjunction.
    pub op_and: &'static str,
    /// The operator of disjunction.
    pub op_or: &'static str,
    /// The type that holds a value declared `int8`.
    pub type_int8: &'static str,
    /// The type that holds a value declared `uint8`.
    pub type_uint8: &'static str,
    /// The type that holds a value declared `int16`.
    pub type_int16: &'static str,
    /// The type that holds a value declared `uint16`.
    pub type_uint16: &'static str,
    /// The type that holds a value declared `int32`.
    pub type_int32: &'static str,
    /// The type that holds a value declared `uint32`.
    pub type_uint32: &'static str,
    /// The type that holds a value declared `int64`.
    pub type_int64: &'static str,
    /// The type that holds a value declared `uint64`.
    pub type_uint64: &'static str,
    /// The type that holds a value declared `float32`.
    pub type_float32: &'static str,
    /// The type that holds a value declared `float64`.
    pub type_float64: &'static str,
    /// The unsigned type of 1 byte.
    pub wide1: &'static str,
    /// The unsigned type of 2 bytes.
    pub wide2: &'static str,
    /// The unsigned type of 4 bytes.
    pub wide4: &'static str,
    /// The unsigned type of 8 bytes.
    pub wide8: &'static str,
}

/// The values that the keys of a template stand for.
pub struct Bindings<'a> {
    pub name: &'a str,
    pub field: &'a str,
    pub pascal: &'a str,
    pub camel: &'a str,
    pub kind: &'a str,
    pub wide: &'a str,
    pub length: usize,
    pub total: usize,
    pub index: usize,
    pub shift: usize,
    pub element: usize,
    pub first: &'a str,
    pub second: &'a str,
    pub third: &'a str,
}

/// The values of [`Bindings`] as texts and numbers.
pub struct BindingsView {
    pub name: Seq<char>,
    pub field: Seq<char>,
    pub pascal: Seq<char>,
    pub camel: Seq<char>,
    pub kind: Seq<char>,
    pub wide: Seq<char>,
    pub length: nat,
    pub total: nat,
    pub index: nat,
    pub shift: nat,
    pub element: nat,
    pub first: Seq<char>,
    pub second: Seq<char>,
    pub third: Seq<char>,
}

impl<'a> View for Bindings<'a> {
    type V = BindingsView;

    open spec fn view(&self) -> BindingsView {
        BindingsView {
            name: self.name@,
            field: self.field@,
            pascal: self.pascal@,
            camel: self.camel@,
            kind: self.kind@,
            wide: self.wide@,
            length: self.length as nat,
            total: self.total as nat,
            index: self.index as nat,
            shift: self.shift as nat,
            element: self.element as nat,
            first: self.first@,
            second: self.second@,
            third: self.third@,
        }
    }
}

/// Bindings in which every text is empty and every number zero.
pub open spec fn no_bindings() -> BindingsView {
    BindingsView {
        name: Seq::empty(),
        field: Seq::empty(),
        pascal: Seq::empty(),
        camel: Seq::empty(),
        kind: Seq::empty(),
        wide: Seq::empty(),
        length: 0,
        total: 0,
        index: 0,
        shift: 0,
        element: 0,
        first: Seq::empty(),
        second: Seq::empty(),
        third: Seq::empty(),
    }
}

/// Bindings in which every text is empty and every number zero.
pub fn empty_bindings() -> (bindings: Bindings<'static>)
    ensures
        bindings@ == no_bindings(),
{
    let bindings = Bindings {
        name: "",
        field: "",
        pascal: "",
        camel: "",
        kind: "",
        wide: "",
        length: 0,
        total: 0,
        index: 0,
        shift: 0,
        element: 0,
        first: "",
        second: "",
        third: "",
    };
    proof {
        reveal_strlit("");
        assert(bindings.name@ =~= Seq::<char>::empty());
    }
    bindings
}

/// The text that `$` and `key` stand for.
pub open spec fn substitute(key: char, bindings: BindingsView) -> Seq<char> {
    if key == 'N' {
        bindings.name
    } else if key == 'F' {
        bindings.field
    } else if key == 'P' {
        bindings.pascal
    } else if key == 'K' {
        bindings.camel
    } else if key == 'T' {
        bindings.kind
    } else if key == 'W' {
        bindings.wide
    } else if key == 'L' {
        decimal(bindings.length)
    } else if key == 'S' {
        decimal(bindings.total)
    } else if key == 'I' {
        decimal(bindings.index)
    } else if key == 'H' {
        decimal(bindings.shift)
    } else if key == 'E' {
        decimal(bindings.element)
    } else if key == 'A' {
        bindings.first
    } else if key == 'B' {
        bindings.second
    } else if key == 'C' {
        bindings.third
    } else if key == '$' {
        seq!['$']
    } else {
        seq!['$', key]
    }
}

/// The text of `template` from position `from` on, with every key replaced
/// by what it stands for.
pub open spec fn rendered_from(template: Seq<char>, from: int, bindings: BindingsView) -> Seq<
    char,
>
    decreases template.len() - from,
{
    if from < 0 || from >= template.len() {
        Seq::empty()
    } else if template[from] == '$' && from + 1 < template.len() {
        substitute(template[from + 1], bindings) + rendered_from(template, from + 2, bindings)
    } else {
        seq![template[from]] + rendered_from(template, from + 1, bindings)
    }
}

/// The text of `template` with every key replaced by what it stands for.
pub open spec fn rendered(template: Seq<char>, bindings: BindingsView) -> Seq<char> {
    rendered_from(template, 0, bindings)
}

/// Appends to `out` the text that `$` and `key` stand for.
fn push_substitute(out: &mut String, key: char, bindings: &Bindings)
    ensures
        final(out)@ == old(out)@ + substitute(key, bindings@),
{
    if key == 'N' {
        out.append(bindings.name);
    } else if key == 'F' {
        out.append(bindings.field);
    } else if key == 'P' {
        out.append(bindings.pascal);
    } else if key == 'K' {
        out.append(bindings.camel);
    } else if key == 'T' {
        out.append(bindings.kind);
    } else if key == 'W' {
        out.append(bindings.wide);
    } else if key == 'L' {
        push_decimal(out, bindings.length);
    } else if key == 'S' {
        push_decimal(out, bindings.total);
    } else if key == 'I' {
        push_decimal(out, bindings.index);
    } else if key == 'H' {
        push_decimal(out, bindings.shift);
    } else if key == 'E' {
        push_decimal(out, bindings.element);
    } else if key == 'A' {
        out.append(bindings.first);
    } else if key == 'B' {
        out.append(bindings.second);
    } else if key == 'C' {
        out.append(bindings.third);
    } else if key == '$' {
        out.push('$');
    } else {
        out.push('$');
        out.push(key);
    }
}

/// Writes out `template` with every key replaced by what it stands for.
pub fn render(template: &str, bindings: &Bindings) -> (text: String)
    ensures
        text@ == rendered(template@, bindings@),
{
    let chars = to_chars(template);
    let mut text = String::new();
    let mut i: usize = 0;
    while i < chars.len()
        invariant
            i <= chars.len(),
            chars@ == template@,
            text@ + rendered_from(chars@, i as int, bindings@) == rendered(template@, bindings@),
        decreases chars.len() - i,
    {
        if chars[i] == '$' && i + 1 < chars.len() {
            push_substitute(&mut text, chars[i + 1], bindings);
            i += 2;
        } else {
            text.push(chars[i]);
            i += 1;
        }
    }
    text
}

/// Why no source text could be made.
#[derive(Debug, Clone, PartialEq, Eq)]
pub enum GenerateError {
    /// The packet has no codec description.
    Codec(CodecError),
    /// The field has a type that no emitter can write or read: a MAC
    /// address. `packet` is empty where the field was given alone, without
    /// its packet.
    UnsupportedField { packet: String, field: String },
    /// The template engine refused the template or the values.
    Template { message: String },
}

/// [`GenerateError`] with its names as sequences of characters.
pub enum GenerateErrorView {
    Codec(CodecErrorView),
    UnsupportedField { packet: Seq<char>, field: Seq<char> },
    Template { message: Seq<char> },
}

impl View for GenerateError {
    type V = GenerateErrorView;

    open spec fn view(&self) -> GenerateErrorView {
        match self {
            GenerateError::Codec(error) => GenerateErrorView::Codec(error@),
            GenerateError::UnsupportedField { packet, field } => GenerateErrorView::UnsupportedField {
                packet: packet@,
                field: field@,
            },
            GenerateError::Template { message } => GenerateErrorView::Template {
                message: message@,
            },
        }
    }
}

/// The view of the outcome of making text.
pub open spec fn text_view(result: Result<String, GenerateError>) -> Result<
    Seq<char>,
    GenerateErrorView,
> {
    match result {
        Ok(text) => Ok(text@),
        Err(error) => Err(error@),
    }
}

/// Name of the type `primitive` in the target. A MAC address has none.
pub open spec fn type_text(dialect: Dialect, primitive: PrimitiveType) -> Seq<char> {
    match primitive {
        PrimitiveType::Int8 => dialect.type_int8@,
        PrimitiveType::UInt8 => dialect.type_uint8@,
        PrimitiveType::Int16 => dialect.type_int16@,
        PrimitiveType::UInt16 => dialect.type_uint16@,
        PrimitiveType::Int32 => dialect.type_int32@,
        PrimitiveType::UInt32 => dialect.type_uint32@,
        PrimitiveType::Int64 => dialect.type_int64@,
        PrimitiveType::UInt64 => dialect.type_uint64@,
        PrimitiveType::Float32 => dialect.type_float32@,
        PrimitiveType::Float64 => dialect.type_float64@,
        PrimitiveType::MacAddress => Seq::empty(),
    }
}

/// Name of the type `primitive` in the target.
pub fn type_keyword(dialect: &Dialect, primitive: PrimitiveType) -> (name: &'static str)
    ensures
        name@ == type_text(*dialect, primitive),
{
    match primitive {
        PrimitiveType::Int8 => dialect.type_int8,
        PrimitiveType::UInt8 => dialect.type_uint8,
        PrimitiveType::Int16 => dialect.type_int16,
        PrimitiveType::UInt16 => dialect.type_uint16,
        PrimitiveType::Int32 => dialect.type_int32,
        PrimitiveType::UInt32 => dialect.type_uint32,
        PrimitiveType::Int64 => dialect.type_int64,
        PrimitiveType::UInt64 => dialect.type_uint64,
        PrimitiveType::Float32 => dialect.type_float32,
        PrimitiveType::Float64 => dialect.type_float64,
        PrimitiveType::MacAddress => {
            proof {
                reveal_strlit("");
            }
            ""
        },
    }
}

/// Name in the target of the unsigned type that holds the bits of a slot of
/// `width` bytes.
pub open spec fn wide_text(dialect: Dialect, width: nat) -> Seq<char> {
    if width == 1 {
        dialect.wide1@
    } else if width == 2 {
        dialect.wide2@
    } else if width <= 4 {
        dialect.wide4@
    } else {
        dialect.wide8@
    }
}

/// Name in the target of the unsigned type that holds the bits of a slot of
/// `width` bytes.
pub fn wide_name(dialect: &Dialect, width: usize) -> (name: &'static str)
    ensures
        name@ == wide_text(*dialect, width as nat),
{
    if width == 1 {
        dialect.wide1
    } else if width == 2 {
        dialect.wide2
    } else if width <= 4 {
        dialect.wide4
    } else {
        dialect.wide8
    }
}

/// The operator `op` in the target. Powers have a template of their own.
pub open spec fn operator_text(dialect: Dialect, op: BinaryOp) -> Seq<char> {
    match op {
        BinaryOp::Plus => dialect.op_plus@,
        BinaryOp::Minus => dialect.op_minus@,
        BinaryOp::Mult => dialect.op_mult@,
        BinaryOp::Div => dialect.op_div@,
        BinaryOp::Gt => dialect.op_gt@,
        BinaryOp::Lt => dialect.op_lt@,
        BinaryOp::Gte => dialect.op_gte@,
        BinaryOp::Lte => dialect.op_lte@,
        BinaryOp::Equals => dialect.op_equals@,
        BinaryOp::NotEquals => dialect.op_not_equals@,
        BinaryOp::And => dialect.op_and@,
        BinaryOp::Or => dialect.op_or@,
        BinaryOp::Pow => Seq::empty(),
    }
}

/// The operator `op` in the target.
pub fn operator_name(dialect: &Dialect, op: BinaryOp) -> (name: &'static str)
    ensures
        name@ == operator_text(*dialect, op),
{
    match op {
        BinaryOp::Plus => dialect.op_plus,
        BinaryOp::Minus => dialect.op_minus,
        BinaryOp::Mult => dialect.op_mult,
        BinaryOp::Div => dialect.op_div,
        BinaryOp::Gt => dialect.op_gt,
        BinaryOp::Lt => dialect.op_lt,
        BinaryOp::Gte => dialect.op_gte,
        BinaryOp::Lte => dialect.op_lte,
        BinaryOp::Equals => dialect.op_equals,
        BinaryOp::NotEquals => dialect.op_not_equals,
        BinaryOp::And => dialect.op_and,
        BinaryOp::Or => dialect.op_or,
        BinaryOp::Pow => {
            proof {
                reveal_strlit("");
            }
            ""
        },
    }
}

/// Whether values of the type are floating-point numbers.
pub open spec fn is_float(primitive: PrimitiveType) -> bool {
    primitive == PrimitiveType::Float32 || primitive == PrimitiveType::Float64
}

/// Whether a value of type `primitive` takes one byte.
pub open spec fn is_byte(primitive: PrimitiveType) -> bool {
    primitive == PrimitiveType::UInt8 || primitive == PrimitiveType::Int8
}

/// The bindings that name a field: as it is written, in Pascal case and in
/// camel case.
pub open spec fn field_bindings(field: Seq<char>) -> BindingsView {
    BindingsView {
        field,
        pascal: pascal_case(field),
        camel: camel_case(field),
        ..no_bindings()
    }
}

/// How the target names the field `field`, or its element `element`, in the
/// function that writes the packet or in the one that reads it.
pub open spec fn accessor_text(
    dialect: Dialect,
    field: Seq<char>,
    element: Option<nat>,
    writing: bool,
) -> Seq<char> {
    match element {
        None => rendered(
            if writing {
                dialect.write_scalar_accessor@
            } else {
                dialect.read_scalar_accessor@
            },
            field_bindings(field),
        ),
        Some(k) => rendered(
            if writing {
                dialect.write_element_accessor@
            } else {
                dialect.read_element_accessor@
            },
            BindingsView { element: k, ..field_bindings(field) },
        ),
    }
}

/// The bindings of the templates of a slot: `$A` is the slot's name and `$I`
/// the index of its first byte.
pub open spec fn slot_bindings(
    dialect: Dialect,
    field: TypeExprView,
    element: Option<nat>,
    offset: nat,
    writing: bool,
) -> BindingsView {
    BindingsView {
        first: accessor_text(dialect, field.id, element, writing),
        kind: type_text(dialect, field.expr.primitive()),
        wide: wide_text(dialect, field.expr.element_width()),
        index: offset,
        ..field_bindings(field.id)
    }
}

/// The template that copies a slot of one byte.
pub open spec fn byte_template(dialect: Dialect, primitive: PrimitiveType, writing: bool) -> Seq<
    char,
> {
    if writing {
        if primitive == PrimitiveType::Int8 {
            dialect.signed_byte_write@
        } else {
            dialect.byte_write@
        }
    } else {
        if primitive == PrimitiveType::Int8 {
            dialect.signed_byte_read@
        } else {
            dialect.byte_read@
        }
    }
}

/// The statements for the first `count` bytes of a slot at `offset`: byte
/// `k` stands at index `offset + k` and is shifted by `8 * k` bits.
pub open spec fn byte_lines(
    template: Seq<char>,
    wide: Seq<char>,
    offset: nat,
    count: nat,
) -> Seq<char>
    decreases count,
{
    if count == 0 {
        Seq::empty()
    } else {
        byte_lines(template, wide, offset, (count - 1) as nat) + rendered(
            template,
            BindingsView {
                wide,
                index: (offset + count - 1) as nat,
                shift: (8 * (count - 1)) as nat,
                ..no_bindings()
            },
        )
    }
}

/// The statements that write the slot `element` of `field` at `offset`, byte
/// by byte.
pub open spec fn slot_serializer_text(
    dialect: Dialect,
    field: TypeExprView,
    element: Option<nat>,
    offset: nat,
) -> Seq<char> {
    let bindings = slot_bindings(dialect, field, element, offset, true);
    rendered(
        if is_float(field.expr.primitive()) {
            dialect.float_write_open@
        } else {
            dialect.integer_write_open@
        },
        bindings,
    ) + byte_lines(dialect.write_byte@, bindings.wide, offset, field.expr.element_width())
        + rendered(dialect.write_close@, bindings)
}

/// The statements that read the slot `element` of `field` at `offset`, byte
/// by byte.
pub open spec fn slot_deserializer_text(
    dialect: Dialect,
    field: TypeExprView,
    element: Option<nat>,
    offset: nat,
) -> Seq<char> {
    let bindings = slot_bindings(dialect, field, element, offset, false);
    rendered(
        if is_float(field.expr.primitive()) {
            dialect.float_read_open@
        } else {
            dialect.integer_read_open@
        },
        bindings,
    ) + byte_lines(dialect.read_byte@, bindings.wide, offset, field.expr.element_width())
        + rendered(
        if is_float(field.expr.primitive()) {
            dialect.float_read_close@
        } else {
            dialect.integer_read_close@
        },
        bindings,
    )
}

/// The statements for one slot: those that write it, or those that read it.
/// A slot of one byte is copied as it stands, between the buffer at index
/// `offset` and the slot.
pub open spec fn slot_text(
    dialect: Dialect,
    field: TypeExprView,
    element: Option<nat>,
    offset: nat,
    writing: bool,
) -> Seq<char> {
    if is_byte(field.expr.primitive()) {
        rendered(
            byte_template(dialect, field.expr.primitive(), writing),
            slot_bindings(dialect, field, element, offset, writing),
        )
    } else if writing {
        slot_serializer_text(dialect, field, element, offset)
    } else {
        slot_deserializer_text(dialect, field, element, offset)
    }
}

/// The index that names slot `k` of a field of type `node`: `k` for an
/// array, nothing for a scalar.
pub open spec fn element_of(node: TypeNode, k: nat) -> Option<nat> {
    if node.array_length() is Some {
        Some(k)
    } else {
        None
    }
}

/// The statements for the first `count` slots of `field`, which starts at
/// `offset`.
pub open spec fn elements_text(
    dialect: Dialect,
    field: TypeExprView,
    offset: nat,
    count: nat,
    writing: bool,
) -> Seq<char>
    decreases count,
{
    if count == 0 {
        Seq::empty()
    } else {
        elements_text(dialect, field, offset, (count - 1) as nat, writing) + slot_text(
            dialect,
            field,
            element_of(field.expr, (count - 1) as nat),
            (offset + (count - 1) * field.expr.element_width()) as nat,
            writing,
        )
    }
}

/// The statements for all the slots of `field`, which starts at `offset`.
pub open spec fn field_text(dialect: Dialect, field: TypeExprView, offset: nat, writing: bool)
    -> Seq<char> {
    elements_text(dialect, field, offset, field.expr.element_count(), writing)
}

/// The statements for the first `count` fields.
pub open spec fn fields_text(dialect: Dialect, fields: Seq<TypeExprView>, count: nat, writing: bool)
    -> Seq<char>
    decreases count,
{
    if count == 0 {
        Seq::empty()
    } else {
        fields_text(dialect, fields, (count - 1) as nat, writing) + field_text(
            dialect,
            fields[count - 1],
            offset_of(types_of(fields), count - 1),
            writing,
        )
    }
}

/// The statements for the first `count` of `slots`, each for its own field
/// and at its own offset.
pub open spec fn slots_text(
    dialect: Dialect,
    fields: Seq<TypeExprView>,
    slots: Seq<SlotView>,
    count: nat,
    writing: bool,
) -> Seq<char>
    decreases count,
{
    if count == 0 {
        Seq::empty()
    } else {
        slots_text(dialect, fields, slots, (count - 1) as nat, writing) + slot_text(
            dialect,
            fields[slots[count - 1].field_index as int],
            slots[count - 1].element_index,
            slots[count - 1].byte_offset,
            writing,
        )
    }
}

proof fn lemma_slots_text_prefix(
    dialect: Dialect,
    fields: Seq<TypeExprView>,
    a: Seq<SlotView>,
    b: Seq<SlotView>,
    count: nat,
    writing: bool,
)
    requires
        count <= a.len(),
    ensures
        slots_text(dialect, fields, a + b, count, writing) == slots_text(
            dialect,
            fields,
            a,
            count,
            writing,
        ),
    decreases count,
{
    if count > 0 {
        lemma_slots_text_prefix(dialect, fields, a, b, (count - 1) as nat, writing);
    }
}

proof fn lemma_slots_text_append(
    dialect: Dialect,
    fields: Seq<TypeExprView>,
    a: Seq<SlotView>,
    b: Seq<SlotView>,
    count: nat,
    writing: bool,
)
    requires
        count <= b.len(),
    ensures
        slots_text(dialect, fields, a + b, a.len() + count, writing) == slots_text(
            dialect,
            fields,
            a,
            a.len(),
            writing,
        ) + slots_text(dialect, fields, b, count, writing),
    decreases count,
{
    if count == 0 {
        lemma_slots_text_prefix(dialect, fields, a, b, a.len(), writing);
    } else {
        lemma_slots_text_append(dialect, fields, a, b, (count - 1) as nat, writing);
    }
}

proof fn lemma_field_follows_slots(
    dialect: Dialect,
    fields: Seq<TypeExprView>,
    index: int,
    order: Endianness,
    count: nat,
    writing: bool,
)
    requires
        0 <= index < fields.len(),
        count <= fields[index].expr.element_count(),
    ensures
        elements_text(
            dialect,
            fields[index],
            offset_of(types_of(fields), index),
            count,
            writing,
        ) == slots_text(
            dialect,
            fields,
            field_slots(types_of(fields), index, order),
            count,
            writing,
        ),
    decreases count,
{
    if count > 0 {
        lemma_field_follows_slots(dialect, fields, index, order, (count - 1) as nat, writing);
    }
}

proof fn lemma_fields_follow_slots_upto(
    dialect: Dialect,
    fields: Seq<TypeExprView>,
    order: Endianness,
    count: nat,
    writing: bool,
)
    requires
        count <= fields.len(),
    ensures
        fields_text(dialect, fields, count, writing) == slots_text(
            dialect,
            fields,
            slots_upto(types_of(fields), count, order),
            slots_upto(types_of(fields), count, order).len(),
            writing,
        ),
    decreases count,
{
    if count > 0 {
        let types = types_of(fields);
        let before = slots_upto(types, (count - 1) as nat, order);
        let slots = field_slots(types, count - 1, order);
        lemma_fields_follow_slots_upto(dialect, fields, order, (count - 1) as nat, writing);
        lemma_field_follows_slots(dialect, fields, count - 1, order, slots.len(), writing);
        lemma_slots_text_append(dialect, fields, before, slots, slots.len(), writing);
    }
}

/// The emitters follow the table of slots: the statements that write the
/// fields of a packet, and those that read them, are the statements for the
/// slots of the packet in wire order, each for the element and at the offset
/// that the table gives. The writer and the reader so move the same bytes
/// for every slot, and where the table tiles the packet their statements
/// cover its bytes without a gap and without an overlap.
pub proof fn lemma_fields_follow_slots(
    dialect: Dialect,
    packet: PacketExprView,
    order: Endianness,
    writing: bool,
)
    ensures
        fields_text(dialect, packet.fields, packet.fields.len(), writing) == slots_text(
            dialect,
            packet.fields,
            slots_of(packet, order),
            slots_of(packet, order).len(),
            writing,
        ),
{
    lemma_fields_follow_slots_upto(dialect, packet.fields, order, packet.fields.len(), writing);
}

/// The declaration of `field` in the packet's type.
pub open spec fn declaration_text(dialect: Dialect, field: TypeExprView) -> Seq<char> {
    match field.expr.array_length() {
        Some(length) => rendered(
            dialect.array_field@,
            BindingsView {
                kind: type_text(dialect, field.expr.primitive()),
                length: length as nat,
                ..field_bindings(field.id)
            },
        ),
        None => rendered(
            dialect.scalar_field@,
            BindingsView {
                kind: type_text(dialect, field.expr.primitive()),
                ..field_bindings(field.id)
            },
        ),
    }
}

/// The declarations of the first `count` fields.
pub open spec fn declarations_text(dialect: Dialect, fields: Seq<TypeExprView>, count: nat)
    -> Seq<char>
    decreases count,
{
    if count == 0 {
        Seq::empty()
    } else {
        declarations_text(dialect, fields, (count - 1) as nat) + declaration_text(
            dialect,
            fields[count - 1],
        )
    }
}

/// The expression `e` in the target.
pub open spec fn expr_text(dialect: Dialect, e: CodecExprView) -> Seq<char>
    decreases e,
{
    match e {
        CodecExprView::Unsigned(v) => rendered(
            dialect.unsigned_literal@,
            BindingsView { first: decimal(v as nat), ..no_bindings() },
        ),
        CodecExprView::Signed(v) => if v < 0 {
            rendered(
                dialect.signed_literal@,
                BindingsView { first: seq!['-'] + decimal((-v) as nat), ..no_bindings() },
            )
        } else {
            rendered(
                dialect.signed_literal@,
                BindingsView { first: decimal(v as nat), ..no_bindings() },
            )
        },
        CodecExprView::Float(text) => rendered(
            dialect.float_literal@,
            BindingsView { first: text, ..no_bindings() },
        ),
        CodecExprView::Slot { index, field, element } => match element {
            Some(k) => rendered(
                dialect.element_reference@,
                BindingsView { element: k as nat, ..field_bindings(field) },
            ),
            None => rendered(dialect.scalar_reference@, field_bindings(field)),
        },
        CodecExprView::Group(inner) => rendered(
            dialect.group@,
            BindingsView { first: expr_text(dialect, *inner), ..no_bindings() },
        ),
        CodecExprView::Binary(op, l, r) => if op == BinaryOp::Pow {
            rendered(
                dialect.power@,
                BindingsView {
                    first: expr_text(dialect, *l),
                    second: expr_text(dialect, *r),
                    ..no_bindings()
                },
            )
        } else {
            rendered(
                dialect.binary@,
                BindingsView {
                    first: expr_text(dialect, *l),
                    second: expr_text(dialect, *r),
                    third: operator_text(dialect, op),
                    ..no_bindings()
                },
            )
        },
        CodecExprView::Select(c, t, o) => rendered(
            dialect.select@,
            BindingsView {
                first: expr_text(dialect, *c),
                second: expr_text(dialect, *t),
                third: expr_text(dialect, *o),
                ..no_bindings()
            },
        ),
        CodecExprView::Sqrt(inner) => rendered(
            dialect.sqrt@,
            BindingsView { first: expr_text(dialect, *inner), ..no_bindings() },
        ),
        CodecExprView::Min(l, r) => rendered(
            dialect.min@,
            BindingsView {
                first: expr_text(dialect, *l),
                second: expr_text(dialect, *r),
                ..no_bindings()
            },
        ),
        CodecExprView::Max(l, r) => rendered(
            dialect.max@,
            BindingsView {
                first: expr_text(dialect, *l),
                second: expr_text(dialect, *r),
                ..no_bindings()
            },
        ),
    }
}

/// The bindings of the templates of a calculated field: `$A` is its
/// expression in the target.
pub open spec fn calculated_bindings(dialect: Dialect, field: CalculatedCodecView)
    -> BindingsView {
    BindingsView {
        kind: type_text(dialect, field.data_type),
        first: expr_text(dialect, field.expr),
        ..field_bindings(field.name)
    }
}

/// The statement that gives a calculated field its value.
pub open spec fn calculated_assign_text(dialect: Dialect, field: CalculatedCodecView) -> Seq<
    char,
> {
    rendered(dialect.calculated_assign@, calculated_bindings(dialect, field))
}

/// The text of `template` for each of the first `count` calculated fields in
/// turn.
pub open spec fn calculated_text(
    dialect: Dialect,
    template: Seq<char>,
    fields: Seq<CalculatedCodecView>,
    count: nat,
) -> Seq<char>
    decreases count,
{
    if count == 0 {
        Seq::empty()
    } else {
        calculated_text(dialect, template, fields, (count - 1) as nat) + rendered(
            template,
            calculated_bindings(dialect, fields[count - 1]),
        )
    }
}

/// What names the field `field` before the statements that write the
/// packet.
pub open spec fn prologue_text(dialect: Dialect, field: TypeExprView) -> Seq<char> {
    rendered(
        dialect.write_prologue@,
        BindingsView {
            kind: type_text(dialect, field.expr.primitive()),
            ..field_bindings(field.id)
        },
    )
}

/// What names the first `count` fields before the statements that write the
/// packet.
pub open spec fn prologues_text(dialect: Dialect, fields: Seq<TypeExprView>, count: nat) -> Seq<
    char,
>
    decreases count,
{
    if count == 0 {
        Seq::empty()
    } else {
        prologues_text(dialect, fields, (count - 1) as nat) + prologue_text(
            dialect,
            fields[count - 1],
        )
    }
}

/// The names of the first `count` elements of the array field `field` as
/// they were read, with a separator between each two.
pub open spec fn builder_items_text(dialect: Dialect, field: Seq<char>, count: nat) -> Seq<char>
    decreases count,
{
    if count == 0 {
        Seq::empty()
    } else {
        builder_items_text(dialect, field, (count - 1) as nat) + if count > 1 {
            rendered(dialect.array_builder_separator@, field_bindings(field))
        } else {
            Seq::empty()
        } + rendered(
            dialect.array_builder_item@,
            BindingsView { element: (count - 1) as nat, ..field_bindings(field) },
        )
    }
}

/// What hands the field `field`, once read, to the packet.
pub open spec fn builder_text(dialect: Dialect, field: TypeExprView) -> Seq<char> {
    let bindings = BindingsView {
        kind: type_text(dialect, field.expr.primitive()),
        length: field.expr.element_count(),
        ..field_bindings(field.id)
    };
    match field.expr.array_length() {
        Some(length) => rendered(dialect.array_builder_open@, bindings) + builder_items_text(
            dialect,
            field.id,
            length as nat,
        ) + rendered(dialect.array_builder_close@, bindings),
        None => rendered(dialect.scalar_builder@, bindings),
    }
}

/// What hands the first `count` fields, once read, to the packet.
pub open spec fn builders_text(dialect: Dialect, fields: Seq<TypeExprView>, count: nat) -> Seq<
    char,
>
    decreases count,
{
    if count == 0 {
        Seq::empty()
    } else {
        builders_text(dialect, fields, (count - 1) as nat) + builder_text(
            dialect,
            fields[count - 1],
        )
    }
}

/// The type of a packet: its fields alone where `just_fields` holds, the
/// whole declaration otherwise.
pub open spec fn struct_text(
    dialect: Dialect,
    packet: PacketExprView,
    calculated: Seq<CalculatedCodecView>,
    just_fields: bool,
) -> Seq<char> {
    if just_fields {
        declarations_text(dialect, packet.fields, packet.fields.len())
    } else {
        rendered(dialect.type_open@, BindingsView { name: packet.name, ..no_bindings() })
            + declarations_text(dialect, packet.fields, packet.fields.len()) + calculated_text(
            dialect,
            dialect.calculated_field@,
            calculated,
            calculated.len(),
        ) + rendered(dialect.type_close@, BindingsView { name: packet.name, ..no_bindings() })
    }
}

/// The statements that read every field of a packet and then give every
/// calculated field its value.
pub open spec fn deserializers_text(
    dialect: Dialect,
    packet: PacketExprView,
    calculated: Seq<CalculatedCodecView>,
) -> Seq<char> {
    fields_text(dialect, packet.fields, packet.fields.len(), false) + calculated_text(
        dialect,
        dialect.calculated_assign@,
        calculated,
        calculated.len(),
    )
}

/// What hands the fields and the calculated fields of a packet, once read,
/// to the packet.
pub open spec fn deserializer_builders_text(
    dialect: Dialect,
    packet: PacketExprView,
    calculated: Seq<CalculatedCodecView>,
) -> Seq<char> {
    rendered(dialect.builders_open@, BindingsView { name: packet.name, ..no_bindings() })
        + builders_text(dialect, packet.fields, packet.fields.len()) + calculated_text(
        dialect,
        dialect.calculated_builder@,
        calculated,
        calculated.len(),
    )
}

/// The function that writes a packet and the function that reads it.
pub open spec fn functions_text(
    dialect: Dialect,
    packet: PacketExprView,
    calculated: Seq<CalculatedCodecView>,
) -> Seq<char> {
    let bindings = BindingsView {
        name: packet.name,
        total: packet.total_length(),
        ..no_bindings()
    };
    rendered(dialect.serialize_open@, bindings) + prologues_text(
        dialect,
        packet.fields,
        packet.fields.len(),
    ) + fields_text(dialect, packet.fields, packet.fields.len(), true) + rendered(
        dialect.serialize_close@,
        bindings,
    ) + rendered(dialect.deserialize_open@, bindings) + deserializers_text(
        dialect,
        packet,
        calculated,
    ) + deserializer_builders_text(dialect, packet, calculated) + rendered(
        dialect.deserialize_close@,
        bindings,
    )
}

/// Index of the first field from `from` on that is a MAC address.
pub open spec fn unsupported_from(fields: Seq<TypeExprView>, from: nat) -> Option<nat>
    decreases fields.len() - from,
{
    if from >= fields.len() {
        None
    } else if fields[from as int].expr.primitive() == PrimitiveType::MacAddress {
        Some(from)
    } else {
        unsupported_from(fields, from + 1)
    }
}

/// `text`, which was made for the field `field` alone: there is none where
/// the field is a MAC address, and the error then names the field and no
/// packet.
pub open spec fn lone_field_text(field: TypeExprView, text: Seq<char>) -> Result<
    Seq<char>,
    GenerateErrorView,
> {
    if field.expr.primitive() == PrimitiveType::MacAddress {
        Err(GenerateErrorView::UnsupportedField { packet: Seq::empty(), field: field.id })
    } else {
        Ok(text)
    }
}

/// `text`, which was made for `packet`: there is none where a field of the
/// packet is a MAC address, and the error then names the first such field.
pub open spec fn supported_text(packet: PacketExprView, text: Seq<char>) -> Result<
    Seq<char>,
    GenerateErrorView,
> {
    match unsupported_from(packet.fields, 0) {
        Some(index) => Err(
            GenerateErrorView::UnsupportedField {
                packet: packet.name,
                field: packet.fields[index as int].id,
            },
        ),
        None => Ok(text),
    }
}

/// The text for one packet: its type and its two functions. There is none
/// where the packet has no codec description, and none where a field is a
/// MAC address.
pub open spec fn packet_text(dialect: Dialect, packet: PacketExprView) -> Result<
    Seq<char>,
    GenerateErrorView,
> {
    match codec_of(packet, Endianness::Little) {
        Err(error) => Err(GenerateErrorView::Codec(error)),
        Ok(codec) => supported_text(
            packet,
            struct_text(dialect, packet, codec.calculated, false) + functions_text(
                dialect,
                packet,
                codec.calculated,
            ),
        ),
    }
}

/// The text for packet `index` of a definition file. There is none where an
/// earlier packet has the same name.
pub open spec fn unit_packet_text(dialect: Dialect, packets: Seq<PacketExprView>, index: int)
    -> Result<Seq<char>, GenerateErrorView> {
    if name_taken(packets, index) {
        Err(
            GenerateErrorView::Codec(
                CodecErrorView::DuplicateIdentifier {
                    packet: packets[index].name,
                    identifier: packets[index].name,
                },
            ),
        )
    } else {
        packet_text(dialect, packets[index])
    }
}

/// A part of the text of `packet` that depends on its calculated fields:
/// the part itself where the packet has a codec description and no field
/// that is a MAC address, the error that says why there is none otherwise.
pub open spec fn part_text(
    packet: PacketExprView,
    part: spec_fn(Seq<CalculatedCodecView>) -> Seq<char>,
) -> Result<Seq<char>, GenerateErrorView> {
    match codec_of(packet, Endianness::Little) {
        Err(error) => Err(GenerateErrorView::Codec(error)),
        Ok(codec) => supported_text(packet, part(codec.calculated)),
    }
}

/// The texts of the first `count` packets, one after the other, or the
/// error of the first packet that has no text.
pub open spec fn packets_text(dialect: Dialect, packets: Seq<PacketExprView>, count: nat)
    -> Result<Seq<char>, GenerateErrorView>
    decreases count,
{
    if count == 0 {
        Ok(Seq::empty())
    } else {
        match packets_text(dialect, packets, (count - 1) as nat) {
            Ok(before) => match unit_packet_text(dialect, packets, count - 1) {
                Ok(text) => Ok(before + text),
                Err(error) => Err(error),
            },
            Err(error) => Err(error),
        }
    }
}

/// The source text for `packets`: the header, then each packet in turn.
pub open spec fn generated(dialect: Dialect, packets: Seq<PacketExprView>) -> Result<
    Seq<char>,
    GenerateErrorView,
> {
    match packets_text(dialect, packets, packets.len()) {
        Ok(text) => Ok(rendered(dialect.header@, no_bindings()) + text),
        Err(error) => Err(error),
    }
}

/// The element index as a natural number.
pub open spec fn as_nat(element: Option<usize>) -> Option<nat> {
    match element {
        Some(k) => Some(k as nat),
        None => None,
    }
}

/// The name of a field as it is written, in Pascal case and in camel case.
pub struct FieldNames {
    pub field: String,
    pub pascal: String,
    pub camel: String,
}

impl FieldNames {
    /// Whether the two other spellings are those of the name itself.
    pub open spec fn well_formed(&self) -> bool {
        self.pascal@ == pascal_case(self.field@) && self.camel@ == camel_case(self.field@)
    }

    /// The three spellings of `field`.
    pub fn new(field: &String) -> (names: FieldNames)
        ensures
            names.well_formed(),
            names.field@ == field@,
    {
        FieldNames {
            field: field.clone(),
            pascal: CaseWrapper(field.clone()).to_pascal_case(),
            camel: CaseWrapper(field.clone()).to_camel_case(),
        }
    }

    /// The bindings that name the field.
    pub fn bindings<'a>(&'a self) -> (bindings: Bindings<'a>)
        requires
            self.well_formed(),
        ensures
            bindings@ == field_bindings(self.field@),
    {
        Bindings {
            field: self.field.as_str(),
            pascal: self.pascal.as_str(),
            camel: self.camel.as_str(),
            ..empty_bindings()
        }
    }
}

/// How the target names a field, or its element `element`, in the function
/// that writes the packet or in the one that reads it.
fn accessor(dialect: &Dialect, names: &FieldNames, element: Option<usize>, writing: bool) -> (text:
    String)
    requires
        names.well_formed(),
    ensures
        text@ == accessor_text(*dialect, names.field@, as_nat(element), writing),
{
    match element {
        None => render(
            if writing {
                dialect.write_scalar_accessor
            } else {
                dialect.read_scalar_accessor
            },
            &names.bindings(),
        ),
        Some(k) => render(
            if writing {
                dialect.write_element_accessor
            } else {
                dialect.read_element_accessor
            },
            &Bindings { element: k, ..names.bindings() },
        ),
    }
}

/// The statements for the bytes of a slot of `width` bytes at `offset`.
fn byte_statements(template: &str, wide: &str, offset: usize, width: usize) -> (text: String)
    requires
        width <= 8,
        offset + width <= usize::MAX,
    ensures
        text@ == byte_lines(template@, wide@, offset as nat, width as nat),
{
    let mut text = String::new();
    let mut k: usize = 0;
    while k < width
        invariant
            k <= width <= 8,
            offset + width <= usize::MAX,
            text@ == byte_lines(template@, wide@, offset as nat, k as nat),
        decreases width - k,
    {
        let line = render(
            template,
            &Bindings { wide, index: offset + k, shift: 8 * k, ..empty_bindings() },
        );
        text.append(line.as_str());
        k += 1;
    }
    text
}

/// The statements that write, or that read, the slot `element` of `field` at
/// `offset`.
fn get_slot_codec(
    dialect: &Dialect,
    field: &TypeExpr,
    names: &FieldNames,
    element: Option<usize>,
    offset: usize,
    writing: bool,
) -> (text: String)
    requires
        names.well_formed(),
        names.field@ == field@.id,
        offset + field.expr.element_width() <= usize::MAX,
    ensures
        text@ == slot_text(*dialect, field@, as_nat(element), offset as nat, writing),
{
    let primitive = field.expr.get_primitive();
    let width: usize = field.expr.get_type_length_bytes();
    let floating: bool = primitive == PrimitiveType::Float32 || primitive == PrimitiveType::Float64;
    let signed_byte: bool = primitive == PrimitiveType::Int8;
    let target = accessor(dialect, names, element, writing);
    let wide = wide_name(dialect, width);
    let bindings = Bindings {
        first: target.as_str(),
        kind: type_keyword(dialect, primitive),
        wide,
        index: offset,
        ..names.bindings()
    };
    if signed_byte || primitive == PrimitiveType::UInt8 {
        let template = if writing {
            if signed_byte {
                dialect.signed_byte_write
            } else {
                dialect.byte_write
            }
        } else {
            if signed_byte {
                dialect.signed_byte_read
            } else {
                dialect.byte_read
            }
        };
        render(template, &bindings)
    } else if writing {
        let mut text = render(
            if floating {
                dialect.float_write_open
            } else {
                dialect.integer_write_open
            },
            &bindings,
        );
        text.append(byte_statements(dialect.write_byte, wide, offset, width).as_str());
        text.append(render(dialect.write_close, &bindings).as_str());
        text
    } else {
        let mut text = render(
            if floating {
                dialect.float_read_open
            } else {
                dialect.integer_read_open
            },
            &bindings,
        );
        text.append(byte_statements(dialect.read_byte, wide, offset, width).as_str());
        text.append(
            render(
                if floating {
                    dialect.float_read_close
                } else {
                    dialect.integer_read_close
                },
                &bindings,
            ).as_str(),
        );
        text
    }
}

/// The statements for all the slots of the field `expr`, from `position` on.
/// The position moves on by the field's length.
fn get_field_codec(dialect: &Dialect, expr: &TypeExpr, position: &mut usize, writing: bool) -> (text:
    String)
    requires
        *old(position) + expr.expr.byte_length() <= usize::MAX,
    ensures
        text@ == field_text(*dialect, expr@, *old(position) as nat, writing),
        *final(position) == *old(position) + expr.expr.byte_length(),
{
    let width: usize = expr.expr.get_type_length_bytes();
    let count: usize = expr.expr.get_element_count();
    let is_array: bool = expr.expr.get_array_length().is_some();
    let names = FieldNames::new(&expr.id);
    let ghost start = *position;
    assert(count * width == expr.expr.byte_length()) by (nonlinear_arith)
        requires
            expr.expr.byte_length() == width * count,
    ;
    let mut text = String::new();
    let mut k: usize = 0;
    while k < count
        invariant
            k <= count == expr.expr.element_count(),
            width == expr.expr.element_width(),
            is_array == (expr.expr.array_length() is Some),
            names.well_formed(),
            names.field@ == expr@.id,
            *position == start + k * width,
            start + count * width <= usize::MAX,
            text@ == elements_text(*dialect, expr@, start as nat, k as nat, writing),
        decreases count - k,
    {
        assert((k + 1) * width <= count * width) by (nonlinear_arith)
            requires
                k + 1 <= count,
                width >= 0,
        ;
        assert((k + 1) * width == k * width + width) by (nonlinear_arith);
        let element: Option<usize> = if is_array {
            Some(k)
        } else {
            None
        };
        let slot = get_slot_codec(dialect, expr, &names, element, *position, writing);
        text.append(slot.as_str());
        *position = *position + width;
        k += 1;
    }
    text
}

/// The statements that write the field `expr`, whose first byte stands at
/// `position`. The position moves on by the field's length. A field that
/// is a MAC address has no statements: the error names it, and the position
/// stays.
pub fn get_field_serializer(dialect: &Dialect, expr: &TypeExpr, position: &mut usize) -> (result:
    Result<String, GenerateError>)
    requires
        *old(position) + expr.expr.byte_length() <= usize::MAX,
    ensures
        text_view(result) == lone_field_text(
            expr@,
            field_text(*dialect, expr@, *old(position) as nat, true),
        ),
        result is Ok ==> *final(position) == *old(position) + expr.expr.byte_length(),
        result is Err ==> *final(position) == *old(position),
{
    if expr.expr.get_primitive() == PrimitiveType::MacAddress {
        return Err(
            GenerateError::UnsupportedField { packet: String::new(), field: expr.id.clone() },
        );
    }
    Ok(get_field_codec(dialect, expr, position, true))
}

/// The statements that read the field `expr`, whose first byte stands at
/// `position`. The position moves on by the field's length. A field that
/// is a MAC address has no statements: the error names it, and the position
/// stays.
pub fn get_field_deserializer(dialect: &Dialect, expr: &TypeExpr, position: &mut usize) -> (result:
    Result<String, GenerateError>)
    requires
        *old(position) + expr.expr.byte_length() <= usize::MAX,
    ensures
        text_view(result) == lone_field_text(
            expr@,
            field_text(*dialect, expr@, *old(position) as nat, false),
        ),
        result is Ok ==> *final(position) == *old(position) + expr.expr.byte_length(),
        result is Err ==> *final(position) == *old(position),
{
    if expr.expr.get_primitive() == PrimitiveType::MacAddress {
        return Err(
            GenerateError::UnsupportedField { packet: String::new(), field: expr.id.clone() },
        );
    }
    Ok(get_field_codec(dialect, expr, position, false))
}

/// The statements that write, or that read, every field of `expr`.
fn create_codecs(dialect: &Dialect, expr: &PacketExpr, writing: bool) -> (text: String)
    requires
        expr@.total_length() <= usize::MAX,
    ensures
        text@ == fields_text(*dialect, expr@.fields, expr@.fields.len(), writing),
{
    let ghost types = expr@.field_types();
    let mut text = String::new();
    let mut counter: usize = 0;
    let mut i: usize = 0;
    while i < expr.fields.len()
        invariant
            i <= expr.fields.len(),
            types == expr@.field_types(),
            types == types_of(expr@.fields),
            total_length(types) <= usize::MAX,
            counter == total_length(types.take(i as int)),
            text@ == fields_text(*dialect, expr@.fields, i as nat, writing),
        decreases expr.fields.len() - i,
    {
        proof {
            lemma_total_length_step(types, i as int);
            lemma_total_length_monotonic(types, i as int + 1);
        }
        let field = get_field_codec(dialect, &expr.fields[i], &mut counter, writing);
        text.append(field.as_str());
        i += 1;
    }
    text
}

/// The statements that write every field of `expr`. There are none where a
/// field is a MAC address: the error names the first such field.
pub fn create_serializers(dialect: &Dialect, expr: &PacketExpr) -> (result: Result<
    String,
    GenerateError,
>)
    requires
        expr@.total_length() <= usize::MAX,
    ensures
        text_view(result) == supported_text(
            expr@,
            fields_text(*dialect, expr@.fields, expr@.fields.len(), true),
        ),
{
    match find_unsupported(expr) {
        Some(field) => Err(GenerateError::UnsupportedField { packet: expr.name.clone(), field }),
        None => Ok(create_codecs(dialect, expr, true)),
    }
}

/// The expression `expr` in the target.
pub fn get_expr_builder(dialect: &Dialect, expr: &CodecExpr) -> (text: String)
    ensures
        text@ == expr_text(*dialect, expr@),
    decreases expr,
{
    match expr {
        CodecExpr::Unsigned(v) => {
            let digits = decimal_string(*v);
            render(
                dialect.unsigned_literal,
                &Bindings { first: digits.as_str(), ..empty_bindings() },
            )
        },
        CodecExpr::Signed(v) => {
            let mut digits = String::new();
            if *v < 0 {
                digits.push('-');
                let magnitude: u64 = if *v == i64::MIN {
                    0x8000_0000_0000_0000
                } else {
                    (-*v) as u64
                };
                digits.append(decimal_string(magnitude).as_str());
            } else {
                digits.append(decimal_string(*v as u64).as_str());
            }
            render(dialect.signed_literal, &Bindings { first: digits.as_str(), ..empty_bindings() })
        },
        CodecExpr::Float(text) => render(
            dialect.float_literal,
            &Bindings { first: text.as_str(), ..empty_bindings() },
        ),
        CodecExpr::Slot { index, field, element } => {
            let names = FieldNames::new(field);
            match element {
                Some(k) => render(
                    dialect.element_reference,
                    &Bindings { element: *k, ..names.bindings() },
                ),
                None => render(dialect.scalar_reference, &names.bindings()),
            }
        },
        CodecExpr::Group(inner) => {
            let inner_text = get_expr_builder(dialect, inner);
            render(dialect.group, &Bindings { first: inner_text.as_str(), ..empty_bindings() })
        },
        CodecExpr::Binary(op, l, r) => {
            let left = get_expr_builder(dialect, l);
            let right = get_expr_builder(dialect, r);
            if *op == BinaryOp::Pow {
                render(
                    dialect.power,
                    &Bindings {
                        first: left.as_str(),
                        second: right.as_str(),
                        ..empty_bindings()
                    },
                )
            } else {
                render(
                    dialect.binary,
                    &Bindings {
                        first: left.as_str(),
                        second: right.as_str(),
                        third: operator_name(dialect, *op),
                        ..empty_bindings()
                    },
                )
            }
        },
        CodecExpr::Select(c, t, o) => {
            let predicate = get_expr_builder(dialect, c);
            let value = get_expr_builder(dialect, t);
            let alternative = get_expr_builder(dialect, o);
            render(
                dialect.select,
                &Bindings {
                    first: predicate.as_str(),
                    second: value.as_str(),
                    third: alternative.as_str(),
                    ..empty_bindings()
                },
            )
        },
        CodecExpr::Sqrt(inner) => {
            let inner_text = get_expr_builder(dialect, inner);
            render(dialect.sqrt, &Bindings { first: inner_text.as_str(), ..empty_bindings() })
        },
        CodecExpr::Min(l, r) => {
            let left = get_expr_builder(dialect, l);
            let right = get_expr_builder(dialect, r);
            render(
                dialect.min,
                &Bindings { first: left.as_str(), second: right.as_str(), ..empty_bindings() },
            )
        },
        CodecExpr::Max(l, r) => {
            let left = get_expr_builder(dialect, l);
            let right = get_expr_builder(dialect, r);
            render(
                dialect.max,
                &Bindings { first: left.as_str(), second: right.as_str(), ..empty_bindings() },
            )
        },
    }
}

/// The text of `template` for the calculated field `expr`.
fn get_calculated_field(dialect: &Dialect, template: &str, expr: &CalculatedCodec) -> (text:
    String)
    ensures
        text@ == rendered(template@, calculated_bindings(*dialect, expr@)),
{
    let value = get_expr_builder(dialect, &expr.expr);
    let names = FieldNames::new(&expr.name);
    render(
        template,
        &Bindings {
            kind: type_keyword(dialect, expr.data_type),
            first: value.as_str(),
            ..names.bindings()
        },
    )
}

/// The statement that gives the calculated field `expr` its value.
pub fn get_calculated_field_deserializer(dialect: &Dialect, expr: &CalculatedCodec) -> (text:
    String)
    ensures
        text@ == calculated_assign_text(*dialect, expr@),
{
    get_calculated_field(dialect, dialect.calculated_assign, expr)
}

/// The text of `template` for each of the calculated fields in turn.
fn create_calculated(dialect: &Dialect, template: &str, calculated: &Vec<CalculatedCodec>) -> (text:
    String)
    ensures
        text@ == calculated_text(
            *dialect,
            template@,
            crate::ir::calculated_views(calculated@),
            calculated.len() as nat,
        ),
{
    let ghost views = crate::ir::calculated_views(calculated@);
    let mut text = String::new();
    let mut i: usize = 0;
    while i < calculated.len()
        invariant
            i <= calculated.len(),
            views == crate::ir::calculated_views(calculated@),
            text@ == calculated_text(*dialect, template@, views, i as nat),
        decreases calculated.len() - i,
    {
        text.append(get_calculated_field(dialect, template, &calculated[i]).as_str());
        i += 1;
    }
    text
}

/// The statements that read every field of `expr`, none of which is a MAC
/// address, and then give every calculated field its value.
fn create_deserializers(
    dialect: &Dialect,
    expr: &PacketExpr,
    calculated: &Vec<CalculatedCodec>,
) -> (text: String)
    requires
        expr@.total_length() <= usize::MAX,
        unsupported_from(expr@.fields, 0) is None,
    ensures
        text@ == deserializers_text(*dialect, expr@, crate::ir::calculated_views(calculated@)),
{
    let mut text = create_codecs(dialect, expr, false);
    text.append(create_calculated(dialect, dialect.calculated_assign, calculated).as_str());
    text
}

/// What names the fields of `expr` before the statements that write the
/// packet.
fn create_prologues(dialect: &Dialect, expr: &PacketExpr) -> (text: String)
    ensures
        text@ == prologues_text(*dialect, expr@.fields, expr@.fields.len()),
{
    let mut text = String::new();
    let mut i: usize = 0;
    while i < expr.fields.len()
        invariant
            i <= expr.fields.len(),
            text@ == prologues_text(*dialect, expr@.fields, i as nat),
        decreases expr.fields.len() - i,
    {
        let field = &expr.fields[i];
        let names = FieldNames::new(&field.id);
        let line = render(
            dialect.write_prologue,
            &Bindings {
                kind: type_keyword(dialect, field.expr.get_primitive()),
                ..names.bindings()
            },
        );
        text.append(line.as_str());
        i += 1;
    }
    text
}

/// What hands the field `expr`, which is no MAC address, to the packet once
/// it is read.
fn get_field_deserializer_builder(dialect: &Dialect, expr: &TypeExpr) -> (text: String)
    requires
        expr.expr.primitive() != PrimitiveType::MacAddress,
    ensures
        text@ == builder_text(*dialect, expr@),
{
    let names = FieldNames::new(&expr.id);
    let bindings = Bindings {
        kind: type_keyword(dialect, expr.expr.get_primitive()),
        length: expr.expr.get_element_count(),
        ..names.bindings()
    };
    match expr.expr.get_array_length() {
        Some(length) => {
            let mut text = render(dialect.array_builder_open, &bindings);
            let ghost opened = text@;
            let mut k: usize = 0;
            while k < length
                invariant
                    k <= length,
                    names.well_formed(),
                    names.field@ == expr@.id,
                    text@ == opened + builder_items_text(*dialect, expr@.id, k as nat),
                decreases length - k,
            {
                if k > 0 {
                    text.append(render(dialect.array_builder_separator, &names.bindings()).as_str());
                }
                text.append(
                    render(
                        dialect.array_builder_item,
                        &Bindings { element: k, ..names.bindings() },
                    ).as_str(),
                );
                k += 1;
            }
            text.append(render(dialect.array_builder_close, &bindings).as_str());
            text
        },
        None => render(dialect.scalar_builder, &bindings),
    }
}

/// What hands the fields and the calculated fields of `expr`, once read, to
/// the packet. No field of the packet is a MAC address.
fn create_deserializer_builders(
    dialect: &Dialect,
    expr: &PacketExpr,
    calculated: &Vec<CalculatedCodec>,
) -> (text: String)
    requires
        unsupported_from(expr@.fields, 0) is None,
    ensures
        text@ == deserializer_builders_text(
            *dialect,
            expr@,
            crate::ir::calculated_views(calculated@),
        ),
{
    let mut text = render(
        dialect.builders_open,
        &Bindings { name: expr.name.as_str(), ..empty_bindings() },
    );
    let ghost opened = text@;
    let mut i: usize = 0;
    while i < expr.fields.len()
        invariant
            i <= expr.fields.len(),
            unsupported_from(expr@.fields, 0) is None,
            text@ == opened + builders_text(*dialect, expr@.fields, i as nat),
        decreases expr.fields.len() - i,
    {
        proof {
            lemma_field_is_supported(expr@.fields, 0, i as int);
        }
        text.append(get_field_deserializer_builder(dialect, &expr.fields[i]).as_str());
        i += 1;
    }
    text.append(create_calculated(dialect, dialect.calculated_builder, calculated).as_str());
    text
}

/// The declarations of the fields of `expr`.
fn create_declarations(dialect: &Dialect, expr: &PacketExpr) -> (text: String)
    ensures
        text@ == declarations_text(*dialect, expr@.fields, expr@.fields.len()),
{
    let mut text = String::new();
    let mut i: usize = 0;
    while i < expr.fields.len()
        invariant
            i <= expr.fields.len(),
            text@ == declarations_text(*dialect, expr@.fields, i as nat),
        decreases expr.fields.len() - i,
    {
        let field = &expr.fields[i];
        let kind = type_keyword(dialect, field.expr.get_primitive());
        let names = FieldNames::new(&field.id);
        let line = match field.expr.get_array_length() {
            Some(length) => render(
                dialect.array_field,
                &Bindings { kind, length, ..names.bindings() },
            ),
            None => render(dialect.scalar_field, &Bindings { kind, ..names.bindings() }),
        };
        text.append(line.as_str());
        i += 1;
    }
    text
}

/// The type of the packet `expr`, none of whose fields is a MAC address: its
/// fields alone where `just_fields` holds, the whole declaration otherwise.
pub(crate) fn build_struct(
    dialect: &Dialect,
    expr: &PacketExpr,
    calculated: &Vec<CalculatedCodec>,
    just_fields: bool,
) -> (text: String)
    requires
        unsupported_from(expr@.fields, 0) is None,
    ensures
        text@ == struct_text(
            *dialect,
            expr@,
            crate::ir::calculated_views(calculated@),
            just_fields,
        ),
{
    let field_aggregation = create_declarations(dialect, expr);
    if just_fields {
        field_aggregation
    } else {
        let bindings = Bindings { name: expr.name.as_str(), ..empty_bindings() };
        let mut text = render(dialect.type_open, &bindings);
        text.append(field_aggregation.as_str());
        text.append(create_calculated(dialect, dialect.calculated_field, calculated).as_str());
        text.append(render(dialect.type_close, &bindings).as_str());
        text
    }
}

/// The function that writes the packet `expr` and the function that reads
/// it. No field of the packet is a MAC address.
pub(crate) fn create_serialization_functions(
    dialect: &Dialect,
    expr: &PacketExpr,
    calculated: &Vec<CalculatedCodec>,
) -> (text: String)
    requires
        expr@.total_length() <= usize::MAX,
        unsupported_from(expr@.fields, 0) is None,
    ensures
        text@ == functions_text(*dialect, expr@, crate::ir::calculated_views(calculated@)),
{
    let bindings = Bindings {
        name: expr.name.as_str(),
        total: expr.get_total_length(),
        ..empty_bindings()
    };
    let mut text = render(dialect.serialize_open, &bindings);
    text.append(create_prologues(dialect, expr).as_str());
    text.append(create_codecs(dialect, expr, true).as_str());
    text.append(render(dialect.serialize_close, &bindings).as_str());
    text.append(render(dialect.deserialize_open, &bindings).as_str());
    text.append(create_deserializers(dialect, expr, calculated).as_str());
    text.append(create_deserializer_builders(dialect, expr, calculated).as_str());
    text.append(render(dialect.deserialize_close, &bindings).as_str());
    text
}

/// Where no field from `from` on is a MAC address, the field `index` is
/// none.
proof fn lemma_field_is_supported(fields: Seq<TypeExprView>, from: nat, index: int)
    requires
        unsupported_from(fields, from) is None,
        from <= index < fields.len(),
    ensures
        fields[index].expr.primitive() != PrimitiveType::MacAddress,
    decreases fields.len() - from,
{
    if from < index {
        lemma_field_is_supported(fields, from + 1, index);
    }
}

/// The name of the first field that is a MAC address.
pub fn find_unsupported(expr: &PacketExpr) -> (found: Option<String>)
    ensures
        match found {
            Some(name) => unsupported_from(expr@.fields, 0) matches Some(index) && index
                < expr@.fields.len() && name@ == expr@.fields[index as int].id,
            None => unsupported_from(expr@.fields, 0) is None,
        },
{
    let mut i: usize = 0;
    while i < expr.fields.len()
        invariant
            i <= expr.fields.len(),
            unsupported_from(expr@.fields, 0) == unsupported_from(expr@.fields, i as nat),
        decreases expr.fields.len() - i,
    {
        if expr.fields[i].expr.get_primitive() == PrimitiveType::MacAddress {
            return Some(expr.fields[i].id.clone());
        }
        i += 1;
    }
    None
}

/// The source text for one packet: its type, the function that writes it
/// and the function that reads it.
pub fn generate_packet(dialect: &Dialect, packet: &PacketExpr) -> (result: Result<
    String,
    GenerateError,
>)
    ensures
        text_view(result) == packet_text(*dialect, packet@),
{
    let codec = match build_codec(packet, Endianness::Little) {
        Ok(codec) => codec,
        Err(error) => { return Err(GenerateError::Codec(error)); },
    };
    match find_unsupported(packet) {
        Some(field) => {
            return Err(GenerateError::UnsupportedField { packet: packet.name.clone(), field });
        },
        None => {},
    }
    let mut text = build_struct(dialect, packet, codec.calculated(), false);
    text.append(create_serialization_functions(dialect, packet, codec.calculated()).as_str());
    Ok(text)
}

/// The source text for packet `index` of a definition file. There is none
/// where an earlier packet has the same name.
fn generate_unit_packet(dialect: &Dialect, packets: &Vec<PacketExpr>, index: usize) -> (result:
    Result<String, GenerateError>)
    requires
        index < packets.len(),
    ensures
        text_view(result) == unit_packet_text(
            *dialect,
            crate::parser::packet_views(packets@),
            index as int,
        ),
{
    if is_name_taken(packets, index) {
        Err(
            GenerateError::Codec(
                CodecError::DuplicateIdentifier {
                    packet: packets[index].name.clone(),
                    identifier: packets[index].name.clone(),
                },
            ),
        )
    } else {
        generate_packet(dialect, &packets[index])
    }
}

/// The source text for each packet of a definition file on its own, in
/// source order and without the header: outcome `i` is the text of packet
/// `i`, or why it has none. A packet that has no text does not keep the
/// others from having theirs.
pub fn generate_each(dialect: &Dialect, packets: &Vec<PacketExpr>) -> (results: Vec<
    Result<String, GenerateError>,
>)
    ensures
        results.len() == packets.len(),
        forall|i: int|
            0 <= i < results.len() ==> text_view(#[trigger] results[i]) == unit_packet_text(
                *dialect,
                crate::parser::packet_views(packets@),
                i,
            ),
{
    let ghost views = crate::parser::packet_views(packets@);
    let mut results: Vec<Result<String, GenerateError>> = Vec::new();
    let mut i: usize = 0;
    while i < packets.len()
        invariant
            i <= packets.len(),
            results.len() == i,
            views == crate::parser::packet_views(packets@),
            forall|k: int|
                0 <= k < i ==> text_view(#[trigger] results[k]) == unit_packet_text(
                    *dialect,
                    views,
                    k,
                ),
        decreases packets.len() - i,
    {
        let outcome = generate_unit_packet(dialect, packets, i);
        results.push(outcome);
        i += 1;
    }
    results
}

/// Once a packet has no text, taking more packets into account gives the
/// same error.
proof fn lemma_packet_error_stays(dialect: Dialect, packets: Seq<PacketExprView>, count: nat)
    requires
        count <= packets.len(),
        packets_text(dialect, packets, count) is Err,
    ensures
        packets_text(dialect, packets, packets.len()) == packets_text(dialect, packets, count),
    decreases packets.len() - count,
{
    if count < packets.len() {
        lemma_packet_error_stays(dialect, packets, count + 1);
    }
}

/// No source text comes out for a list of packets where, in one of them, an
/// aggregate stands in the expression that gives a calculated field its
/// value: neither a part of the text nor a text with something in the
/// aggregate's place.
pub proof fn lemma_aggregate_gives_no_text(
    dialect: Dialect,
    packets: Seq<PacketExprView>,
    at: int,
    index: int,
)
    requires
        0 <= at < packets.len(),
        0 <= index < packets[at].calculated_fields.len(),
        holds_aggregate(governing_expr(packets[at].calculated_fields[index])),
    ensures
        packet_text(dialect, packets[at]) is Err,
        generated(dialect, packets) is Err,
{
    lemma_aggregate_has_no_codec(packets[at], index, Endianness::Little);
    lemma_packet_error_stays(dialect, packets, (at + 1) as nat);
}

/// The source text for `packets`: the header of the target, then each packet
/// in turn. The first packet that has no text makes the whole fail, with the
/// error of that packet.
pub fn generate_packets(dialect: &Dialect, packets: &Vec<PacketExpr>) -> (result: Result<
    String,
    GenerateError,
>)
    ensures
        text_view(result) == generated(*dialect, crate::parser::packet_views(packets@)),
{
    let ghost views = crate::parser::packet_views(packets@);
    let mut body = String::new();
    let mut i: usize = 0;
    while i < packets.len()
        invariant
            i <= packets.len(),
            views == crate::parser::packet_views(packets@),
            packets_text(*dialect, views, i as nat) == Ok::<Seq<char>, GenerateErrorView>(body@),
        decreases packets.len() - i,
    {
        match generate_unit_packet(dialect, packets, i) {
            Ok(text) => {
                body.append(text.as_str());
            },
            Err(error) => {
                proof {
                    lemma_packet_error_stays(*dialect, views, (i + 1) as nat);
                }
                return Err(error);
            },
        }
        i += 1;
    }
    let mut text = render(dialect.header, &empty_bindings());
    text.append(body.as_str());
    Ok(text)
}

} // verus!
