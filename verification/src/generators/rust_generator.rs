//! The emitter for Rust.

use crate::codec::Endianness;
use crate::generators::{
    field_text, fields_text, find_unsupported, functions_text, generated, lone_field_text,
    no_bindings, part_text, rendered, struct_text, supported_text, text_view, Dialect,
    GenerateError,
};
use crate::ir::build_codec;
use crate::models::parsing_models::{PacketExpr, TypeExpr};
use vstd::prelude::*;

verus! {

/// What stands before the first packet.
pub const RUST_HEADER: &'static str = "#![allow(dead_code)]\n\n";

/// Opens the type of a packet.
pub const RUST_TYPE_OPEN: &'static str = "#[derive(Debug, Clone, PartialEq)]\npub struct $N {\n";

/// Declares a scalar field.
pub const RUST_SCALAR_FIELD: &'static str = "\tpub $F: $T,\n";

/// Declares an array field.
pub const RUST_ARRAY_FIELD: &'static str = "\tpub $F: [$T; $L],\n";

/// Declares a calculated field.
pub const RUST_CALCULATED_FIELD: &'static str = "\tpub $F: $T,\n";

/// Closes the type of a packet.
pub const RUST_TYPE_CLOSE: &'static str = "}\n\n";

/// Opens the function that writes a packet.
pub const RUST_SERIALIZE_OPEN: &'static str = "impl $N {\n/// Writes the packet into a buffer of $S bytes.\npub fn serialize(&self) -> Vec<u8> {\n\tlet mut data: Vec<u8> = vec![0; $S];\n";

/// Names a field before the statements that write the packet.
pub const RUST_WRITE_PROLOGUE: &'static str = "";

/// Closes the function that writes a packet.
pub const RUST_SERIALIZE_CLOSE: &'static str = "\tdata\n}\n\n";

/// Opens the function that reads a packet.
pub const RUST_DESERIALIZE_OPEN: &'static str = "/// Reads a packet from a buffer of $S bytes.\npub fn deserialize(data: &[u8]) -> $N {\n";

/// Stands between the statements that read a packet and what builds it.
pub const RUST_BUILDERS_OPEN: &'static str = "\t$N {\n";

/// Hands a scalar field that was read to the packet.
pub const RUST_SCALAR_BUILDER: &'static str = "\t\t$F: $F,\n";

/// Starts handing an array field that was read to the packet.
pub const RUST_ARRAY_BUILDER_OPEN: &'static str = "\t\t$F: [";

/// Names one element of an array field that was read.
pub const RUST_ARRAY_BUILDER_ITEM: &'static str = "$F_$E";

/// Stands between two elements of an array field that was read.
pub const RUST_ARRAY_BUILDER_SEPARATOR: &'static str = ", ";

/// Ends handing an array field that was read to the packet.
pub const RUST_ARRAY_BUILDER_CLOSE: &'static str = "],\n";

/// Hands a calculated field to the packet.
pub const RUST_CALCULATED_BUILDER: &'static str = "\t\t$F: $F,\n";

/// Closes the function that reads a packet.
pub const RUST_DESERIALIZE_CLOSE: &'static str = "\t}\n}\n}\n\n";

/// Names a scalar field where it is written to the buffer.
pub const RUST_WRITE_SCALAR_ACCESSOR: &'static str = "self.$F";

/// Names an element of an array field where it is written to the buffer.
pub const RUST_WRITE_ELEMENT_ACCESSOR: &'static str = "self.$F[$E]";

/// Names a scalar field where it is read from the buffer.
pub const RUST_READ_SCALAR_ACCESSOR: &'static str = "$F";

/// Names an element of an array field where it is read from the buffer.
pub const RUST_READ_ELEMENT_ACCESSOR: &'static str = "$F_$E";

/// Copies an unsigned slot of one byte into the buffer.
pub const RUST_BYTE_WRITE: &'static str = "\tdata[$I] = $A;\n";

/// Copies a signed slot of one byte into the buffer.
pub const RUST_SIGNED_BYTE_WRITE: &'static str = "\tdata[$I] = $A as u8;\n";

/// Copies an unsigned slot of one byte out of the buffer.
pub const RUST_BYTE_READ: &'static str = "\tlet $A = data[$I];\n";

/// Copies a signed slot of one byte out of the buffer.
pub const RUST_SIGNED_BYTE_READ: &'static str = "\tlet $A = data[$I] as i8;\n";

/// Takes the bits of an integer slot that is about to be written.
pub const RUST_INTEGER_WRITE_OPEN: &'static str = "\t{\n\t\tlet bits = $A as $W;\n";

/// Takes the bits of a floating-point slot that is about to be written.
pub const RUST_FLOAT_WRITE_OPEN: &'static str = "\t{\n\t\tlet bits = $A.to_bits();\n";

/// Writes one byte of a slot.
pub const RUST_WRITE_BYTE: &'static str = "\t\tdata[$I] = ((bits >> $H) & 0xFF) as u8;\n";

/// Ends the writing of a slot.
pub const RUST_WRITE_CLOSE: &'static str = "\t}\n";

/// Starts the reading of an integer slot.
pub const RUST_INTEGER_READ_OPEN: &'static str = "\tlet $A = {\n\t\tlet mut bits: $W = 0;\n";

/// Starts the reading of a floating-point slot.
pub const RUST_FLOAT_READ_OPEN: &'static str = "\tlet $A = {\n\t\tlet mut bits: $W = 0;\n";

/// Reads one byte of a slot.
pub const RUST_READ_BYTE: &'static str = "\t\tbits |= (data[$I] as $W) << $H;\n";

/// Stores the bits read as an integer slot.
pub const RUST_INTEGER_READ_CLOSE: &'static str = "\t\tbits as $T\n\t};\n";

/// Stores the bits read as a floating-point slot.
pub const RUST_FLOAT_READ_CLOSE: &'static str = "\t\t$T::from_bits(bits)\n\t};\n";

/// Names a scalar field in an expression.
pub const RUST_SCALAR_REFERENCE: &'static str = "($F as f64)";

/// Names an element of an array field in an expression.
pub const RUST_ELEMENT_REFERENCE: &'static str = "($F_$E as f64)";

/// An unsigned integer literal.
pub const RUST_UNSIGNED_LITERAL: &'static str = "($A as f64)";

/// A signed integer literal.
pub const RUST_SIGNED_LITERAL: &'static str = "($A as f64)";

/// A floating-point literal.
pub const RUST_FLOAT_LITERAL: &'static str = "$A";

/// An expression in parentheses.
pub const RUST_GROUP: &'static str = "($A)";

/// Two operands joined by an operator.
pub const RUST_BINARY: &'static str = "$A $C $B";

/// A power.
pub const RUST_POWER: &'static str = "$A.powf($B)";

/// A conditional: `$A` is the predicate.
pub const RUST_SELECT: &'static str = "if $A { $B } else { $C }";

/// A square root.
pub const RUST_SQRT: &'static str = "($A).sqrt()";

/// The smaller of two values.
pub const RUST_MIN: &'static str = "($A).min($B)";

/// The greater of two values.
pub const RUST_MAX: &'static str = "($A).max($B)";

/// Gives a calculated field its value.
pub const RUST_CALCULATED_ASSIGN: &'static str = "\tlet $F = ($A) as $T;\n";

/// The operator of addition.
pub const RUST_OP_PLUS: &'static str = "+";

/// The operator of subtraction.
pub const RUST_OP_MINUS: &'static str = "-";

/// The operator of multiplication.
pub const RUST_OP_MULT: &'static str = "*";

/// The operator of division.
pub const RUST_OP_DIV: &'static str = "/";

/// The operator of greater than.
pub const RUST_OP_GT: &'static str = ">";

/// The operator of less than.
pub const RUST_OP_LT: &'static str = "<";

/// The operator of greater than or equal.
pub const RUST_OP_GTE: &'static str = ">=";

/// The operator of less than or equal.
pub const RUST_OP_LTE: &'static str = "<=";

/// The operator of equality.
pub const RUST_OP_EQUALS: &'static str = "==";

/// The operator of inequality.
pub const RUST_OP_NOT_EQUALS: &'static str = "!=";

/// The operator of conjunction.
pub const RUST_OP_AND: &'static str = "&&";

/// The operator of disjunction.
pub const RUST_OP_OR: &'static str = "||";

/// The type that holds a value declared `int8`.
pub const RUST_TYPE_INT8: &'static str = "i8";

/// The type that holds a value declared `uint8`.
pub const RUST_TYPE_UINT8: &'static str = "u8";

/// The type that holds a value declared `int16`.
pub const RUST_TYPE_INT16: &'static str = "i16";

/// The type that holds a value declared `uint16`.
pub const RUST_TYPE_UINT16: &'static str = "u16";

/// The type that holds a value declared `int32`.
pub const RUST_TYPE_INT32: &'static str = "i32";

/// The type that holds a value declared `uint32`.
pub const RUST_TYPE_UINT32: &'static str = "u32";

/// The type that holds a value declared `int64`.
pub const RUST_TYPE_INT64: &'static str = "i64";

/// The type that holds a value declared `uint64`.
pub const RUST_TYPE_UINT64: &'static str = "u64";

/// The type that holds a value declared `float32`.
pub const RUST_TYPE_FLOAT32: &'static str = "f32";

/// The type that holds a value declared `float64`.
pub const RUST_TYPE_FLOAT64: &'static str = "f64";

/// The unsigned type of 1 byte.
pub const RUST_WIDE1: &'static str = "u8";

/// The unsigned type of 2 bytes.
pub const RUST_WIDE2: &'static str = "u16";

/// The unsigned type of 4 bytes.
pub const RUST_WIDE4: &'static str = "u32";

/// The unsigned type of 8 bytes.
pub const RUST_WIDE8: &'static str = "u64";

/// The dialect of Rust.
pub open spec fn rust_dialect() -> Dialect {
    Dialect {
        header: RUST_HEADER,
        type_open: RUST_TYPE_OPEN,
        scalar_field: RUST_SCALAR_FIELD,
        array_field: RUST_ARRAY_FIELD,
        calculated_field: RUST_CALCULATED_FIELD,
        type_close: RUST_TYPE_CLOSE,
        serialize_open: RUST_SERIALIZE_OPEN,
        write_prologue: RUST_WRITE_PROLOGUE,
        serialize_close: RUST_SERIALIZE_CLOSE,
        deserialize_open: RUST_DESERIALIZE_OPEN,
        builders_open: RUST_BUILDERS_OPEN,
        scalar_builder: RUST_SCALAR_BUILDER,
        array_builder_open: RUST_ARRAY_BUILDER_OPEN,
        array_builder_item: RUST_ARRAY_BUILDER_ITEM,
        array_builder_separator: RUST_ARRAY_BUILDER_SEPARATOR,
        array_builder_close: RUST_ARRAY_BUILDER_CLOSE,
        calculated_builder: RUST_CALCULATED_BUILDER,
        deserialize_close: RUST_DESERIALIZE_CLOSE,
        write_scalar_accessor: RUST_WRITE_SCALAR_ACCESSOR,
        write_element_accessor: RUST_WRITE_ELEMENT_ACCESSOR,
        read_scalar_accessor: RUST_READ_SCALAR_ACCESSOR,
        read_element_accessor: RUST_READ_ELEMENT_ACCESSOR,
        byte_write: RUST_BYTE_WRITE,
        signed_byte_write: RUST_SIGNED_BYTE_WRITE,
        byte_read: RUST_BYTE_READ,
        signed_byte_read: RUST_SIGNED_BYTE_READ,
        integer_write_open: RUST_INTEGER_WRITE_OPEN,
        float_write_open: RUST_FLOAT_WRITE_OPEN,
        write_byte: RUST_WRITE_BYTE,
        write_close: RUST_WRITE_CLOSE,
        integer_read_open: RUST_INTEGER_READ_OPEN,
        float_read_open: RUST_FLOAT_READ_OPEN,
        read_byte: RUST_READ_BYTE,
        integer_read_close: RUST_INTEGER_READ_CLOSE,
        float_read_close: RUST_FLOAT_READ_CLOSE,
        scalar_reference: RUST_SCALAR_REFERENCE,
        element_reference: RUST_ELEMENT_REFERENCE,
        unsigned_literal: RUST_UNSIGNED_LITERAL,
        signed_literal: RUST_SIGNED_LITERAL,
        float_literal: RUST_FLOAT_LITERAL,
        group: RUST_GROUP,
        binary: RUST_BINARY,
        power: RUST_POWER,
        select: RUST_SELECT,
        sqrt: RUST_SQRT,
        min: RUST_MIN,
        max: RUST_MAX,
        calculated_assign: RUST_CALCULATED_ASSIGN,
        op_plus: RUST_OP_PLUS,
        op_minus: RUST_OP_MINUS,
        op_mult: RUST_OP_MULT,
        op_div: RUST_OP_DIV,
        op_gt: RUST_OP_GT,
        op_lt: RUST_OP_LT,
        op_gte: RUST_OP_GTE,
        op_lte: RUST_OP_LTE,
        op_equals: RUST_OP_EQUALS,
        op_not_equals: RUST_OP_NOT_EQUALS,
        op_and: RUST_OP_AND,
        op_or: RUST_OP_OR,
        type_int8: RUST_TYPE_INT8,
        type_uint8: RUST_TYPE_UINT8,
        type_int16: RUST_TYPE_INT16,
        type_uint16: RUST_TYPE_UINT16,
        type_int32: RUST_TYPE_INT32,
        type_uint32: RUST_TYPE_UINT32,
        type_int64: RUST_TYPE_INT64,
        type_uint64: RUST_TYPE_UINT64,
        type_float32: RUST_TYPE_FLOAT32,
        type_float64: RUST_TYPE_FLOAT64,
        wide1: RUST_WIDE1,
        wide2: RUST_WIDE2,
        wide4: RUST_WIDE4,
        wide8: RUST_WIDE8,
    }
}

/// The emitter for Rust.
#[derive(Debug, Clone, Copy, PartialEq, Eq)]
pub struct RustGenerator {}

impl RustGenerator {
    /// The dialect of Rust.
    pub fn dialect() -> (dialect: Dialect)
        ensures
            dialect == rust_dialect(),
    {
        Dialect {
            header: RUST_HEADER,
            type_open: RUST_TYPE_OPEN,
            scalar_field: RUST_SCALAR_FIELD,
            array_field: RUST_ARRAY_FIELD,
            calculated_field: RUST_CALCULATED_FIELD,
            type_close: RUST_TYPE_CLOSE,
            serialize_open: RUST_SERIALIZE_OPEN,
            write_prologue: RUST_WRITE_PROLOGUE,
            serialize_close: RUST_SERIALIZE_CLOSE,
            deserialize_open: RUST_DESERIALIZE_OPEN,
            builders_open: RUST_BUILDERS_OPEN,
            scalar_builder: RUST_SCALAR_BUILDER,
            array_builder_open: RUST_ARRAY_BUILDER_OPEN,
            array_builder_item: RUST_ARRAY_BUILDER_ITEM,
            array_builder_separator: RUST_ARRAY_BUILDER_SEPARATOR,
            array_builder_close: RUST_ARRAY_BUILDER_CLOSE,
            calculated_builder: RUST_CALCULATED_BUILDER,
            deserialize_close: RUST_DESERIALIZE_CLOSE,
            write_scalar_accessor: RUST_WRITE_SCALAR_ACCESSOR,
            write_element_accessor: RUST_WRITE_ELEMENT_ACCESSOR,
            read_scalar_accessor: RUST_READ_SCALAR_ACCESSOR,
            read_element_accessor: RUST_READ_ELEMENT_ACCESSOR,
            byte_write: RUST_BYTE_WRITE,
            signed_byte_write: RUST_SIGNED_BYTE_WRITE,
            byte_read: RUST_BYTE_READ,
            signed_byte_read: RUST_SIGNED_BYTE_READ,
            integer_write_open: RUST_INTEGER_WRITE_OPEN,
            float_write_open: RUST_FLOAT_WRITE_OPEN,
            write_byte: RUST_WRITE_BYTE,
            write_close: RUST_WRITE_CLOSE,
            integer_read_open: RUST_INTEGER_READ_OPEN,
            float_read_open: RUST_FLOAT_READ_OPEN,
            read_byte: RUST_READ_BYTE,
            integer_read_close: RUST_INTEGER_READ_CLOSE,
            float_read_close: RUST_FLOAT_READ_CLOSE,
            scalar_reference: RUST_SCALAR_REFERENCE,
            element_reference: RUST_ELEMENT_REFERENCE,
            unsigned_literal: RUST_UNSIGNED_LITERAL,
            signed_literal: RUST_SIGNED_LITERAL,
            float_literal: RUST_FLOAT_LITERAL,
            group: RUST_GROUP,
            binary: RUST_BINARY,
            power: RUST_POWER,
            select: RUST_SELECT,
            sqrt: RUST_SQRT,
            min: RUST_MIN,
            max: RUST_MAX,
            calculated_assign: RUST_CALCULATED_ASSIGN,
            op_plus: RUST_OP_PLUS,
            op_minus: RUST_OP_MINUS,
            op_mult: RUST_OP_MULT,
            op_div: RUST_OP_DIV,
            op_gt: RUST_OP_GT,
            op_lt: RUST_OP_LT,
            op_gte: RUST_OP_GTE,
            op_lte: RUST_OP_LTE,
            op_equals: RUST_OP_EQUALS,
            op_not_equals: RUST_OP_NOT_EQUALS,
            op_and: RUST_OP_AND,
            op_or: RUST_OP_OR,
            type_int8: RUST_TYPE_INT8,
            type_uint8: RUST_TYPE_UINT8,
            type_int16: RUST_TYPE_INT16,
            type_uint16: RUST_TYPE_UINT16,
            type_int32: RUST_TYPE_INT32,
            type_uint32: RUST_TYPE_UINT32,
            type_int64: RUST_TYPE_INT64,
            type_uint64: RUST_TYPE_UINT64,
            type_float32: RUST_TYPE_FLOAT32,
            type_float64: RUST_TYPE_FLOAT64,
            wide1: RUST_WIDE1,
            wide2: RUST_WIDE2,
            wide4: RUST_WIDE4,
            wide8: RUST_WIDE8,
        }
    }

    /// The source text for the packets of `expr`: the header, then for each
    /// packet its struct and the functions that write and read it. No text
    /// comes out where a packet has no codec description or has a field that
    /// is a MAC address: the error of the first such packet comes instead.
    pub fn generate(expr: &Vec<PacketExpr>) -> (result: Result<String, GenerateError>)
        ensures
            text_view(result) == generated(rust_dialect(), crate::parser::packet_views(expr@)),
    {
        crate::generators::generate_packets(&Self::dialect(), expr)
    }

    /// The text that stands before the first packet.
    pub fn create_headers() -> (text: String)
        ensures
            text@ == rendered(rust_dialect().header@, no_bindings()),
    {
        crate::generators::render(Self::dialect().header, &crate::generators::empty_bindings())
    }

    /// The struct of the packet `expr`; the declarations of its fields alone
    /// where `just_fields` holds. There is none where the packet has no codec
    /// description, and none where a field is a MAC address.
    pub fn build_struct(expr: &PacketExpr, just_fields: bool) -> (result: Result<
        String,
        GenerateError,
    >)
        ensures
            text_view(result) == part_text(
                expr@,
                |calculated: Seq<crate::ir::CalculatedCodecView>|
                    struct_text(rust_dialect(), expr@, calculated, just_fields),
            ),
    {
        let codec = match build_codec(expr, Endianness::Little) {
            Ok(codec) => codec,
            Err(error) => { return Err(GenerateError::Codec(error)); },
        };
        match find_unsupported(expr) {
            Some(field) => Err(GenerateError::UnsupportedField { packet: expr.name.clone(), field }),
            None => Ok(
                crate::generators::build_struct(
                    &Self::dialect(),
                    expr,
                    codec.calculated(),
                    just_fields,
                ),
            ),
        }
    }

    /// The function that writes the packet `expr` and the function that
    /// reads it. There is none where the packet has no codec description, and
    /// none where a field is a MAC address.
    pub fn create_serialization_functions(expr: &PacketExpr) -> (result: Result<
        String,
        GenerateError,
    >)
        ensures
            text_view(result) == part_text(
                expr@,
                |calculated: Seq<crate::ir::CalculatedCodecView>|
                    functions_text(rust_dialect(), expr@, calculated),
            ),
    {
        let codec = match build_codec(expr, Endianness::Little) {
            Ok(codec) => codec,
            Err(error) => { return Err(GenerateError::Codec(error)); },
        };
        match find_unsupported(expr) {
            Some(field) => Err(GenerateError::UnsupportedField { packet: expr.name.clone(), field }),
            None => Ok(
                crate::generators::create_serialization_functions(
                    &Self::dialect(),
                    expr,
                    codec.calculated(),
                ),
            ),
        }
    }

    /// The statements that write every field of `expr`. There are none
    /// where a field is a MAC address: the error names the first such field.
    pub fn create_serializers(expr: &PacketExpr) -> (result: Result<String, GenerateError>)
        requires
            expr@.total_length() <= usize::MAX,
        ensures
            text_view(result) == supported_text(
                expr@,
                fields_text(rust_dialect(), expr@.fields, expr@.fields.len(), true),
            ),
    {
        crate::generators::create_serializers(&Self::dialect(), expr)
    }

    /// The statements that write the field `expr`, whose first byte stands
    /// at `position`. The position moves on by the field's length. A field
    /// that is a MAC address has no statements: the error names it, and the
    /// position stays.
    pub fn get_field_serializer(expr: &TypeExpr, position: &mut usize) -> (result: Result<
        String,
        GenerateError,
    >)
        requires
            *old(position) + expr.expr.byte_length() <= usize::MAX,
        ensures
            text_view(result) == lone_field_text(
                expr@,
                field_text(rust_dialect(), expr@, *old(position) as nat, true),
            ),
            result is Ok ==> *final(position) == *old(position) + expr.expr.byte_length(),
            result is Err ==> *final(position) == *old(position),
    {
        crate::generators::get_field_serializer(&Self::dialect(), expr, position)
    }

    /// The statements that read the field `expr`, whose first byte stands at
    /// `position`. The position moves on by the field's length. A field
    /// that is a MAC address has no statements: the error names it, and the
    /// position stays.
    pub fn get_field_deserializer(expr: &TypeExpr, position: &mut usize) -> (result: Result<
        String,
        GenerateError,
    >)
        requires
            *old(position) + expr.expr.byte_length() <= usize::MAX,
        ensures
            text_view(result) == lone_field_text(
                expr@,
                field_text(rust_dialect(), expr@, *old(position) as nat, false),
            ),
            result is Ok ==> *final(position) == *old(position) + expr.expr.byte_length(),
            result is Err ==> *final(position) == *old(position),
    {
        crate::generators::get_field_deserializer(&Self::dialect(), expr, position)
    }
}

} // verus!
