//! The emitter for Zig.

use crate::codec::Endianness;
use crate::generators::{
    field_text, fields_text, find_unsupported, functions_text, generated, lone_field_text,
    no_bindings, part_text, rendered, struct_text, supported_text, text_view, Dialect,
    GenerateError,
};
use crate::ir::build_codec;
use crate::models::parsing_models::{PacketExpr, TypeExpr};
use vstd::prelude::*;

verus! {

/// What stands before the first packet.
pub const ZIG_HEADER: &'static str = "const std = @import(\"std\");\n\n";

/// Opens the type of a packet.
pub const ZIG_TYPE_OPEN: &'static str = "pub const $N = struct {\n";

/// Declares a scalar field.
pub const ZIG_SCALAR_FIELD: &'static str = "\t$F: $T = 0,\n";

/// Declares an array field.
pub const ZIG_ARRAY_FIELD: &'static str = "\t$F: [$L]$T = [_]$T{0} ** $L,\n";

/// Declares a calculated field.
pub const ZIG_CALCULATED_FIELD: &'static str = "\t$F: $T = 0,\n";

/// Closes the type of a packet.
pub const ZIG_TYPE_CLOSE: &'static str = "";

/// Opens the function that writes a packet.
pub const ZIG_SERIALIZE_OPEN: &'static str = "\npub fn serialize(packet: *const $N, data: *[$S]u8) void {\n";

/// Names a field before the statements that write the packet.
pub const ZIG_WRITE_PROLOGUE: &'static str = "\tconst $F = packet.$F;\n";

/// Closes the function that writes a packet.
pub const ZIG_SERIALIZE_CLOSE: &'static str = "}\n";

/// Opens the function that reads a packet.
pub const ZIG_DESERIALIZE_OPEN: &'static str = "\npub fn deserialize(packet: *$N, data: *const [$S]u8) void {\n";

/// Stands between the statements that read a packet and what builds it.
pub const ZIG_BUILDERS_OPEN: &'static str = "";

/// Hands a scalar field that was read to the packet.
pub const ZIG_SCALAR_BUILDER: &'static str = "";

/// Starts handing an array field that was read to the packet.
pub const ZIG_ARRAY_BUILDER_OPEN: &'static str = "";

/// Names one element of an array field that was read.
pub const ZIG_ARRAY_BUILDER_ITEM: &'static str = "";

/// Stands between two elements of an array field that was read.
pub const ZIG_ARRAY_BUILDER_SEPARATOR: &'static str = "";

/// Ends handing an array field that was read to the packet.
pub const ZIG_ARRAY_BUILDER_CLOSE: &'static str = "";

/// Hands a calculated field to the packet.
pub const ZIG_CALCULATED_BUILDER: &'static str = "";

/// Closes the function that reads a packet.
pub const ZIG_DESERIALIZE_CLOSE: &'static str = "}\n};\n\n";

/// Names a scalar field where it is written to the buffer.
pub const ZIG_WRITE_SCALAR_ACCESSOR: &'static str = "$F";

/// Names an element of an array field where it is written to the buffer.
pub const ZIG_WRITE_ELEMENT_ACCESSOR: &'static str = "$F[$E]";

/// Names a scalar field where it is read from the buffer.
pub const ZIG_READ_SCALAR_ACCESSOR: &'static str = "packet.$F";

/// Names an element of an array field where it is read from the buffer.
pub const ZIG_READ_ELEMENT_ACCESSOR: &'static str = "packet.$F[$E]";

/// Copies an unsigned slot of one byte into the buffer.
pub const ZIG_BYTE_WRITE: &'static str = "\tdata[$I] = $A;\n";

/// Copies a signed slot of one byte into the buffer.
pub const ZIG_SIGNED_BYTE_WRITE: &'static str = "\tdata[$I] = @bitCast($A);\n";

/// Copies an unsigned slot of one byte out of the buffer.
pub const ZIG_BYTE_READ: &'static str = "\t$A = data[$I];\n";

/// Copies a signed slot of one byte out of the buffer.
pub const ZIG_SIGNED_BYTE_READ: &'static str = "\t$A = @bitCast(data[$I]);\n";

/// Takes the bits of an integer slot that is about to be written.
pub const ZIG_INTEGER_WRITE_OPEN: &'static str = "\t{\n\t\tconst bits: $W = @bitCast($A);\n";

/// Takes the bits of a floating-point slot that is about to be written.
pub const ZIG_FLOAT_WRITE_OPEN: &'static str = "\t{\n\t\tconst bits: $W = @bitCast($A);\n";

/// Writes one byte of a slot.
pub const ZIG_WRITE_BYTE: &'static str = "\t\tdata[$I] = @truncate(bits >> $H);\n";

/// Ends the writing of a slot.
pub const ZIG_WRITE_CLOSE: &'static str = "\t}\n";

/// Starts the reading of an integer slot.
pub const ZIG_INTEGER_READ_OPEN: &'static str = "\t{\n\t\tvar bits: $W = 0;\n";

/// Starts the reading of a floating-point slot.
pub const ZIG_FLOAT_READ_OPEN: &'static str = "\t{\n\t\tvar bits: $W = 0;\n";

/// Reads one byte of a slot.
pub const ZIG_READ_BYTE: &'static str = "\t\tbits |= @as($W, data[$I]) << $H;\n";

/// Stores the bits read as an integer slot.
pub const ZIG_INTEGER_READ_CLOSE: &'static str = "\t\t$A = @bitCast(bits);\n\t}\n";

/// Stores the bits read as a floating-point slot.
pub const ZIG_FLOAT_READ_CLOSE: &'static str = "\t\t$A = @bitCast(bits);\n\t}\n";

/// Names a scalar field in an expression.
pub const ZIG_SCALAR_REFERENCE: &'static str = "packet.$F";

/// Names an element of an array field in an expression.
pub const ZIG_ELEMENT_REFERENCE: &'static str = "packet.$F[$E]";

/// An unsigned integer literal.
pub const ZIG_UNSIGNED_LITERAL: &'static str = "$A";

/// A signed integer literal.
pub const ZIG_SIGNED_LITERAL: &'static str = "$A";

/// A floating-point literal.
pub const ZIG_FLOAT_LITERAL: &'static str = "$A";

/// An expression in parentheses.
pub const ZIG_GROUP: &'static str = "($A)";

/// Two operands joined by an operator.
pub const ZIG_BINARY: &'static str = "$A $C $B";

/// A power.
pub const ZIG_POWER: &'static str = "std.math.pow(f64, $A, $B)";

/// A conditional: `$A` is the predicate.
pub const ZIG_SELECT: &'static str = "if ($A) $B else $C";

/// A square root.
pub const ZIG_SQRT: &'static str = "@sqrt($A)";

/// The smaller of two values.
pub const ZIG_MIN: &'static str = "@min($A, $B)";

/// The greater of two values.
pub const ZIG_MAX: &'static str = "@max($A, $B)";

/// Gives a calculated field its value.
pub const ZIG_CALCULATED_ASSIGN: &'static str = "\tpacket.$F = $A;\n";

/// The operator of addition.
pub const ZIG_OP_PLUS: &'static str = "+";

/// The operator of subtraction.
pub const ZIG_OP_MINUS: &'static str = "-";

/// The operator of multiplication.
pub const ZIG_OP_MULT: &'static str = "*";

/// The operator of division.
pub const ZIG_OP_DIV: &'static str = "/";

/// The operator of greater than.
pub const ZIG_OP_GT: &'static str = ">";

/// The operator of less than.
pub const ZIG_OP_LT: &'static str = "<";

/// The operator of greater than or equal.
pub const ZIG_OP_GTE: &'static str = ">=";

/// The operator of less than or equal.
pub const ZIG_OP_LTE: &'static str = "<=";

/// The operator of equality.
pub const ZIG_OP_EQUALS: &'static str = "==";

/// The operator of inequality.
pub const ZIG_OP_NOT_EQUALS: &'static str = "!=";

/// The operator of conjunction.
pub const ZIG_OP_AND: &'static str = "and";

/// The operator of disjunction.
pub const ZIG_OP_OR: &'static str = "or";

/// The type that holds a value declared `int8`.
pub const ZIG_TYPE_INT8: &'static str = "i8";

/// The type that holds a value declared `uint8`.
pub const ZIG_TYPE_UINT8: &'static str = "u8";

/// The type that holds a value declared `int16`.
pub const ZIG_TYPE_INT16: &'static str = "i16";

/// The type that holds a value declared `uint16`.
pub const ZIG_TYPE_UINT16: &'static str = "u16";

/// The type that holds a value declared `int32`.
pub const ZIG_TYPE_INT32: &'static str = "i32";

/// The type that holds a value declared `uint32`.
pub const ZIG_TYPE_UINT32: &'static str = "u32";

/// The type that holds a value declared `int64`.
pub const ZIG_TYPE_INT64: &'static str = "i64";

/// The type that holds a value declared `uint64`.
pub const ZIG_TYPE_UINT64: &'static str = "u64";

/// The type that holds a value declared `float32`.
pub const ZIG_TYPE_FLOAT32: &'static str = "f32";

/// The type that holds a value declared `float64`.
pub const ZIG_TYPE_FLOAT64: &'static str = "f64";

/// The unsigned type of 1 byte.
pub const ZIG_WIDE1: &'static str = "u8";

/// The unsigned type of 2 bytes.
pub const ZIG_WIDE2: &'static str = "u16";

/// The unsigned type of 4 bytes.
pub const ZIG_WIDE4: &'static str = "u32";

/// The unsigned type of 8 bytes.
pub const ZIG_WIDE8: &'static str = "u64";

/// The dialect of Zig.
pub open spec fn zig_dialect() -> Dialect {
    Dialect {
        header: ZIG_HEADER,
        type_open: ZIG_TYPE_OPEN,
        scalar_field: ZIG_SCALAR_FIELD,
        array_field: ZIG_ARRAY_FIELD,
        calculated_field: ZIG_CALCULATED_FIELD,
        type_close: ZIG_TYPE_CLOSE,
        serialize_open: ZIG_SERIALIZE_OPEN,
        write_prologue: ZIG_WRITE_PROLOGUE,
        serialize_close: ZIG_SERIALIZE_CLOSE,
        deserialize_open: ZIG_DESERIALIZE_OPEN,
        builders_open: ZIG_BUILDERS_OPEN,
        scalar_builder: ZIG_SCALAR_BUILDER,
        array_builder_open: ZIG_ARRAY_BUILDER_OPEN,
        array_builder_item: ZIG_ARRAY_BUILDER_ITEM,
        array_builder_separator: ZIG_ARRAY_BUILDER_SEPARATOR,
        array_builder_close: ZIG_ARRAY_BUILDER_CLOSE,
        calculated_builder: ZIG_CALCULATED_BUILDER,
        deserialize_close: ZIG_DESERIALIZE_CLOSE,
        write_scalar_accessor: ZIG_WRITE_SCALAR_ACCESSOR,
        write_element_accessor: ZIG_WRITE_ELEMENT_ACCESSOR,
        read_scalar_accessor: ZIG_READ_SCALAR_ACCESSOR,
        read_element_accessor: ZIG_READ_ELEMENT_ACCESSOR,
        byte_write: ZIG_BYTE_WRITE,
        signed_byte_write: ZIG_SIGNED_BYTE_WRITE,
        byte_read: ZIG_BYTE_READ,
        signed_byte_read: ZIG_SIGNED_BYTE_READ,
        integer_write_open: ZIG_INTEGER_WRITE_OPEN,
        float_write_open: ZIG_FLOAT_WRITE_OPEN,
        write_byte: ZIG_WRITE_BYTE,
        write_close: ZIG_WRITE_CLOSE,
        integer_read_open: ZIG_INTEGER_READ_OPEN,
        float_read_open: ZIG_FLOAT_READ_OPEN,
        read_byte: ZIG_READ_BYTE,
        integer_read_close: ZIG_INTEGER_READ_CLOSE,
        float_read_close: ZIG_FLOAT_READ_CLOSE,
        scalar_reference: ZIG_SCALAR_REFERENCE,
        element_reference: ZIG_ELEMENT_REFERENCE,
        unsigned_literal: ZIG_UNSIGNED_LITERAL,
        signed_literal: ZIG_SIGNED_LITERAL,
        float_literal: ZIG_FLOAT_LITERAL,
        group: ZIG_GROUP,
        binary: ZIG_BINARY,
        power: ZIG_POWER,
        select: ZIG_SELECT,
        sqrt: ZIG_SQRT,
        min: ZIG_MIN,
        max: ZIG_MAX,
        calculated_assign: ZIG_CALCULATED_ASSIGN,
        op_plus: ZIG_OP_PLUS,
        op_minus: ZIG_OP_MINUS,
        op_mult: ZIG_OP_MULT,
        op_div: ZIG_OP_DIV,
        op_gt: ZIG_OP_GT,
        op_lt: ZIG_OP_LT,
        op_gte: ZIG_OP_GTE,
        op_lte: ZIG_OP_LTE,
        op_equals: ZIG_OP_EQUALS,
        op_not_equals: ZIG_OP_NOT_EQUALS,
        op_and: ZIG_OP_AND,
        op_or: ZIG_OP_OR,
        type_int8: ZIG_TYPE_INT8,
        type_uint8: ZIG_TYPE_UINT8,
        type_int16: ZIG_TYPE_INT16,
        type_uint16: ZIG_TYPE_UINT16,
        type_int32: ZIG_TYPE_INT32,
        type_uint32: ZIG_TYPE_UINT32,
        type_int64: ZIG_TYPE_INT64,
        type_uint64: ZIG_TYPE_UINT64,
        type_float32: ZIG_TYPE_FLOAT32,
        type_float64: ZIG_TYPE_FLOAT64,
        wide1: ZIG_WIDE1,
        wide2: ZIG_WIDE2,
        wide4: ZIG_WIDE4,
        wide8: ZIG_WIDE8,
    }
}

/// The emitter for Zig.
#[derive(Debug, Clone, Copy, PartialEq, Eq)]
pub struct ZigGenerator {}

impl ZigGenerator {
    /// The dialect of Zig.
    pub fn dialect() -> (dialect: Dialect)
        ensures
            dialect == zig_dialect(),
    {
        Dialect {
            header: ZIG_HEADER,
            type_open: ZIG_TYPE_OPEN,
            scalar_field: ZIG_SCALAR_FIELD,
            array_field: ZIG_ARRAY_FIELD,
            calculated_field: ZIG_CALCULATED_FIELD,
            type_close: ZIG_TYPE_CLOSE,
            serialize_open: ZIG_SERIALIZE_OPEN,
            write_prologue: ZIG_WRITE_PROLOGUE,
            serialize_close: ZIG_SERIALIZE_CLOSE,
            deserialize_open: ZIG_DESERIALIZE_OPEN,
            builders_open: ZIG_BUILDERS_OPEN,
            scalar_builder: ZIG_SCALAR_BUILDER,
            array_builder_open: ZIG_ARRAY_BUILDER_OPEN,
            array_builder_item: ZIG_ARRAY_BUILDER_ITEM,
            array_builder_separator: ZIG_ARRAY_BUILDER_SEPARATOR,
            array_builder_close: ZIG_ARRAY_BUILDER_CLOSE,
            calculated_builder: ZIG_CALCULATED_BUILDER,
            deserialize_close: ZIG_DESERIALIZE_CLOSE,
            write_scalar_accessor: ZIG_WRITE_SCALAR_ACCESSOR,
            write_element_accessor: ZIG_WRITE_ELEMENT_ACCESSOR,
            read_scalar_accessor: ZIG_READ_SCALAR_ACCESSOR,
            read_element_accessor: ZIG_READ_ELEMENT_ACCESSOR,
            byte_write: ZIG_BYTE_WRITE,
            signed_byte_write: ZIG_SIGNED_BYTE_WRITE,
            byte_read: ZIG_BYTE_READ,
            signed_byte_read: ZIG_SIGNED_BYTE_READ,
            integer_write_open: ZIG_INTEGER_WRITE_OPEN,
            float_write_open: ZIG_FLOAT_WRITE_OPEN,
            write_byte: ZIG_WRITE_BYTE,
            write_close: ZIG_WRITE_CLOSE,
            integer_read_open: ZIG_INTEGER_READ_OPEN,
            float_read_open: ZIG_FLOAT_READ_OPEN,
            read_byte: ZIG_READ_BYTE,
            integer_read_close: ZIG_INTEGER_READ_CLOSE,
            float_read_close: ZIG_FLOAT_READ_CLOSE,
            scalar_reference: ZIG_SCALAR_REFERENCE,
            element_reference: ZIG_ELEMENT_REFERENCE,
            unsigned_literal: ZIG_UNSIGNED_LITERAL,
            signed_literal: ZIG_SIGNED_LITERAL,
            float_literal: ZIG_FLOAT_LITERAL,
            group: ZIG_GROUP,
            binary: ZIG_BINARY,
            power: ZIG_POWER,
            select: ZIG_SELECT,
            sqrt: ZIG_SQRT,
            min: ZIG_MIN,
            max: ZIG_MAX,
            calculated_assign: ZIG_CALCULATED_ASSIGN,
            op_plus: ZIG_OP_PLUS,
            op_minus: ZIG_OP_MINUS,
            op_mult: ZIG_OP_MULT,
            op_div: ZIG_OP_DIV,
            op_gt: ZIG_OP_GT,
            op_lt: ZIG_OP_LT,
            op_gte: ZIG_OP_GTE,
            op_lte: ZIG_OP_LTE,
            op_equals: ZIG_OP_EQUALS,
            op_not_equals: ZIG_OP_NOT_EQUALS,
            op_and: ZIG_OP_AND,
            op_or: ZIG_OP_OR,
            type_int8: ZIG_TYPE_INT8,
            type_uint8: ZIG_TYPE_UINT8,
            type_int16: ZIG_TYPE_INT16,
            type_uint16: ZIG_TYPE_UINT16,
            type_int32: ZIG_TYPE_INT32,
            type_uint32: ZIG_TYPE_UINT32,
            type_int64: ZIG_TYPE_INT64,
            type_uint64: ZIG_TYPE_UINT64,
            type_float32: ZIG_TYPE_FLOAT32,
            type_float64: ZIG_TYPE_FLOAT64,
            wide1: ZIG_WIDE1,
            wide2: ZIG_WIDE2,
            wide4: ZIG_WIDE4,
            wide8: ZIG_WIDE8,
        }
    }

    /// The source text for the packets of `expr`: the header, then for each
    /// packet its struct and the functions that write and read it. No text
    /// comes out where a packet has no codec description or has a field that
    /// is a MAC address: the error of the first such packet comes instead.
    pub fn generate(expr: &Vec<PacketExpr>) -> (result: Result<String, GenerateError>)
        ensures
            text_view(result) == generated(zig_dialect(), crate::parser::packet_views(expr@)),
    {
        crate::generators::generate_packets(&Self::dialect(), expr)
    }

    /// The text that stands before the first packet.
    pub fn create_headers() -> (text: String)
        ensures
            text@ == rendered(zig_dialect().header@, no_bindings()),
    {
        crate::generators::render(Self::dialect().header, &crate::generators::empty_bindings())
    }

    /// The struct of the packet `expr`; the declarations of its fields alone
    /// where `just_fields` holds. There is none where the packet has no codec
    /// description, and none where a field is a MAC address.
    pub fn build_struct(expr: &PacketExpr, just_fields: bool) -> (result: Result<
        String,
        GenerateError,
    >)
        ensures
            text_view(result) == part_text(
                expr@,
                |calculated: Seq<crate::ir::CalculatedCodecView>|
                    struct_text(zig_dialect(), expr@, calculated, just_fields),
            ),
    {
        let codec = match build_codec(expr, Endianness::Little) {
            Ok(codec) => codec,
            Err(error) => { return Err(GenerateError::Codec(error)); },
        };
        match find_unsupported(expr) {
            Some(field) => Err(GenerateError::UnsupportedField { packet: expr.name.clone(), field }),
            None => Ok(
                crate::generators::build_struct(
                    &Self::dialect(),
                    expr,
                    codec.calculated(),
                    just_fields,
                ),
            ),
        }
    }

    /// The function that writes the packet `expr` and the function that
    /// reads it. There is none where the packet has no codec description, and
    /// none where a field is a MAC address.
    pub fn create_serialization_functions(expr: &PacketExpr) -> (result: Result<
        String,
        GenerateError,
    >)
        ensures
            text_view(result) == part_text(
                expr@,
                |calculated: Seq<crate::ir::CalculatedCodecView>|
                    functions_text(zig_dialect(), expr@, calculated),
            ),
    {
        let codec = match build_codec(expr, Endianness::Little) {
            Ok(codec) => codec,
            Err(error) => { return Err(GenerateError::Codec(error)); },
        };
        match find_unsupported(expr) {
            Some(field) => Err(GenerateError::UnsupportedField { packet: expr.name.clone(), field }),
            None => Ok(
                crate::generators::create_serialization_functions(
                    &Self::dialect(),
                    expr,
                    codec.calculated(),
                ),
            ),
        }
    }

    /// The statements that write every field of `expr`. There are none
    /// where a field is a MAC address: the error names the first such field.
    pub fn create_serializers(expr: &PacketExpr) -> (result: Result<String, GenerateError>)
        requires
            expr@.total_length() <= usize::MAX,
        ensures
            text_view(result) == supported_text(
                expr@,
                fields_text(zig_dialect(), expr@.fields, expr@.fields.len(), true),
            ),
    {
        crate::generators::create_serializers(&Self::dialect(), expr)
    }

    /// The statements that write the field `expr`, whose first byte stands
    /// at `position`. The position moves on by the field's length. A field
    /// that is a MAC address has no statements: the error names it, and the
    /// position stays.
    pub fn get_field_serializer(expr: &TypeExpr, position: &mut usize) -> (result: Result<
        String,
        GenerateError,
    >)
        requires
            *old(position) + expr.expr.byte_length() <= usize::MAX,
        ensures
            text_view(result) == lone_field_text(
                expr@,
                field_text(zig_dialect(), expr@, *old(position) as nat, true),
            ),
            result is Ok ==> *final(position) == *old(position) + expr.expr.byte_length(),
            result is Err ==> *final(position) == *old(position),
    {
        crate::generators::get_field_serializer(&Self::dialect(), expr, position)
    }

    /// The statements that read the field `expr`, whose first byte stands at
    /// `position`. The position moves on by the field's length. A field
    /// that is a MAC address has no statements: the error names it, and the
    /// position stays.
    pub fn get_field_deserializer(expr: &TypeExpr, position: &mut usize) -> (result: Result<
        String,
        GenerateError,
    >)
        requires
            *old(position) + expr.expr.byte_length() <= usize::MAX,
        ensures
            text_view(result) == lone_field_text(
                expr@,
                field_text(zig_dialect(), expr@, *old(position) as nat, false),
            ),
            result is Ok ==> *final(position) == *old(position) + expr.expr.byte_length(),
            result is Err ==> *final(position) == *old(position),
    {
        crate::generators::get_field_deserializer(&Self::dialect(), expr, position)
    }
}

} // verus!
