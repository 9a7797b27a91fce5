//! The emitter for C.

use crate::codec::Endianness;
use crate::generators::{
    field_text, fields_text, find_unsupported, functions_text, generated, lone_field_text,
    no_bindings, part_text, rendered, struct_text, supported_text, text_view, Dialect,
    GenerateError,
};
use crate::ir::build_codec;
use crate::models::parsing_models::{PacketExpr, PacketExprList, TypeExpr};
use vstd::prelude::*;

verus! {

/// What stands before the first packet.
pub const C_HEADER: &'static str = "#include <math.h>\n#include <stdint.h>\n#include <stdlib.h>\n#include <string.h>\n\n";

/// Opens the type of a packet.
pub const C_TYPE_OPEN: &'static str = "typedef struct $N {\n";

/// Declares a scalar field.
pub const C_SCALAR_FIELD: &'static str = "\t$T $F;\n";

/// Declares an array field.
pub const C_ARRAY_FIELD: &'static str = "\t$T $F[$L];\n";

/// Declares a calculated field.
pub const C_CALCULATED_FIELD: &'static str = "\t$T $F;\n";

/// Closes the type of a packet.
pub const C_TYPE_CLOSE: &'static str = "} $N;\n\n";

/// Opens the function that writes a packet.
pub const C_SERIALIZE_OPEN: &'static str = "/* Writes a $N into a new buffer of $S bytes. */\nvoid serialize_$N(uint8_t** data, const $N* packet) {\n\t*data = (uint8_t*) calloc($S, sizeof(uint8_t));\n";

/// Names a field before the statements that write the packet.
pub const C_WRITE_PROLOGUE: &'static str = "";

/// Closes the function that writes a packet.
pub const C_SERIALIZE_CLOSE: &'static str = "}\n\n";

/// Opens the function that reads a packet.
pub const C_DESERIALIZE_OPEN: &'static str = "/* Reads a new $N from a buffer of $S bytes. */\nvoid deserialize_$N($N** packet, const uint8_t* data) {\n\t*packet = ($N*) malloc(sizeof($N));\n";

/// Stands between the statements that read a packet and what builds it.
pub const C_BUILDERS_OPEN: &'static str = "";

/// Hands a scalar field that was read to the packet.
pub const C_SCALAR_BUILDER: &'static str = "";

/// Starts handing an array field that was read to the packet.
pub const C_ARRAY_BUILDER_OPEN: &'static str = "";

/// Names one element of an array field that was read.
pub const C_ARRAY_BUILDER_ITEM: &'static str = "";

/// Stands between two elements of an array field that was read.
pub const C_ARRAY_BUILDER_SEPARATOR: &'static str = "";

/// Ends handing an array field that was read to the packet.
pub const C_ARRAY_BUILDER_CLOSE: &'static str = "";

/// Hands a calculated field to the packet.
pub const C_CALCULATED_BUILDER: &'static str = "";

/// Closes the function that reads a packet.
pub const C_DESERIALIZE_CLOSE: &'static str = "}\n\n";

/// Names a scalar field where it is written to the buffer.
pub const C_WRITE_SCALAR_ACCESSOR: &'static str = "packet->$F";

/// Names an element of an array field where it is written to the buffer.
pub const C_WRITE_ELEMENT_ACCESSOR: &'static str = "packet->$F[$E]";

/// Names a scalar field where it is read from the buffer.
pub const C_READ_SCALAR_ACCESSOR: &'static str = "(*packet)->$F";

/// Names an element of an array field where it is read from the buffer.
pub const C_READ_ELEMENT_ACCESSOR: &'static str = "(*packet)->$F[$E]";

/// Copies an unsigned slot of one byte into the buffer.
pub const C_BYTE_WRITE: &'static str = "\tmemcpy(&(*data)[$I], &$A, 1);\n";

/// Copies a signed slot of one byte into the buffer.
pub const C_SIGNED_BYTE_WRITE: &'static str = "\tmemcpy(&(*data)[$I], &$A, 1);\n";

/// Copies an unsigned slot of one byte out of the buffer.
pub const C_BYTE_READ: &'static str = "\t$A = (uint8_t) data[$I];\n";

/// Copies a signed slot of one byte out of the buffer.
pub const C_SIGNED_BYTE_READ: &'static str = "\t$A = (int8_t)((uint8_t) data[$I]);\n";

/// Takes the bits of an integer slot that is about to be written.
pub const C_INTEGER_WRITE_OPEN: &'static str = "\t{\n\t\t$W bits = ($W) $A;\n";

/// Takes the bits of a floating-point slot that is about to be written.
pub const C_FLOAT_WRITE_OPEN: &'static str = "\t{\n\t\t$W bits;\n\t\tmemcpy(&bits, &$A, sizeof(bits));\n";

/// Writes one byte of a slot.
pub const C_WRITE_BYTE: &'static str = "\t\t(*data)[$I] = (uint8_t) ((bits >> $H) & 0xFF);\n";

/// Ends the writing of a slot.
pub const C_WRITE_CLOSE: &'static str = "\t}\n";

/// Starts the reading of an integer slot.
pub const C_INTEGER_READ_OPEN: &'static str = "\t{\n\t\t$W bits = 0;\n";

/// Starts the reading of a floating-point slot.
pub const C_FLOAT_READ_OPEN: &'static str = "\t{\n\t\t$W bits = 0;\n";

/// Reads one byte of a slot.
pub const C_READ_BYTE: &'static str = "\t\tbits |= (($W) data[$I]) << $H;\n";

/// Stores the bits read as an integer slot.
pub const C_INTEGER_READ_CLOSE: &'static str = "\t\t$A = ($T) bits;\n\t}\n";

/// Stores the bits read as a floating-point slot.
pub const C_FLOAT_READ_CLOSE: &'static str = "\t\tmemcpy(&$A, &bits, sizeof(bits));\n\t}\n";

/// Names a scalar field in an expression.
pub const C_SCALAR_REFERENCE: &'static str = "(*packet)->$F";

/// Names an element of an array field in an expression.
pub const C_ELEMENT_REFERENCE: &'static str = "(*packet)->$F[$E]";

/// An unsigned integer literal.
pub const C_UNSIGNED_LITERAL: &'static str = "$A";

/// A signed integer literal.
pub const C_SIGNED_LITERAL: &'static str = "$A";

/// A floating-point literal.
pub const C_FLOAT_LITERAL: &'static str = "$A";

/// An expression in parentheses.
pub const C_GROUP: &'static str = "($A)";

/// Two operands joined by an operator.
pub const C_BINARY: &'static str = "$A $C $B";

/// A power.
pub const C_POWER: &'static str = "pow($A, $B)";

/// A conditional: `$A` is the predicate.
pub const C_SELECT: &'static str = "(($A) ? ($B) : ($C))";

/// A square root.
pub const C_SQRT: &'static str = "sqrt($A)";

/// The smaller of two values.
pub const C_MIN: &'static str = "fmin($A, $B)";

/// The greater of two values.
pub const C_MAX: &'static str = "fmax($A, $B)";

/// Gives a calculated field its value.
pub const C_CALCULATED_ASSIGN: &'static str = "\t(*packet)->$F = ($T) ($A);\n";

/// The operator of addition.
pub const C_OP_PLUS: &'static str = "+";

/// The operator of subtraction.
pub const C_OP_MINUS: &'static str = "-";

/// The operator of multiplication.
pub const C_OP_MULT: &'static str = "*";

/// The operator of division.
pub const C_OP_DIV: &'static str = "/";

/// The operator of greater than.
pub const C_OP_GT: &'static str = ">";

/// The operator of less than.
pub const C_OP_LT: &'static str = "<";

/// The operator of greater than or equal.
pub const C_OP_GTE: &'static str = ">=";

/// The operator of less than or equal.
pub const C_OP_LTE: &'static str = "<=";

/// The operator of equality.
pub const C_OP_EQUALS: &'static str = "==";

/// The operator of inequality.
pub const C_OP_NOT_EQUALS: &'static str = "!=";

/// The operator of conjunction.
pub const C_OP_AND: &'static str = "&&";

/// The operator of disjunction.
pub const C_OP_OR: &'static str = "||";

/// The type that holds a value declared `int8`.
pub const C_TYPE_INT8: &'static str = "int8_t";

/// The type that holds a value declared `uint8`.
pub const C_TYPE_UINT8: &'static str = "uint8_t";

/// The type that holds a value declared `int16`.
pub const C_TYPE_INT16: &'static str = "int16_t";

/// The type that holds a value declared `uint16`.
pub const C_TYPE_UINT16: &'static str = "uint16_t";

/// The type that holds a value declared `int32`.
pub const C_TYPE_INT32: &'static str = "int32_t";

/// The type that holds a value declared `uint32`.
pub const C_TYPE_UINT32: &'static str = "uint32_t";

/// The type that holds a value declared `int64`.
pub const C_TYPE_INT64: &'static str = "int64_t";

/// The type that holds a value declared `uint64`.
pub const C_TYPE_UINT64: &'static str = "uint64_t";

/// The type that holds a value declared `float32`.
pub const C_TYPE_FLOAT32: &'static str = "float";

/// The type that holds a value declared `float64`.
pub const C_TYPE_FLOAT64: &'static str = "double";

/// The unsigned type of 1 byte.
pub const C_WIDE1: &'static str = "uint8_t";

/// The unsigned type of 2 bytes.
pub const C_WIDE2: &'static str = "uint16_t";

/// The unsigned type of 4 bytes.
pub const C_WIDE4: &'static str = "uint32_t";

/// The unsigned type of 8 bytes.
pub const C_WIDE8: &'static str = "uint64_t";

/// The dialect of C.
pub open spec fn c_dialect() -> Dialect {
    Dialect {
        header: C_HEADER,
        type_open: C_TYPE_OPEN,
        scalar_field: C_SCALAR_FIELD,
        array_field: C_ARRAY_FIELD,
        calculated_field: C_CALCULATED_FIELD,
        type_close: C_TYPE_CLOSE,
        serialize_open: C_SERIALIZE_OPEN,
        write_prologue: C_WRITE_PROLOGUE,
        serialize_close: C_SERIALIZE_CLOSE,
        deserialize_open: C_DESERIALIZE_OPEN,
        builders_open: C_BUILDERS_OPEN,
        scalar_builder: C_SCALAR_BUILDER,
        array_builder_open: C_ARRAY_BUILDER_OPEN,
        array_builder_item: C_ARRAY_BUILDER_ITEM,
        array_builder_separator: C_ARRAY_BUILDER_SEPARATOR,
        array_builder_close: C_ARRAY_BUILDER_CLOSE,
        calculated_builder: C_CALCULATED_BUILDER,
        deserialize_close: C_DESERIALIZE_CLOSE,
        write_scalar_accessor: C_WRITE_SCALAR_ACCESSOR,
        write_element_accessor: C_WRITE_ELEMENT_ACCESSOR,
        read_scalar_accessor: C_READ_SCALAR_ACCESSOR,
        read_element_accessor: C_READ_ELEMENT_ACCESSOR,
        byte_write: C_BYTE_WRITE,
        signed_byte_write: C_SIGNED_BYTE_WRITE,
        byte_read: C_BYTE_READ,
        signed_byte_read: C_SIGNED_BYTE_READ,
        integer_write_open: C_INTEGER_WRITE_OPEN,
        float_write_open: C_FLOAT_WRITE_OPEN,
        write_byte: C_WRITE_BYTE,
        write_close: C_WRITE_CLOSE,
        integer_read_open: C_INTEGER_READ_OPEN,
        float_read_open: C_FLOAT_READ_OPEN,
        read_byte: C_READ_BYTE,
        integer_read_close: C_INTEGER_READ_CLOSE,
        float_read_close: C_FLOAT_READ_CLOSE,
        scalar_reference: C_SCALAR_REFERENCE,
        element_reference: C_ELEMENT_REFERENCE,
        unsigned_literal: C_UNSIGNED_LITERAL,
        signed_literal: C_SIGNED_LITERAL,
        float_literal: C_FLOAT_LITERAL,
        group: C_GROUP,
        binary: C_BINARY,
        power: C_POWER,
        select: C_SELECT,
        sqrt: C_SQRT,
        min: C_MIN,
        max: C_MAX,
        calculated_assign: C_CALCULATED_ASSIGN,
        op_plus: C_OP_PLUS,
        op_minus: C_OP_MINUS,
        op_mult: C_OP_MULT,
        op_div: C_OP_DIV,
        op_gt: C_OP_GT,
        op_lt: C_OP_LT,
        op_gte: C_OP_GTE,
        op_lte: C_OP_LTE,
        op_equals: C_OP_EQUALS,
        op_not_equals: C_OP_NOT_EQUALS,
        op_and: C_OP_AND,
        op_or: C_OP_OR,
        type_int8: C_TYPE_INT8,
        type_uint8: C_TYPE_UINT8,
        type_int16: C_TYPE_INT16,
        type_uint16: C_TYPE_UINT16,
        type_int32: C_TYPE_INT32,
        type_uint32: C_TYPE_UINT32,
        type_int64: C_TYPE_INT64,
        type_uint64: C_TYPE_UINT64,
        type_float32: C_TYPE_FLOAT32,
        type_float64: C_TYPE_FLOAT64,
        wide1: C_WIDE1,
        wide2: C_WIDE2,
        wide4: C_WIDE4,
        wide8: C_WIDE8,
    }
}

/// The emitter for C.
#[derive(Debug, Clone, Copy, PartialEq, Eq)]
pub struct CGenerator {}

impl CGenerator {
    /// The dialect of C.
    pub fn dialect() -> (dialect: Dialect)
        ensures
            dialect == c_dialect(),
    {
        Dialect {
            header: C_HEADER,
            type_open: C_TYPE_OPEN,
            scalar_field: C_SCALAR_FIELD,
            array_field: C_ARRAY_FIELD,
            calculated_field: C_CALCULATED_FIELD,
            type_close: C_TYPE_CLOSE,
            serialize_open: C_SERIALIZE_OPEN,
            write_prologue: C_WRITE_PROLOGUE,
            serialize_close: C_SERIALIZE_CLOSE,
            deserialize_open: C_DESERIALIZE_OPEN,
            builders_open: C_BUILDERS_OPEN,
            scalar_builder: C_SCALAR_BUILDER,
            array_builder_open: C_ARRAY_BUILDER_OPEN,
            array_builder_item: C_ARRAY_BUILDER_ITEM,
            array_builder_separator: C_ARRAY_BUILDER_SEPARATOR,
            array_builder_close: C_ARRAY_BUILDER_CLOSE,
            calculated_builder: C_CALCULATED_BUILDER,
            deserialize_close: C_DESERIALIZE_CLOSE,
            write_scalar_accessor: C_WRITE_SCALAR_ACCESSOR,
            write_element_accessor: C_WRITE_ELEMENT_ACCESSOR,
            read_scalar_accessor: C_READ_SCALAR_ACCESSOR,
            read_element_accessor: C_READ_ELEMENT_ACCESSOR,
            byte_write: C_BYTE_WRITE,
            signed_byte_write: C_SIGNED_BYTE_WRITE,
            byte_read: C_BYTE_READ,
            signed_byte_read: C_SIGNED_BYTE_READ,
            integer_write_open: C_INTEGER_WRITE_OPEN,
            float_write_open: C_FLOAT_WRITE_OPEN,
            write_byte: C_WRITE_BYTE,
            write_close: C_WRITE_CLOSE,
            integer_read_open: C_INTEGER_READ_OPEN,
            float_read_open: C_FLOAT_READ_OPEN,
            read_byte: C_READ_BYTE,
            integer_read_close: C_INTEGER_READ_CLOSE,
            float_read_close: C_FLOAT_READ_CLOSE,
            scalar_reference: C_SCALAR_REFERENCE,
            element_reference: C_ELEMENT_REFERENCE,
            unsigned_literal: C_UNSIGNED_LITERAL,
            signed_literal: C_SIGNED_LITERAL,
            float_literal: C_FLOAT_LITERAL,
            group: C_GROUP,
            binary: C_BINARY,
            power: C_POWER,
            select: C_SELECT,
            sqrt: C_SQRT,
            min: C_MIN,
            max: C_MAX,
            calculated_assign: C_CALCULATED_ASSIGN,
            op_plus: C_OP_PLUS,
            op_minus: C_OP_MINUS,
            op_mult: C_OP_MULT,
            op_div: C_OP_DIV,
            op_gt: C_OP_GT,
            op_lt: C_OP_LT,
            op_gte: C_OP_GTE,
            op_lte: C_OP_LTE,
            op_equals: C_OP_EQUALS,
            op_not_equals: C_OP_NOT_EQUALS,
            op_and: C_OP_AND,
            op_or: C_OP_OR,
            type_int8: C_TYPE_INT8,
            type_uint8: C_TYPE_UINT8,
            type_int16: C_TYPE_INT16,
            type_uint16: C_TYPE_UINT16,
            type_int32: C_TYPE_INT32,
            type_uint32: C_TYPE_UINT32,
            type_int64: C_TYPE_INT64,
            type_uint64: C_TYPE_UINT64,
            type_float32: C_TYPE_FLOAT32,
            type_float64: C_TYPE_FLOAT64,
            wide1: C_WIDE1,
            wide2: C_WIDE2,
            wide4: C_WIDE4,
            wide8: C_WIDE8,
        }
    }

    /// The source text for the packets of `expr`: the header, then for each
    /// packet its struct and the functions that write and read it. No text
    /// comes out where a packet has no codec description or has a field that
    /// is a MAC address: the error of the first such packet comes instead.
    pub fn generate(expr: &PacketExprList) -> (result: Result<String, GenerateError>)
        ensures
            text_view(result) == generated(c_dialect(), expr@),
    {
        crate::generators::generate_packets(&Self::dialect(), &expr.packets)
    }

    /// The text that stands before the first packet.
    pub fn create_headers() -> (text: String)
        ensures
            text@ == rendered(c_dialect().header@, no_bindings()),
    {
        crate::generators::render(Self::dialect().header, &crate::generators::empty_bindings())
    }

    /// The struct of the packet `expr`; the declarations of its fields alone
    /// where `just_fields` holds. There is none where the packet has no codec
    /// description, and none where a field is a MAC address.
    pub fn build_struct(expr: &PacketExpr, just_fields: bool) -> (result: Result<
        String,
        GenerateError,
    >)
        ensures
            text_view(result) == part_text(
                expr@,
                |calculated: Seq<crate::ir::CalculatedCodecView>|
                    struct_text(c_dialect(), expr@, calculated, just_fields),
            ),
    {
        let codec = match build_codec(expr, Endianness::Little) {
            Ok(codec) => codec,
            Err(error) => { return Err(GenerateError::Codec(error)); },
        };
        match find_unsupported(expr) {
            Some(field) => Err(GenerateError::UnsupportedField { packet: expr.name.clone(), field }),
            None => Ok(
                crate::generators::build_struct(
                    &Self::dialect(),
                    expr,
                    codec.calculated(),
                    just_fields,
                ),
            ),
        }
    }

    /// The function that writes the packet `expr` and the function that
    /// reads it. There is none where the packet has no codec description, and
    /// none where a field is a MAC address.
    pub fn create_serialization_functions(expr: &PacketExpr) -> (result: Result<
        String,
        GenerateError,
    >)
        ensures
            text_view(result) == part_text(
                expr@,
                |calculated: Seq<crate::ir::CalculatedCodecView>|
                    functions_text(c_dialect(), expr@, calculated),
            ),
    {
        let codec = match build_codec(expr, Endianness::Little) {
            Ok(codec) => codec,
            Err(error) => { return Err(GenerateError::Codec(error)); },
        };
        match find_unsupported(expr) {
            Some(field) => Err(GenerateError::UnsupportedField { packet: expr.name.clone(), field }),
            None => Ok(
                crate::generators::create_serialization_functions(
                    &Self::dialect(),
                    expr,
                    codec.calculated(),
                ),
            ),
        }
    }

    /// The statements that write every field of `expr`. There are none
    /// where a field is a MAC address: the error names the first such field.
    pub fn create_serializers(expr: &PacketExpr) -> (result: Result<String, GenerateError>)
        requires
            expr@.total_length() <= usize::MAX,
        ensures
            text_view(result) == supported_text(
                expr@,
                fields_text(c_dialect(), expr@.fields, expr@.fields.len(), true),
            ),
    {
        crate::generators::create_serializers(&Self::dialect(), expr)
    }

    /// The statements that write the field `expr`, whose first byte stands
    /// at `position`. The position moves on by the field's length. A field
    /// that is a MAC address has no statements: the error names it, and the
    /// position stays.
    pub fn get_field_serializer(expr: &TypeExpr, position: &mut usize) -> (result: Result<
        String,
        GenerateError,
    >)
        requires
            *old(position) + expr.expr.byte_length() <= usize::MAX,
        ensures
            text_view(result) == lone_field_text(
                expr@,
                field_text(c_dialect(), expr@, *old(position) as nat, true),
            ),
            result is Ok ==> *final(position) == *old(position) + expr.expr.byte_length(),
            result is Err ==> *final(position) == *old(position),
    {
        crate::generators::get_field_serializer(&Self::dialect(), expr, position)
    }

    /// The statements that read the field `expr`, whose first byte stands at
    /// `position`. The position moves on by the field's length. A field
    /// that is a MAC address has no statements: the error names it, and the
    /// position stays.
    pub fn get_field_deserializer(expr: &TypeExpr, position: &mut usize) -> (result: Result<
        String,
        GenerateError,
    >)
        requires
            *old(position) + expr.expr.byte_length() <= usize::MAX,
        ensures
            text_view(result) == lone_field_text(
                expr@,
                field_text(c_dialect(), expr@, *old(position) as nat, false),
            ),
            result is Ok ==> *final(position) == *old(position) + expr.expr.byte_length(),
            result is Err ==> *final(position) == *old(position),
    {
        crate::generators::get_field_deserializer(&Self::dialect(), expr, position)
    }
}

} // verus!
