//! The emitter for C#.

use crate::codec::Endianness;
use crate::generators::{
    field_text, fields_text, find_unsupported, functions_text, generated, lone_field_text,
    no_bindings, part_text, rendered, struct_text, supported_text, text_view, Dialect,
    GenerateError,
};
use crate::ir::build_codec;
use crate::models::parsing_models::{PacketExpr, PacketExprList, TypeExpr};
use vstd::prelude::*;

verus! {

/// What stands before the first packet.
pub const NET_HEADER: &'static str = "using System;\n\n";

/// Opens the type of a packet.
pub const NET_TYPE_OPEN: &'static str = "public class $N {\n";

/// Declares a scalar field.
pub const NET_SCALAR_FIELD: &'static str = "\tpublic $T $P { get; set; }\n";

/// Declares an array field.
pub const NET_ARRAY_FIELD: &'static str = "\tpublic $T[] $P { get; set; } = new $T[$L];\n";

/// Declares a calculated field.
pub const NET_CALCULATED_FIELD: &'static str = "\tpublic $T $P { get; set; }\n";

/// Closes the type of a packet.
pub const NET_TYPE_CLOSE: &'static str = "";

/// Opens the function that writes a packet.
pub const NET_SERIALIZE_OPEN: &'static str = "\npublic byte[] Serialize() {\n\tvar data = new byte[$S];\n";

/// Names a field before the statements that write the packet.
pub const NET_WRITE_PROLOGUE: &'static str = "";

/// Closes the function that writes a packet.
pub const NET_SERIALIZE_CLOSE: &'static str = "\treturn data;\n}\n";

/// Opens the function that reads a packet.
pub const NET_DESERIALIZE_OPEN: &'static str = "\npublic static $N Deserialize(byte[] data) {\n";

/// Stands between the statements that read a packet and what builds it.
pub const NET_BUILDERS_OPEN: &'static str = "\tvar result = new $N {\n";

/// Hands a scalar field that was read to the packet.
pub const NET_SCALAR_BUILDER: &'static str = "\t\t$P = $P,\n";

/// Starts handing an array field that was read to the packet.
pub const NET_ARRAY_BUILDER_OPEN: &'static str = "\t\t$P = new $T[] { ";

/// Names one element of an array field that was read.
pub const NET_ARRAY_BUILDER_ITEM: &'static str = "$P$E";

/// Stands between two elements of an array field that was read.
pub const NET_ARRAY_BUILDER_SEPARATOR: &'static str = ", ";

/// Ends handing an array field that was read to the packet.
pub const NET_ARRAY_BUILDER_CLOSE: &'static str = " },\n";

/// Hands a calculated field to the packet.
pub const NET_CALCULATED_BUILDER: &'static str = "\t\t$P = $P,\n";

/// Closes the function that reads a packet.
pub const NET_DESERIALIZE_CLOSE: &'static str = "\t};\n\treturn result;\n}\n}\n\n";

/// Names a scalar field where it is written to the buffer.
pub const NET_WRITE_SCALAR_ACCESSOR: &'static str = "$P";

/// Names an element of an array field where it is written to the buffer.
pub const NET_WRITE_ELEMENT_ACCESSOR: &'static str = "$P[$E]";

/// Names a scalar field where it is read from the buffer.
pub const NET_READ_SCALAR_ACCESSOR: &'static str = "$P";

/// Names an element of an array field where it is read from the buffer.
pub const NET_READ_ELEMENT_ACCESSOR: &'static str = "$P$E";

/// Copies an unsigned slot of one byte into the buffer.
pub const NET_BYTE_WRITE: &'static str = "\tdata[$I] = $A;\n";

/// Copies a signed slot of one byte into the buffer.
pub const NET_SIGNED_BYTE_WRITE: &'static str = "\tdata[$I] = unchecked((byte) $A);\n";

/// Copies an unsigned slot of one byte out of the buffer.
pub const NET_BYTE_READ: &'static str = "\tvar $A = data[$I];\n";

/// Copies a signed slot of one byte out of the buffer.
pub const NET_SIGNED_BYTE_READ: &'static str = "\tvar $A = unchecked((sbyte) data[$I]);\n";

/// Takes the bits of an integer slot that is about to be written.
pub const NET_INTEGER_WRITE_OPEN: &'static str = "\t{\n\t\t$W bits = unchecked(($W) $A);\n";

/// Takes the bits of a floating-point slot that is about to be written.
pub const NET_FLOAT_WRITE_OPEN: &'static str = "\t{\n\t\t$W bits = BitConverter.To$W(BitConverter.GetBytes($A), 0);\n";

/// Writes one byte of a slot.
pub const NET_WRITE_BYTE: &'static str = "\t\tdata[$I] = (byte) ((bits >> $H) & 0xFF);\n";

/// Ends the writing of a slot.
pub const NET_WRITE_CLOSE: &'static str = "\t}\n";

/// Starts the reading of an integer slot.
pub const NET_INTEGER_READ_OPEN: &'static str = "\tvar $A = unchecked(($T) (($W) 0";

/// Starts the reading of a floating-point slot.
pub const NET_FLOAT_READ_OPEN: &'static str = "\tvar $A = BitConverter.To$T(BitConverter.GetBytes(unchecked(($W) (($W) 0";

/// Reads one byte of a slot.
pub const NET_READ_BYTE: &'static str = " | (($W) data[$I] << $H)";

/// Stores the bits read as an integer slot.
pub const NET_INTEGER_READ_CLOSE: &'static str = "));\n";

/// Stores the bits read as a floating-point slot.
pub const NET_FLOAT_READ_CLOSE: &'static str = "))), 0);\n";

/// Names a scalar field in an expression.
pub const NET_SCALAR_REFERENCE: &'static str = "$P";

/// Names an element of an array field in an expression.
pub const NET_ELEMENT_REFERENCE: &'static str = "$P$E";

/// An unsigned integer literal.
pub const NET_UNSIGNED_LITERAL: &'static str = "$A";

/// A signed integer literal.
pub const NET_SIGNED_LITERAL: &'static str = "$A";

/// A floating-point literal.
pub const NET_FLOAT_LITERAL: &'static str = "$A";

/// An expression in parentheses.
pub const NET_GROUP: &'static str = "($A)";

/// Two operands joined by an operator.
pub const NET_BINARY: &'static str = "$A $C $B";

/// A power.
pub const NET_POWER: &'static str = "Math.Pow($A, $B)";

/// A conditional: `$A` is the predicate.
pub const NET_SELECT: &'static str = "(($A) ? ($B) : ($C))";

/// A square root.
pub const NET_SQRT: &'static str = "Math.Sqrt($A)";

/// The smaller of two values.
pub const NET_MIN: &'static str = "Math.Min($A, $B)";

/// The greater of two values.
pub const NET_MAX: &'static str = "Math.Max($A, $B)";

/// Gives a calculated field its value.
pub const NET_CALCULATED_ASSIGN: &'static str = "\tvar $P = ($T) ($A);\n";

/// The operator of addition.
pub const NET_OP_PLUS: &'static str = "+";

/// The operator of subtraction.
pub const NET_OP_MINUS: &'static str = "-";

/// The operator of multiplication.
pub const NET_OP_MULT: &'static str = "*";

/// The operator of division.
pub const NET_OP_DIV: &'static str = "/";

/// The operator of greater than.
pub const NET_OP_GT: &'static str = ">";

/// The operator of less than.
pub const NET_OP_LT: &'static str = "<";

/// The operator of greater than or equal.
pub const NET_OP_GTE: &'static str = ">=";

/// The operator of less than or equal.
pub const NET_OP_LTE: &'static str = "<=";

/// The operator of equality.
pub const NET_OP_EQUALS: &'static str = "==";

/// The operator of inequality.
pub const NET_OP_NOT_EQUALS: &'static str = "!=";

/// The operator of conjunction.
pub const NET_OP_AND: &'static str = "&&";

/// The operator of disjunction.
pub const NET_OP_OR: &'static str = "||";

/// The type that holds a value declared `int8`.
pub const NET_TYPE_INT8: &'static str = "SByte";

/// The type that holds a value declared `uint8`.
pub const NET_TYPE_UINT8: &'static str = "Byte";

/// The type that holds a value declared `int16`.
pub const NET_TYPE_INT16: &'static str = "Int16";

/// The type that holds a value declared `uint16`.
pub const NET_TYPE_UINT16: &'static str = "UInt16";

/// The type that holds a value declared `int32`.
pub const NET_TYPE_INT32: &'static str = "Int32";

/// The type that holds a value declared `uint32`.
pub const NET_TYPE_UINT32: &'static str = "UInt32";

/// The type that holds a value declared `int64`.
pub const NET_TYPE_INT64: &'static str = "Int64";

/// The type that holds a value declared `uint64`.
pub const NET_TYPE_UINT64: &'static str = "UInt64";

/// The type that holds a value declared `float32`.
pub const NET_TYPE_FLOAT32: &'static str = "Single";

/// The type that holds a value declared `float64`.
pub const NET_TYPE_FLOAT64: &'static str = "Double";

/// The unsigned type of 1 byte.
pub const NET_WIDE1: &'static str = "Byte";

/// The unsigned type of 2 bytes.
pub const NET_WIDE2: &'static str = "UInt16";

/// The unsigned type of 4 bytes.
pub const NET_WIDE4: &'static str = "UInt32";

/// The unsigned type of 8 bytes.
pub const NET_WIDE8: &'static str = "UInt64";

/// The dialect of C#.
pub open spec fn net_dialect() -> Dialect {
    Dialect {
        header: NET_HEADER,
        type_open: NET_TYPE_OPEN,
        scalar_field: NET_SCALAR_FIELD,
        array_field: NET_ARRAY_FIELD,
        calculated_field: NET_CALCULATED_FIELD,
        type_close: NET_TYPE_CLOSE,
        serialize_open: NET_SERIALIZE_OPEN,
        write_prologue: NET_WRITE_PROLOGUE,
        serialize_close: NET_SERIALIZE_CLOSE,
        deserialize_open: NET_DESERIALIZE_OPEN,
        builders_open: NET_BUILDERS_OPEN,
        scalar_builder: NET_SCALAR_BUILDER,
        array_builder_open: NET_ARRAY_BUILDER_OPEN,
        array_builder_item: NET_ARRAY_BUILDER_ITEM,
        array_builder_separator: NET_ARRAY_BUILDER_SEPARATOR,
        array_builder_close: NET_ARRAY_BUILDER_CLOSE,
        calculated_builder: NET_CALCULATED_BUILDER,
        deserialize_close: NET_DESERIALIZE_CLOSE,
        write_scalar_accessor: NET_WRITE_SCALAR_ACCESSOR,
        write_element_accessor: NET_WRITE_ELEMENT_ACCESSOR,
        read_scalar_accessor: NET_READ_SCALAR_ACCESSOR,
        read_element_accessor: NET_READ_ELEMENT_ACCESSOR,
        byte_write: NET_BYTE_WRITE,
        signed_byte_write: NET_SIGNED_BYTE_WRITE,
        byte_read: NET_BYTE_READ,
        signed_byte_read: NET_SIGNED_BYTE_READ,
        integer_write_open: NET_INTEGER_WRITE_OPEN,
        float_write_open: NET_FLOAT_WRITE_OPEN,
        write_byte: NET_WRITE_BYTE,
        write_close: NET_WRITE_CLOSE,
        integer_read_open: NET_INTEGER_READ_OPEN,
        float_read_open: NET_FLOAT_READ_OPEN,
        read_byte: NET_READ_BYTE,
        integer_read_close: NET_INTEGER_READ_CLOSE,
        float_read_close: NET_FLOAT_READ_CLOSE,
        scalar_reference: NET_SCALAR_REFERENCE,
        element_reference: NET_ELEMENT_REFERENCE,
        unsigned_literal: NET_UNSIGNED_LITERAL,
        signed_literal: NET_SIGNED_LITERAL,
        float_literal: NET_FLOAT_LITERAL,
        group: NET_GROUP,
        binary: NET_BINARY,
        power: NET_POWER,
        select: NET_SELECT,
        sqrt: NET_SQRT,
        min: NET_MIN,
        max: NET_MAX,
        calculated_assign: NET_CALCULATED_ASSIGN,
        op_plus: NET_OP_PLUS,
        op_minus: NET_OP_MINUS,
        op_mult: NET_OP_MULT,
        op_div: NET_OP_DIV,
        op_gt: NET_OP_GT,
        op_lt: NET_OP_LT,
        op_gte: NET_OP_GTE,
        op_lte: NET_OP_LTE,
        op_equals: NET_OP_EQUALS,
        op_not_equals: NET_OP_NOT_EQUALS,
        op_and: NET_OP_AND,
        op_or: NET_OP_OR,
        type_int8: NET_TYPE_INT8,
        type_uint8: NET_TYPE_UINT8,
        type_int16: NET_TYPE_INT16,
        type_uint16: NET_TYPE_UINT16,
        type_int32: NET_TYPE_INT32,
        type_uint32: NET_TYPE_UINT32,
        type_int64: NET_TYPE_INT64,
        type_uint64: NET_TYPE_UINT64,
        type_float32: NET_TYPE_FLOAT32,
        type_float64: NET_TYPE_FLOAT64,
        wide1: NET_WIDE1,
        wide2: NET_WIDE2,
        wide4: NET_WIDE4,
        wide8: NET_WIDE8,
    }
}

/// The emitter for C#.
#[derive(Debug, Clone, Copy, PartialEq, Eq)]
pub struct CSharpGenerator {}

impl CSharpGenerator {
    /// The dialect of C#.
    pub fn dialect() -> (dialect: Dialect)
        ensures
            dialect == net_dialect(),
    {
        Dialect {
            header: NET_HEADER,
            type_open: NET_TYPE_OPEN,
            scalar_field: NET_SCALAR_FIELD,
            array_field: NET_ARRAY_FIELD,
            calculated_field: NET_CALCULATED_FIELD,
            type_close: NET_TYPE_CLOSE,
            serialize_open: NET_SERIALIZE_OPEN,
            write_prologue: NET_WRITE_PROLOGUE,
            serialize_close: NET_SERIALIZE_CLOSE,
            deserialize_open: NET_DESERIALIZE_OPEN,
            builders_open: NET_BUILDERS_OPEN,
            scalar_builder: NET_SCALAR_BUILDER,
            array_builder_open: NET_ARRAY_BUILDER_OPEN,
            array_builder_item: NET_ARRAY_BUILDER_ITEM,
            array_builder_separator: NET_ARRAY_BUILDER_SEPARATOR,
            array_builder_close: NET_ARRAY_BUILDER_CLOSE,
            calculated_builder: NET_CALCULATED_BUILDER,
            deserialize_close: NET_DESERIALIZE_CLOSE,
            write_scalar_accessor: NET_WRITE_SCALAR_ACCESSOR,
            write_element_accessor: NET_WRITE_ELEMENT_ACCESSOR,
            read_scalar_accessor: NET_READ_SCALAR_ACCESSOR,
            read_element_accessor: NET_READ_ELEMENT_ACCESSOR,
            byte_write: NET_BYTE_WRITE,
            signed_byte_write: NET_SIGNED_BYTE_WRITE,
            byte_read: NET_BYTE_READ,
            signed_byte_read: NET_SIGNED_BYTE_READ,
            integer_write_open: NET_INTEGER_WRITE_OPEN,
            float_write_open: NET_FLOAT_WRITE_OPEN,
            write_byte: NET_WRITE_BYTE,
            write_close: NET_WRITE_CLOSE,
            integer_read_open: NET_INTEGER_READ_OPEN,
            float_read_open: NET_FLOAT_READ_OPEN,
            read_byte: NET_READ_BYTE,
            integer_read_close: NET_INTEGER_READ_CLOSE,
            float_read_close: NET_FLOAT_READ_CLOSE,
            scalar_reference: NET_SCALAR_REFERENCE,
            element_reference: NET_ELEMENT_REFERENCE,
            unsigned_literal: NET_UNSIGNED_LITERAL,
            signed_literal: NET_SIGNED_LITERAL,
            float_literal: NET_FLOAT_LITERAL,
            group: NET_GROUP,
            binary: NET_BINARY,
            power: NET_POWER,
            select: NET_SELECT,
            sqrt: NET_SQRT,
            min: NET_MIN,
            max: NET_MAX,
            calculated_assign: NET_CALCULATED_ASSIGN,
            op_plus: NET_OP_PLUS,
            op_minus: NET_OP_MINUS,
            op_mult: NET_OP_MULT,
            op_div: NET_OP_DIV,
            op_gt: NET_OP_GT,
            op_lt: NET_OP_LT,
            op_gte: NET_OP_GTE,
            op_lte: NET_OP_LTE,
            op_equals: NET_OP_EQUALS,
            op_not_equals: NET_OP_NOT_EQUALS,
            op_and: NET_OP_AND,
            op_or: NET_OP_OR,
            type_int8: NET_TYPE_INT8,
            type_uint8: NET_TYPE_UINT8,
            type_int16: NET_TYPE_INT16,
            type_uint16: NET_TYPE_UINT16,
            type_int32: NET_TYPE_INT32,
            type_uint32: NET_TYPE_UINT32,
            type_int64: NET_TYPE_INT64,
            type_uint64: NET_TYPE_UINT64,
            type_float32: NET_TYPE_FLOAT32,
            type_float64: NET_TYPE_FLOAT64,
            wide1: NET_WIDE1,
            wide2: NET_WIDE2,
            wide4: NET_WIDE4,
            wide8: NET_WIDE8,
        }
    }

    /// The source text for the packets of `expr`: the header, then for each
    /// packet its class and the functions that write and read it. No text
    /// comes out where a packet has no codec description or has a field that
    /// is a MAC address: the error of the first such packet comes instead.
    pub fn generate(expr: &PacketExprList) -> (result: Result<String, GenerateError>)
        ensures
            text_view(result) == generated(net_dialect(), expr@),
    {
        crate::generators::generate_packets(&Self::dialect(), &expr.packets)
    }

    /// The text that stands before the first packet.
    pub fn create_headers() -> (text: String)
        ensures
            text@ == rendered(net_dialect().header@, no_bindings()),
    {
        crate::generators::render(Self::dialect().header, &crate::generators::empty_bindings())
    }

    /// The class of the packet `expr`; the declarations of its fields alone
    /// where `just_fields` holds. There is none where the packet has no codec
    /// description, and none where a field is a MAC address.
    pub fn build_class(expr: &PacketExpr, just_fields: bool) -> (result: Result<
        String,
        GenerateError,
    >)
        ensures
            text_view(result) == part_text(
                expr@,
                |calculated: Seq<crate::ir::CalculatedCodecView>|
                    struct_text(net_dialect(), expr@, calculated, just_fields),
            ),
    {
        let codec = match build_codec(expr, Endianness::Little) {
            Ok(codec) => codec,
            Err(error) => { return Err(GenerateError::Codec(error)); },
        };
        match find_unsupported(expr) {
            Some(field) => Err(GenerateError::UnsupportedField { packet: expr.name.clone(), field }),
            None => Ok(
                crate::generators::build_struct(
                    &Self::dialect(),
                    expr,
                    codec.calculated(),
                    just_fields,
                ),
            ),
        }
    }

    /// The function that writes the packet `expr` and the function that
    /// reads it. There is none where the packet has no codec description, and
    /// none where a field is a MAC address.
    pub fn create_serialization_functions(expr: &PacketExpr) -> (result: Result<
        String,
        GenerateError,
    >)
        ensures
            text_view(result) == part_text(
                expr@,
                |calculated: Seq<crate::ir::CalculatedCodecView>|
                    functions_text(net_dialect(), expr@, calculated),
            ),
    {
        let codec = match build_codec(expr, Endianness::Little) {
            Ok(codec) => codec,
            Err(error) => { return Err(GenerateError::Codec(error)); },
        };
        match find_unsupported(expr) {
            Some(field) => Err(GenerateError::UnsupportedField { packet: expr.name.clone(), field }),
            None => Ok(
                crate::generators::create_serialization_functions(
                    &Self::dialect(),
                    expr,
                    codec.calculated(),
                ),
            ),
        }
    }

    /// The statements that write every field of `expr`. There are none
    /// where a field is a MAC address: the error names the first such field.
    pub fn create_serializers(expr: &PacketExpr) -> (result: Result<String, GenerateError>)
        requires
            expr@.total_length() <= usize::MAX,
        ensures
            text_view(result) == supported_text(
                expr@,
                fields_text(net_dialect(), expr@.fields, expr@.fields.len(), true),
            ),
    {
        crate::generators::create_serializers(&Self::dialect(), expr)
    }

    /// The statements that write the field `expr`, whose first byte stands
    /// at `position`. The position moves on by the field's length. A field
    /// that is a MAC address has no statements: the error names it, and the
    /// position stays.
    pub fn get_field_serializer(expr: &TypeExpr, position: &mut usize) -> (result: Result<
        String,
        GenerateError,
    >)
        requires
            *old(position) + expr.expr.byte_length() <= usize::MAX,
        ensures
            text_view(result) == lone_field_text(
                expr@,
                field_text(net_dialect(), expr@, *old(position) as nat, true),
            ),
            result is Ok ==> *final(position) == *old(position) + expr.expr.byte_length(),
            result is Err ==> *final(position) == *old(position),
    {
        crate::generators::get_field_serializer(&Self::dialect(), expr, position)
    }

    /// The statements that read the field `expr`, whose first byte stands at
    /// `position`. The position moves on by the field's length. A field
    /// that is a MAC address has no statements: the error names it, and the
    /// position stays.
    pub fn get_field_deserializer(expr: &TypeExpr, position: &mut usize) -> (result: Result<
        String,
        GenerateError,
    >)
        requires
            *old(position) + expr.expr.byte_length() <= usize::MAX,
        ensures
            text_view(result) == lone_field_text(
                expr@,
                field_text(net_dialect(), expr@, *old(position) as nat, false),
            ),
            result is Ok ==> *final(position) == *old(position) + expr.expr.byte_length(),
            result is Err ==> *final(position) == *old(position),
    {
        crate::generators::get_field_deserializer(&Self::dialect(), expr, position)
    }
}

} // verus!
