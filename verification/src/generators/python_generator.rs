//! The emitter for Python.

use crate::codec::Endianness;
use crate::generators::{
    field_text, fields_text, find_unsupported, functions_text, generated, lone_field_text,
    no_bindings, part_text, rendered, struct_text, supported_text, text_view, Dialect,
    GenerateError,
};
use crate::ir::build_codec;
use crate::models::parsing_models::{PacketExpr, TypeExpr};
use vstd::prelude::*;

verus! {

/// What stands before the first packet.
pub const PYTHON_HEADER: &'static str = "import math\nimport struct\n\n";

/// Opens the type of a packet.
pub const PYTHON_TYPE_OPEN: &'static str = "class $N:\n\tdef __init__(self):\n\t\tpass\n";

/// Declares a scalar field.
pub const PYTHON_SCALAR_FIELD: &'static str = "\t\tself.$F = 0\n";

/// Declares an array field.
pub const PYTHON_ARRAY_FIELD: &'static str = "\t\tself.$F = [0] * $L\n";

/// Declares a calculated field.
pub const PYTHON_CALCULATED_FIELD: &'static str = "\t\tself.$F = 0\n";

/// Closes the type of a packet.
pub const PYTHON_TYPE_CLOSE: &'static str = "\n";

/// Opens the function that writes a packet.
pub const PYTHON_SERIALIZE_OPEN: &'static str = "def serialize_$N(packet):\n\tdata = bytearray($S)\n";

/// Names a field before the statements that write the packet.
pub const PYTHON_WRITE_PROLOGUE: &'static str = "\t$F = packet.$F\n";

/// Closes the function that writes a packet.
pub const PYTHON_SERIALIZE_CLOSE: &'static str = "\treturn bytes(data)\n\n";

/// Opens the function that reads a packet.
pub const PYTHON_DESERIALIZE_OPEN: &'static str = "def deserialize_$N(data):\n\tpacket = $N()\n";

/// Stands between the statements that read a packet and what builds it.
pub const PYTHON_BUILDERS_OPEN: &'static str = "";

/// Hands a scalar field that was read to the packet.
pub const PYTHON_SCALAR_BUILDER: &'static str = "";

/// Starts handing an array field that was read to the packet.
pub const PYTHON_ARRAY_BUILDER_OPEN: &'static str = "";

/// Names one element of an array field that was read.
pub const PYTHON_ARRAY_BUILDER_ITEM: &'static str = "";

/// Stands between two elements of an array field that was read.
pub const PYTHON_ARRAY_BUILDER_SEPARATOR: &'static str = "";

/// Ends handing an array field that was read to the packet.
pub const PYTHON_ARRAY_BUILDER_CLOSE: &'static str = "";

/// Hands a calculated field to the packet.
pub const PYTHON_CALCULATED_BUILDER: &'static str = "";

/// Closes the function that reads a packet.
pub const PYTHON_DESERIALIZE_CLOSE: &'static str = "\treturn packet\n\n";

/// Names a scalar field where it is written to the buffer.
pub const PYTHON_WRITE_SCALAR_ACCESSOR: &'static str = "$F";

/// Names an element of an array field where it is written to the buffer.
pub const PYTHON_WRITE_ELEMENT_ACCESSOR: &'static str = "$F[$E]";

/// Names a scalar field where it is read from the buffer.
pub const PYTHON_READ_SCALAR_ACCESSOR: &'static str = "packet.$F";

/// Names an element of an array field where it is read from the buffer.
pub const PYTHON_READ_ELEMENT_ACCESSOR: &'static str = "packet.$F[$E]";

/// Copies an unsigned slot of one byte into the buffer.
pub const PYTHON_BYTE_WRITE: &'static str = "\tdata[$I] = $A;\n";

/// Copies a signed slot of one byte into the buffer.
pub const PYTHON_SIGNED_BYTE_WRITE: &'static str = "\tdata[$I] = $A & 0xFF;\n";

/// Copies an unsigned slot of one byte out of the buffer.
pub const PYTHON_BYTE_READ: &'static str = "\t$A = data[$I];\n";

/// Copies a signed slot of one byte out of the buffer.
pub const PYTHON_SIGNED_BYTE_READ: &'static str = "\t$A = data[$I] - ((data[$I] & 0x80) << 1);\n";

/// Takes the bits of an integer slot that is about to be written.
pub const PYTHON_INTEGER_WRITE_OPEN: &'static str = "\tbits = struct.unpack('<$W', struct.pack('<$T', $A))[0]\n";

/// Takes the bits of a floating-point slot that is about to be written.
pub const PYTHON_FLOAT_WRITE_OPEN: &'static str = "\tbits = struct.unpack('<$W', struct.pack('<$T', $A))[0]\n";

/// Writes one byte of a slot.
pub const PYTHON_WRITE_BYTE: &'static str = "\tdata[$I] = (bits >> $H) & 0xFF\n";

/// Ends the writing of a slot.
pub const PYTHON_WRITE_CLOSE: &'static str = "";

/// Starts the reading of an integer slot.
pub const PYTHON_INTEGER_READ_OPEN: &'static str = "\tbits = 0\n";

/// Starts the reading of a floating-point slot.
pub const PYTHON_FLOAT_READ_OPEN: &'static str = "\tbits = 0\n";

/// Reads one byte of a slot.
pub const PYTHON_READ_BYTE: &'static str = "\tbits |= data[$I] << $H\n";

/// Stores the bits read as an integer slot.
pub const PYTHON_INTEGER_READ_CLOSE: &'static str = "\t$A = struct.unpack('<$T', struct.pack('<$W', bits))[0]\n";

/// Stores the bits read as a floating-point slot.
pub const PYTHON_FLOAT_READ_CLOSE: &'static str = "\t$A = struct.unpack('<$T', struct.pack('<$W', bits))[0]\n";

/// Names a scalar field in an expression.
pub const PYTHON_SCALAR_REFERENCE: &'static str = "packet.$F";

/// Names an element of an array field in an expression.
pub const PYTHON_ELEMENT_REFERENCE: &'static str = "packet.$F[$E]";

/// An unsigned integer literal.
pub const PYTHON_UNSIGNED_LITERAL: &'static str = "$A";

/// A signed integer literal.
pub const PYTHON_SIGNED_LITERAL: &'static str = "$A";

/// A floating-point literal.
pub const PYTHON_FLOAT_LITERAL: &'static str = "$A";

/// An expression in parentheses.
pub const PYTHON_GROUP: &'static str = "($A)";

/// Two operands joined by an operator.
pub const PYTHON_BINARY: &'static str = "$A $C $B";

/// A power.
pub const PYTHON_POWER: &'static str = "$A ** $B";

/// A conditional: `$A` is the predicate.
pub const PYTHON_SELECT: &'static str = "(($B) if ($A) else ($C))";

/// A square root.
pub const PYTHON_SQRT: &'static str = "math.sqrt($A)";

/// The smaller of two values.
pub const PYTHON_MIN: &'static str = "min($A, $B)";

/// The greater of two values.
pub const PYTHON_MAX: &'static str = "max($A, $B)";

/// Gives a calculated field its value.
pub const PYTHON_CALCULATED_ASSIGN: &'static str = "\tpacket.$F = $A\n";

/// The operator of addition.
pub const PYTHON_OP_PLUS: &'static str = "+";

/// The operator of subtraction.
pub const PYTHON_OP_MINUS: &'static str = "-";

/// The operator of multiplication.
pub const PYTHON_OP_MULT: &'static str = "*";

/// The operator of division.
pub const PYTHON_OP_DIV: &'static str = "/";

/// The operator of greater than.
pub const PYTHON_OP_GT: &'static str = ">";

/// The operator of less than.
pub const PYTHON_OP_LT: &'static str = "<";

/// The operator of greater than or equal.
pub const PYTHON_OP_GTE: &'static str = ">=";

/// The operator of less than or equal.
pub const PYTHON_OP_LTE: &'static str = "<=";

/// The operator of equality.
pub const PYTHON_OP_EQUALS: &'static str = "==";

/// The operator of inequality.
pub const PYTHON_OP_NOT_EQUALS: &'static str = "!=";

/// The operator of conjunction.
pub const PYTHON_OP_AND: &'static str = "and";

/// The operator of disjunction.
pub const PYTHON_OP_OR: &'static str = "or";

/// The type that holds a value declared `int8`.
pub const PYTHON_TYPE_INT8: &'static str = "b";

/// The type that holds a value declared `uint8`.
pub const PYTHON_TYPE_UINT8: &'static str = "B";

/// The type that holds a value declared `int16`.
pub const PYTHON_TYPE_INT16: &'static str = "h";

/// The type that holds a value declared `uint16`.
pub const PYTHON_TYPE_UINT16: &'static str = "H";

/// The type that holds a value declared `int32`.
pub const PYTHON_TYPE_INT32: &'static str = "i";

/// The type that holds a value declared `uint32`.
pub const PYTHON_TYPE_UINT32: &'static str = "I";

/// The type that holds a value declared `int64`.
pub const PYTHON_TYPE_INT64: &'static str = "q";

/// The type that holds a value declared `uint64`.
pub const PYTHON_TYPE_UINT64: &'static str = "Q";

/// The type that holds a value declared `float32`.
pub const PYTHON_TYPE_FLOAT32: &'static str = "f";

/// The type that holds a value declared `float64`.
pub const PYTHON_TYPE_FLOAT64: &'static str = "d";

/// The unsigned type of 1 byte.
pub const PYTHON_WIDE1: &'static str = "B";

/// The unsigned type of 2 bytes.
pub const PYTHON_WIDE2: &'static str = "H";

/// The unsigned type of 4 bytes.
pub const PYTHON_WIDE4: &'static str = "I";

/// The unsigned type of 8 bytes.
pub const PYTHON_WIDE8: &'static str = "Q";

/// The dialect of Python.
pub open spec fn python_dialect() -> Dialect {
    Dialect {
        header: PYTHON_HEADER,
        type_open: PYTHON_TYPE_OPEN,
        scalar_field: PYTHON_SCALAR_FIELD,
        array_field: PYTHON_ARRAY_FIELD,
        calculated_field: PYTHON_CALCULATED_FIELD,
        type_close: PYTHON_TYPE_CLOSE,
        serialize_open: PYTHON_SERIALIZE_OPEN,
        write_prologue: PYTHON_WRITE_PROLOGUE,
        serialize_close: PYTHON_SERIALIZE_CLOSE,
        deserialize_open: PYTHON_DESERIALIZE_OPEN,
        builders_open: PYTHON_BUILDERS_OPEN,
        scalar_builder: PYTHON_SCALAR_BUILDER,
        array_builder_open: PYTHON_ARRAY_BUILDER_OPEN,
        array_builder_item: PYTHON_ARRAY_BUILDER_ITEM,
        array_builder_separator: PYTHON_ARRAY_BUILDER_SEPARATOR,
        array_builder_close: PYTHON_ARRAY_BUILDER_CLOSE,
        calculated_builder: PYTHON_CALCULATED_BUILDER,
        deserialize_close: PYTHON_DESERIALIZE_CLOSE,
        write_scalar_accessor: PYTHON_WRITE_SCALAR_ACCESSOR,
        write_element_accessor: PYTHON_WRITE_ELEMENT_ACCESSOR,
        read_scalar_accessor: PYTHON_READ_SCALAR_ACCESSOR,
        read_element_accessor: PYTHON_READ_ELEMENT_ACCESSOR,
        byte_write: PYTHON_BYTE_WRITE,
        signed_byte_write: PYTHON_SIGNED_BYTE_WRITE,
        byte_read: PYTHON_BYTE_READ,
        signed_byte_read: PYTHON_SIGNED_BYTE_READ,
        integer_write_open: PYTHON_INTEGER_WRITE_OPEN,
        float_write_open: PYTHON_FLOAT_WRITE_OPEN,
        write_byte: PYTHON_WRITE_BYTE,
        write_close: PYTHON_WRITE_CLOSE,
        integer_read_open: PYTHON_INTEGER_READ_OPEN,
        float_read_open: PYTHON_FLOAT_READ_OPEN,
        read_byte: PYTHON_READ_BYTE,
        integer_read_close: PYTHON_INTEGER_READ_CLOSE,
        float_read_close: PYTHON_FLOAT_READ_CLOSE,
        scalar_reference: PYTHON_SCALAR_REFERENCE,
        element_reference: PYTHON_ELEMENT_REFERENCE,
        unsigned_literal: PYTHON_UNSIGNED_LITERAL,
        signed_literal: PYTHON_SIGNED_LITERAL,
        float_literal: PYTHON_FLOAT_LITERAL,
        group: PYTHON_GROUP,
        binary: PYTHON_BINARY,
        power: PYTHON_POWER,
        select: PYTHON_SELECT,
        sqrt: PYTHON_SQRT,
        min: PYTHON_MIN,
        max: PYTHON_MAX,
        calculated_assign: PYTHON_CALCULATED_ASSIGN,
        op_plus: PYTHON_OP_PLUS,
        op_minus: PYTHON_OP_MINUS,
        op_mult: PYTHON_OP_MULT,
        op_div: PYTHON_OP_DIV,
        op_gt: PYTHON_OP_GT,
        op_lt: PYTHON_OP_LT,
        op_gte: PYTHON_OP_GTE,
        op_lte: PYTHON_OP_LTE,
        op_equals: PYTHON_OP_EQUALS,
        op_not_equals: PYTHON_OP_NOT_EQUALS,
        op_and: PYTHON_OP_AND,
        op_or: PYTHON_OP_OR,
        type_int8: PYTHON_TYPE_INT8,
        type_uint8: PYTHON_TYPE_UINT8,
        type_int16: PYTHON_TYPE_INT16,
        type_uint16: PYTHON_TYPE_UINT16,
        type_int32: PYTHON_TYPE_INT32,
        type_uint32: PYTHON_TYPE_UINT32,
        type_int64: PYTHON_TYPE_INT64,
        type_uint64: PYTHON_TYPE_UINT64,
        type_float32: PYTHON_TYPE_FLOAT32,
        type_float64: PYTHON_TYPE_FLOAT64,
        wide1: PYTHON_WIDE1,
        wide2: PYTHON_WIDE2,
        wide4: PYTHON_WIDE4,
        wide8: PYTHON_WIDE8,
    }
}

/// The emitter for Python.
#[derive(Debug, Clone, Copy, PartialEq, Eq)]
pub struct PythonGenerator {}

impl PythonGenerator {
    /// The dialect of Python.
    pub fn dialect() -> (dialect: Dialect)
        ensures
            dialect == python_dialect(),
    {
        Dialect {
            header: PYTHON_HEADER,
            type_open: PYTHON_TYPE_OPEN,
            scalar_field: PYTHON_SCALAR_FIELD,
            array_field: PYTHON_ARRAY_FIELD,
            calculated_field: PYTHON_CALCULATED_FIELD,
            type_close: PYTHON_TYPE_CLOSE,
            serialize_open: PYTHON_SERIALIZE_OPEN,
            write_prologue: PYTHON_WRITE_PROLOGUE,
            serialize_close: PYTHON_SERIALIZE_CLOSE,
            deserialize_open: PYTHON_DESERIALIZE_OPEN,
            builders_open: PYTHON_BUILDERS_OPEN,
            scalar_builder: PYTHON_SCALAR_BUILDER,
            array_builder_open: PYTHON_ARRAY_BUILDER_OPEN,
            array_builder_item: PYTHON_ARRAY_BUILDER_ITEM,
            array_builder_separator: PYTHON_ARRAY_BUILDER_SEPARATOR,
            array_builder_close: PYTHON_ARRAY_BUILDER_CLOSE,
            calculated_builder: PYTHON_CALCULATED_BUILDER,
            deserialize_close: PYTHON_DESERIALIZE_CLOSE,
            write_scalar_accessor: PYTHON_WRITE_SCALAR_ACCESSOR,
            write_element_accessor: PYTHON_WRITE_ELEMENT_ACCESSOR,
            read_scalar_accessor: PYTHON_READ_SCALAR_ACCESSOR,
            read_element_accessor: PYTHON_READ_ELEMENT_ACCESSOR,
            byte_write: PYTHON_BYTE_WRITE,
            signed_byte_write: PYTHON_SIGNED_BYTE_WRITE,
            byte_read: PYTHON_BYTE_READ,
            signed_byte_read: PYTHON_SIGNED_BYTE_READ,
            integer_write_open: PYTHON_INTEGER_WRITE_OPEN,
            float_write_open: PYTHON_FLOAT_WRITE_OPEN,
            write_byte: PYTHON_WRITE_BYTE,
            write_close: PYTHON_WRITE_CLOSE,
            integer_read_open: PYTHON_INTEGER_READ_OPEN,
            float_read_open: PYTHON_FLOAT_READ_OPEN,
            read_byte: PYTHON_READ_BYTE,
            integer_read_close: PYTHON_INTEGER_READ_CLOSE,
            float_read_close: PYTHON_FLOAT_READ_CLOSE,
            scalar_reference: PYTHON_SCALAR_REFERENCE,
            element_reference: PYTHON_ELEMENT_REFERENCE,
            unsigned_literal: PYTHON_UNSIGNED_LITERAL,
            signed_literal: PYTHON_SIGNED_LITERAL,
            float_literal: PYTHON_FLOAT_LITERAL,
            group: PYTHON_GROUP,
            binary: PYTHON_BINARY,
            power: PYTHON_POWER,
            select: PYTHON_SELECT,
            sqrt: PYTHON_SQRT,
            min: PYTHON_MIN,
            max: PYTHON_MAX,
            calculated_assign: PYTHON_CALCULATED_ASSIGN,
            op_plus: PYTHON_OP_PLUS,
            op_minus: PYTHON_OP_MINUS,
            op_mult: PYTHON_OP_MULT,
            op_div: PYTHON_OP_DIV,
            op_gt: PYTHON_OP_GT,
            op_lt: PYTHON_OP_LT,
            op_gte: PYTHON_OP_GTE,
            op_lte: PYTHON_OP_LTE,
            op_equals: PYTHON_OP_EQUALS,
            op_not_equals: PYTHON_OP_NOT_EQUALS,
            op_and: PYTHON_OP_AND,
            op_or: PYTHON_OP_OR,
            type_int8: PYTHON_TYPE_INT8,
            type_uint8: PYTHON_TYPE_UINT8,
            type_int16: PYTHON_TYPE_INT16,
            type_uint16: PYTHON_TYPE_UINT16,
            type_int32: PYTHON_TYPE_INT32,
            type_uint32: PYTHON_TYPE_UINT32,
            type_int64: PYTHON_TYPE_INT64,
            type_uint64: PYTHON_TYPE_UINT64,
            type_float32: PYTHON_TYPE_FLOAT32,
            type_float64: PYTHON_TYPE_FLOAT64,
            wide1: PYTHON_WIDE1,
            wide2: PYTHON_WIDE2,
            wide4: PYTHON_WIDE4,
            wide8: PYTHON_WIDE8,
        }
    }

    /// The source text for the packets of `expr`: the header, then for each
    /// packet its class and the functions that write and read it. No text
    /// comes out where a packet has no codec description or has a field that
    /// is a MAC address: the error of the first such packet comes instead.
    pub fn generate(expr: &Vec<PacketExpr>) -> (result: Result<String, GenerateError>)
        ensures
            text_view(result) == generated(python_dialect(), crate::parser::packet_views(expr@)),
    {
        crate::generators::generate_packets(&Self::dialect(), expr)
    }

    /// The text that stands before the first packet.
    pub fn create_headers() -> (text: String)
        ensures
            text@ == rendered(python_dialect().header@, no_bindings()),
    {
        crate::generators::render(Self::dialect().header, &crate::generators::empty_bindings())
    }

    /// The class of the packet `expr`; the declarations of its fields alone
    /// where `just_fields` holds. There is none where the packet has no codec
    /// description, and none where a field is a MAC address.
    pub fn build_struct(expr: &PacketExpr, just_fields: bool) -> (result: Result<
        String,
        GenerateError,
    >)
        ensures
            text_view(result) == part_text(
                expr@,
                |calculated: Seq<crate::ir::CalculatedCodecView>|
                    struct_text(python_dialect(), expr@, calculated, just_fields),
            ),
    {
        let codec = match build_codec(expr, Endianness::Little) {
            Ok(codec) => codec,
            Err(error) => { return Err(GenerateError::Codec(error)); },
        };
        match find_unsupported(expr) {
            Some(field) => Err(GenerateError::UnsupportedField { packet: expr.name.clone(), field }),
            None => Ok(
                crate::generators::build_struct(
                    &Self::dialect(),
                    expr,
                    codec.calculated(),
                    just_fields,
                ),
            ),
        }
    }

    /// The function that writes the packet `expr` and the function that
    /// reads it. There is none where the packet has no codec description, and
    /// none where a field is a MAC address.
    pub fn create_serialization_functions(expr: &PacketExpr) -> (result: Result<
        String,
        GenerateError,
    >)
        ensures
            text_view(result) == part_text(
                expr@,
                |calculated: Seq<crate::ir::CalculatedCodecView>|
                    functions_text(python_dialect(), expr@, calculated),
            ),
    {
        let codec = match build_codec(expr, Endianness::Little) {
            Ok(codec) => codec,
            Err(error) => { return Err(GenerateError::Codec(error)); },
        };
        match find_unsupported(expr) {
            Some(field) => Err(GenerateError::UnsupportedField { packet: expr.name.clone(), field }),
            None => Ok(
                crate::generators::create_serialization_functions(
                    &Self::dialect(),
                    expr,
                    codec.calculated(),
                ),
            ),
        }
    }

    /// The statements that write every field of `expr`. There are none
    /// where a field is a MAC address: the error names the first such field.
    pub fn create_serializers(expr: &PacketExpr) -> (result: Result<String, GenerateError>)
        requires
            expr@.total_length() <= usize::MAX,
        ensures
            text_view(result) == supported_text(
                expr@,
                fields_text(python_dialect(), expr@.fields, expr@.fields.len(), true),
            ),
    {
        crate::generators::create_serializers(&Self::dialect(), expr)
    }

    /// The statements that write the field `expr`, whose first byte stands
    /// at `position`. The position moves on by the field's length. A field
    /// that is a MAC address has no statements: the error names it, and the
    /// position stays.
    pub fn get_field_serializer(expr: &TypeExpr, position: &mut usize) -> (result: Result<
        String,
        GenerateError,
    >)
        requires
            *old(position) + expr.expr.byte_length() <= usize::MAX,
        ensures
            text_view(result) == lone_field_text(
                expr@,
                field_text(python_dialect(), expr@, *old(position) as nat, true),
            ),
            result is Ok ==> *final(position) == *old(position) + expr.expr.byte_length(),
            result is Err ==> *final(position) == *old(position),
    {
        crate::generators::get_field_serializer(&Self::dialect(), expr, position)
    }

    /// The statements that read the field `expr`, whose first byte stands at
    /// `position`. The position moves on by the field's length. A field
    /// that is a MAC address has no statements: the error names it, and the
    /// position stays.
    pub fn get_field_deserializer(expr: &TypeExpr, position: &mut usize) -> (result: Result<
        String,
        GenerateError,
    >)
        requires
            *old(position) + expr.expr.byte_length() <= usize::MAX,
        ensures
            text_view(result) == lone_field_text(
                expr@,
                field_text(python_dialect(), expr@, *old(position) as nat, false),
            ),
            result is Ok ==> *final(position) == *old(position) + expr.expr.byte_length(),
            result is Err ==> *final(position) == *old(position),
    {
        crate::generators::get_field_deserializer(&Self::dialect(), expr, position)
    }
}

} // verus!
