use packet_builder::generators::c_generator::CGenerator;
use packet_builder::generators::go_generator::GoGenerator;
use packet_builder::generators::python_generator::PythonGenerator;
use packet_builder::generators::rust_generator::RustGenerator;
use packet_builder::generators::net_generator::CSharpGenerator;
use packet_builder::generators::zig_generator::ZigGenerator;
use packet_builder::generators::{generate_each, render, Bindings, GenerateError};
use packet_builder::codec::Endianness;
use packet_builder::ir::{build_codec, CodecError};
use packet_builder::models::codegen_models::TwoStringValue;
use packet_builder::models::parsing_models::{PacketExpr, PacketExprList, TypeExpr, TypeNode};
use packet_builder::parser::parse_file;

fn packets(text: &str) -> PacketExprList {
    PacketExprList { packets: parse_file(&text.to_string()).unwrap() }
}

fn field(id: &str, expr: TypeNode) -> TypeExpr {
    TypeExpr { id: id.to_string(), expr }
}

fn render_with(template: &str, value: tera::Value) -> Result<String, tera::Error> {
    let context = tera::Context::from_value(value)?;
    tera::Tera::one_off(template, &context, false)
}

fn go_text(list: &PacketExprList, template: &str) -> Result<String, GenerateError> {
    GoGenerator::generate(list, |value| render_with(template, value))
}

fn with_mac_address() -> PacketExprList {
    PacketExprList {
        packets: vec![PacketExpr {
            name: "M".to_string(),
            fields: vec![field("x", TypeNode::UnsignedInteger8(None)), field("mac", TypeNode::MacAddress)],
            calculated_fields: vec![],
        }],
    }
}

#[test]
fn c_text_of_a_small_packet() {
    let text = CGenerator::generate(&packets("packet P { a: uint16, t: uint16 = a + 1 }")).unwrap();
    let expected = [
        "#include <math.h>\n",
        "#include <stdint.h>\n",
        "#include <stdlib.h>\n",
        "#include <string.h>\n",
        "\n",
        "typedef struct P {\n",
        "\tuint16_t a;\n",
        "\tuint16_t t;\n",
        "} P;\n",
        "\n",
        "/* Writes a P into a new buffer of 2 bytes. */\n",
        "void serialize_P(uint8_t** data, const P* packet) {\n",
        "\t*data = (uint8_t*) calloc(2, sizeof(uint8_t));\n",
        "\t{\n",
        "\t\tuint16_t bits = (uint16_t) packet->a;\n",
        "\t\t(*data)[0] = (uint8_t) ((bits >> 0) & 0xFF);\n",
        "\t\t(*data)[1] = (uint8_t) ((bits >> 8) & 0xFF);\n",
        "\t}\n",
        "}\n",
        "\n",
        "/* Reads a new P from a buffer of 2 bytes. */\n",
        "void deserialize_P(P** packet, const uint8_t* data) {\n",
        "\t*packet = (P*) malloc(sizeof(P));\n",
        "\t{\n",
        "\t\tuint16_t bits = 0;\n",
        "\t\tbits |= ((uint16_t) data[0]) << 0;\n",
        "\t\tbits |= ((uint16_t) data[1]) << 8;\n",
        "\t\t(*packet)->a = (uint16_t) bits;\n",
        "\t}\n",
        "\t(*packet)->t = (uint16_t) ((*packet)->a + 1);\n",
        "}\n",
        "\n",
    ]
    .concat();
    assert_eq!(text, expected);
}

#[test]
fn a_slot_of_one_byte_is_copied() {
    let flags = field("flags", TypeNode::UnsignedInteger8(Some(2)));
    let mut position = 3usize;
    assert_eq!(
        RustGenerator::get_field_deserializer(&flags, &mut position).unwrap(),
        "\tlet flags_0 = data[3];\n\tlet flags_1 = data[4];\n"
    );
    assert_eq!(position, 5);
    position = 3;
    assert_eq!(
        PythonGenerator::get_field_serializer(&flags, &mut position).unwrap(),
        "\tdata[3] = flags[0];\n\tdata[4] = flags[1];\n"
    );
    assert_eq!(position, 5);
    position = 3;
    assert_eq!(
        ZigGenerator::get_field_deserializer(&flags, &mut position).unwrap(),
        "\tpacket.flags[0] = data[3];\n\tpacket.flags[1] = data[4];\n"
    );
    assert_eq!(position, 5);
    position = 3;
    assert_eq!(
        CGenerator::get_field_deserializer(&flags, &mut position).unwrap(),
        "\t(*packet)->flags[0] = (uint8_t) data[3];\n\t(*packet)->flags[1] = (uint8_t) data[4];\n"
    );
    assert_eq!(position, 5);
    position = 3;
    assert_eq!(
        CGenerator::get_field_serializer(&flags, &mut position).unwrap(),
        "\tmemcpy(&(*data)[3], &packet->flags[0], 1);\n\tmemcpy(&(*data)[4], &packet->flags[1], 1);\n"
    );
    assert_eq!(position, 5);
    position = 3;
    assert_eq!(
        CSharpGenerator::get_field_deserializer(&flags, &mut position).unwrap(),
        "\tvar Flags0 = data[3];\n\tvar Flags1 = data[4];\n"
    );
    assert_eq!(position, 5);
    position = 3;
    assert_eq!(
        RustGenerator::get_field_serializer(&flags, &mut position).unwrap(),
        "\tdata[3] = self.flags[0];\n\tdata[4] = self.flags[1];\n"
    );
    assert_eq!(position, 5);
}

#[test]
fn a_scalar_of_one_byte_is_copied() {
    let version = field("version", TypeNode::UnsignedInteger8(None));
    let level = field("level", TypeNode::Integer8(None));
    let mut position = 0usize;
    assert_eq!(RustGenerator::get_field_deserializer(&version, &mut position).unwrap(), "\tlet version = data[0];\n");
    assert_eq!(RustGenerator::get_field_deserializer(&level, &mut position).unwrap(), "\tlet level = data[1] as i8;\n");
    assert_eq!(position, 2);
    assert_eq!(PythonGenerator::get_field_serializer(&version, &mut position).unwrap(), "\tdata[2] = version;\n");
    assert_eq!(PythonGenerator::get_field_serializer(&level, &mut position).unwrap(), "\tdata[3] = level & 0xFF;\n");
    assert_eq!(position, 4);
    assert_eq!(ZigGenerator::get_field_serializer(&level, &mut position).unwrap(), "\tdata[4] = @bitCast(level);\n");
    assert_eq!(ZigGenerator::get_field_deserializer(&level, &mut position).unwrap(), "\tpacket.level = @bitCast(data[5]);\n");
    assert_eq!(
        CSharpGenerator::get_field_serializer(&level, &mut position).unwrap(),
        "\tdata[6] = unchecked((byte) Level);\n"
    );
    assert_eq!(
        CSharpGenerator::get_field_deserializer(&level, &mut position).unwrap(),
        "\tvar Level = unchecked((sbyte) data[7]);\n"
    );
    assert_eq!(
        PythonGenerator::get_field_deserializer(&level, &mut position).unwrap(),
        "\tpacket.level = data[8] - ((data[8] & 0x80) << 1);\n"
    );
    assert_eq!(position, 9);
}

#[test]
fn a_wider_slot_is_read_in_one_declaration() {
    let length = field("length", TypeNode::UnsignedInteger16(None));
    let mut position = 1usize;
    assert_eq!(
        CSharpGenerator::get_field_deserializer(&length, &mut position).unwrap(),
        "\tvar Length = unchecked((UInt16) ((UInt16) 0 | ((UInt16) data[1] << 0) | ((UInt16) data[2] << 8)));\n"
    );
    assert_eq!(position, 3);
    let ratio = field("ratio", TypeNode::Float32(Some(1)));
    assert_eq!(
        CSharpGenerator::get_field_deserializer(&ratio, &mut position).unwrap(),
        [
            "\tvar Ratio0 = BitConverter.ToSingle(BitConverter.GetBytes(unchecked((UInt32) ((UInt32) 0",
            " | ((UInt32) data[3] << 0)",
            " | ((UInt32) data[4] << 8)",
            " | ((UInt32) data[5] << 16)",
            " | ((UInt32) data[6] << 24)",
            "))), 0);\n",
        ]
        .concat()
    );
    assert_eq!(position, 7);
    position = 1;
    assert_eq!(
        RustGenerator::get_field_deserializer(&length, &mut position).unwrap(),
        [
            "\tlet length = {\n",
            "\t\tlet mut bits: u16 = 0;\n",
            "\t\tbits |= (data[1] as u16) << 0;\n",
            "\t\tbits |= (data[2] as u16) << 8;\n",
            "\t\tbits as u16\n",
            "\t};\n",
        ]
        .concat()
    );
    assert_eq!(position, 3);
}

#[test]
fn references_name_what_was_read() {
    let list = packets(
        "packet Header { packet_length: uint16, flags: uint8[2], total: uint32 = packet_length + flags[1] }",
    );
    let rust = RustGenerator::generate(&list.packets).unwrap();
    assert!(rust.contains("\tlet total = ((packet_length as f64) + (flags_1 as f64)) as u32;\n"));
    let python = PythonGenerator::generate(&list.packets).unwrap();
    assert!(python.contains("\tpacket.total = packet.packet_length + packet.flags[1]\n"));
    let c = CGenerator::generate(&list).unwrap();
    assert!(c.contains("\t(*packet)->total = (uint32_t) ((*packet)->packet_length + (*packet)->flags[1]);\n"));
}

#[test]
fn c_sharp_text_of_a_header() {
    let list = packets(
        "packet Header { version: uint8, packet_length: uint16, flags: uint8[2], total: uint32 = packet_length + flags[1] }",
    );
    let expected = [
        "using System;\n\n",
        "public class Header {\n",
        "\tpublic Byte Version { get; set; }\n",
        "\tpublic UInt16 PacketLength { get; set; }\n",
        "\tpublic Byte[] Flags { get; set; } = new Byte[2];\n",
        "\tpublic UInt32 Total { get; set; }\n",
        "\npublic byte[] Serialize() {\n",
        "\tvar data = new byte[5];\n",
        "\tdata[0] = Version;\n",
        "\t{\n",
        "\t\tUInt16 bits = unchecked((UInt16) PacketLength);\n",
        "\t\tdata[1] = (byte) ((bits >> 0) & 0xFF);\n",
        "\t\tdata[2] = (byte) ((bits >> 8) & 0xFF);\n",
        "\t}\n",
        "\tdata[3] = Flags[0];\n",
        "\tdata[4] = Flags[1];\n",
        "\treturn data;\n",
        "}\n",
        "\npublic static Header Deserialize(byte[] data) {\n",
        "\tvar Version = data[0];\n",
        "\tvar PacketLength = unchecked((UInt16) ((UInt16) 0 | ((UInt16) data[1] << 0) | ((UInt16) data[2] << 8)));\n",
        "\tvar Flags0 = data[3];\n",
        "\tvar Flags1 = data[4];\n",
        "\tvar Total = (UInt32) (PacketLength + Flags1);\n",
        "\tvar result = new Header {\n",
        "\t\tVersion = Version,\n",
        "\t\tPacketLength = PacketLength,\n",
        "\t\tFlags = new Byte[] { Flags0, Flags1 },\n",
        "\t\tTotal = Total,\n",
        "\t};\n",
        "\treturn result;\n",
        "}\n",
        "}\n\n",
    ]
    .concat();
    assert_eq!(CSharpGenerator::generate(&list).unwrap(), expected);
}

#[test]
fn python_text_names_the_fields_before_writing() {
    let list = packets("packet P { a: int8, v: uint16[2] }");
    let expected = [
        "def serialize_P(packet):\n",
        "\tdata = bytearray(5)\n",
        "\ta = packet.a\n",
        "\tv = packet.v\n",
        "\tdata[0] = a & 0xFF;\n",
        "\tbits = struct.unpack('<H', struct.pack('<H', v[0]))[0]\n",
        "\tdata[1] = (bits >> 0) & 0xFF\n",
        "\tdata[2] = (bits >> 8) & 0xFF\n",
        "\tbits = struct.unpack('<H', struct.pack('<H', v[1]))[0]\n",
        "\tdata[3] = (bits >> 0) & 0xFF\n",
        "\tdata[4] = (bits >> 8) & 0xFF\n",
        "\treturn bytes(data)\n\n",
        "def deserialize_P(data):\n",
        "\tpacket = P()\n",
        "\tpacket.a = data[0] - ((data[0] & 0x80) << 1);\n",
        "\tbits = 0\n",
        "\tbits |= data[1] << 0\n",
        "\tbits |= data[2] << 8\n",
        "\tpacket.v[0] = struct.unpack('<H', struct.pack('<H', bits))[0]\n",
        "\tbits = 0\n",
        "\tbits |= data[3] << 0\n",
        "\tbits |= data[4] << 8\n",
        "\tpacket.v[1] = struct.unpack('<H', struct.pack('<H', bits))[0]\n",
        "\treturn packet\n\n",
    ]
    .concat();
    assert_eq!(PythonGenerator::create_serialization_functions(&list.packets[0]).unwrap(), expected);
}

#[test]
fn aggregate_fails_the_generation() {
    let list = packets("packet P { flags: uint8[2], total: uint32 = sum-of(flags) }");
    let expected = Err(GenerateError::Codec(CodecError::UnsupportedExpression {
        packet: "P".to_string(),
        field: "total".to_string(),
    }));
    assert_eq!(CGenerator::generate(&list), expected);
    assert_eq!(RustGenerator::generate(&list.packets), expected);
    assert_eq!(PythonGenerator::generate(&list.packets), expected);
}

#[test]
fn an_aggregate_at_any_depth_fails_the_generation() {
    let list = packets(
        "packet Q { a: uint8 } packet P { flags: uint8[2], total: float64 = 1 + sqrt(max(2, (product-of(flags)))) when flags[0] > 1 else 0 }",
    );
    let expected = Err(GenerateError::Codec(CodecError::UnsupportedExpression {
        packet: "P".to_string(),
        field: "total".to_string(),
    }));
    assert_eq!(CGenerator::generate(&list), expected);
    assert_eq!(CSharpGenerator::generate(&list), expected);
    assert_eq!(RustGenerator::generate(&list.packets), expected);
    assert_eq!(PythonGenerator::generate(&list.packets), expected);
    assert_eq!(ZigGenerator::generate(&list.packets), expected);
    assert_eq!(go_text(&list, "{{ packets | length }}"), expected);
    assert_eq!(RustGenerator::build_struct(&list.packets[1], false), expected);
    assert_eq!(RustGenerator::create_serialization_functions(&list.packets[1]), expected);
}

#[test]
fn rust_functions_of_the_header_packet() {
    let list = packets("packet Header { version: uint8, length: uint16, flags: uint8[2] }");
    let expected = [
        "impl Header {\n",
        "/// Writes the packet into a buffer of 5 bytes.\n",
        "pub fn serialize(&self) -> Vec<u8> {\n",
        "\tlet mut data: Vec<u8> = vec![0; 5];\n",
        "\tdata[0] = self.version;\n",
        "\t{\n",
        "\t\tlet bits = self.length as u16;\n",
        "\t\tdata[1] = ((bits >> 0) & 0xFF) as u8;\n",
        "\t\tdata[2] = ((bits >> 8) & 0xFF) as u8;\n",
        "\t}\n",
        "\tdata[3] = self.flags[0];\n",
        "\tdata[4] = self.flags[1];\n",
        "\tdata\n",
        "}\n\n",
        "/// Reads a packet from a buffer of 5 bytes.\n",
        "pub fn deserialize(data: &[u8]) -> Header {\n",
        "\tlet version = data[0];\n",
        "\tlet length = {\n",
        "\t\tlet mut bits: u16 = 0;\n",
        "\t\tbits |= (data[1] as u16) << 0;\n",
        "\t\tbits |= (data[2] as u16) << 8;\n",
        "\t\tbits as u16\n",
        "\t};\n",
        "\tlet flags_0 = data[3];\n",
        "\tlet flags_1 = data[4];\n",
        "\tHeader {\n",
        "\t\tversion: version,\n",
        "\t\tlength: length,\n",
        "\t\tflags: [flags_0, flags_1],\n",
        "\t}\n",
        "}\n",
        "}\n\n",
    ]
    .concat();
    assert_eq!(RustGenerator::create_serialization_functions(&list.packets[0]).unwrap(), expected);
}

#[test]
fn emitters_follow_the_table_of_slots() {
    let list = packets("packet Header { version: uint8, length: uint16, flags: uint8[2], wide: int64[2] }");
    let packet = &list.packets[0];
    let codec = build_codec(packet, Endianness::Little).unwrap();
    let writer = ZigGenerator::create_serializers(packet).unwrap();
    let mut reader = String::new();
    let mut position = 0usize;
    for field in &packet.fields {
        reader.push_str(&ZigGenerator::get_field_deserializer(field, &mut position).unwrap());
    }
    assert_eq!(position, codec.total_size());
    let mut written = 0usize;
    let mut read = 0usize;
    for slot in codec.slots() {
        for k in 0..slot.byte_width {
            let index = format!("data[{}]", slot.byte_offset + k);
            assert_eq!(writer.matches(index.as_str()).count(), 1);
            assert_eq!(reader.matches(index.as_str()).count(), 1);
            let at_writer = writer.find(index.as_str()).unwrap();
            let at_reader = reader.find(index.as_str()).unwrap();
            assert!(written <= at_writer && read <= at_reader);
            written = at_writer;
            read = at_reader;
        }
    }
    assert_eq!(writer.matches("data[").count(), codec.total_size());
    assert_eq!(reader.matches("data[").count(), codec.total_size());
}

#[test]
fn field_serializer_moves_the_position_on() {
    let field = TypeExpr { id: "v".to_string(), expr: TypeNode::UnsignedInteger16(Some(3)) };
    let mut position = 10usize;
    let text = RustGenerator::get_field_serializer(&field, &mut position).unwrap();
    assert_eq!(position, 16);
    assert!(text.contains("let bits = self.v[2] as u16;"));
    assert!(text.contains("data[15] = ((bits >> 8) & 0xFF) as u8;"));
}

#[test]
fn go_types_of_the_header_packet() {
    let list = packets("packet Header { version: uint8, length: uint16, flags: uint8[2] }");
    let types = GoGenerator::get_go_types(&list.packets[0]);
    assert_eq!(
        types,
        vec![
            TwoStringValue { value1: "Version".to_string(), value2: "uint8".to_string() },
            TwoStringValue { value1: "Length".to_string(), value2: "uint16".to_string() },
            TwoStringValue { value1: "Flags".to_string(), value2: "[]uint8".to_string() },
        ]
    );
}

#[test]
fn go_text_comes_from_the_template() {
    let list = packets("packet Header { version: uint8, flags: uint8[2] }");
    let template = "{% for packet in packets %}type {{ packet.name }} struct { // {{ packet.endian }}\n{% for t in packet.types %}\t{{ t.value1 }} {{ t.value2 }}\n{% endfor %}}\n{% endfor %}";
    let text = go_text(&list, template).unwrap();
    assert_eq!(text, "type Header struct { // little\n\tVersion uint8\n\tFlags []uint8\n}\n");
}

#[test]
fn go_template_is_given_the_packets_alone() {
    let list = packets("packet A { x: uint8 } packet B { }");
    let rendered = GoGenerator::expr_list_to_rendered(&list).unwrap();
    let value = GoGenerator::context_value(&rendered);
    let record = value.as_object().unwrap();
    assert_eq!(record.len(), 1);
    let listed = record.get("packets").unwrap().as_array().unwrap();
    assert_eq!(listed.len(), 2);
    assert_eq!(listed[0].get("name").unwrap().as_str(), Some("A"));
    assert_eq!(listed[1].get("name").unwrap().as_str(), Some("B"));
    let mut seen: Vec<tera::Value> = Vec::new();
    let text = GoGenerator::generate(&list, |given| {
        seen.push(given);
        Ok("done".to_string())
    });
    assert_eq!(text, Ok("done".to_string()));
    assert_eq!(seen, vec![value]);
}

#[test]
fn go_template_error_is_reported() {
    let list = packets("packet Header { version: uint8 }");
    match go_text(&list, "{% for packet in packets %}") {
        Err(GenerateError::Template { message }) => assert!(!message.is_empty()),
        other => panic!("{:?}", other),
    }
}

#[test]
fn mac_address_field_is_refused_by_the_emitters() {
    let list = with_mac_address();
    let expected = Err(GenerateError::UnsupportedField { packet: "M".to_string(), field: "mac".to_string() });
    assert_eq!(CGenerator::generate(&list), expected);
    assert_eq!(CSharpGenerator::generate(&list), expected);
    assert_eq!(ZigGenerator::generate(&list.packets), expected);
    assert_eq!(go_text(&list, ""), expected);
    assert_eq!(GoGenerator::expr_list_to_rendered(&list).unwrap_err(), expected.clone().unwrap_err());
    let packet = &list.packets[0];
    assert_eq!(CGenerator::build_struct(packet, false), expected);
    assert_eq!(CGenerator::build_struct(packet, true), expected);
    assert_eq!(CSharpGenerator::build_class(packet, false), expected);
    assert_eq!(RustGenerator::build_struct(packet, false), expected);
    assert_eq!(PythonGenerator::build_struct(packet, true), expected);
    assert_eq!(ZigGenerator::build_struct(packet, false), expected);
    assert_eq!(CGenerator::create_serialization_functions(packet), expected);
    assert_eq!(CSharpGenerator::create_serialization_functions(packet), expected);
    assert_eq!(RustGenerator::create_serialization_functions(packet), expected);
    assert_eq!(PythonGenerator::create_serialization_functions(packet), expected);
    assert_eq!(ZigGenerator::create_serialization_functions(packet), expected);
    assert_eq!(CGenerator::create_serializers(packet), expected);
    assert_eq!(CSharpGenerator::create_serializers(packet), expected);
    assert_eq!(RustGenerator::create_serializers(packet), expected);
    assert_eq!(PythonGenerator::create_serializers(packet), expected);
    assert_eq!(ZigGenerator::create_serializers(packet), expected);
}

#[test]
fn mac_address_field_has_no_statements() {
    let mac = field("mac", TypeNode::MacAddress);
    let expected = Err(GenerateError::UnsupportedField { packet: String::new(), field: "mac".to_string() });
    let mut position = 7usize;
    assert_eq!(CGenerator::get_field_serializer(&mac, &mut position), expected);
    assert_eq!(CGenerator::get_field_deserializer(&mac, &mut position), expected);
    assert_eq!(CSharpGenerator::get_field_serializer(&mac, &mut position), expected);
    assert_eq!(CSharpGenerator::get_field_deserializer(&mac, &mut position), expected);
    assert_eq!(RustGenerator::get_field_serializer(&mac, &mut position), expected);
    assert_eq!(RustGenerator::get_field_deserializer(&mac, &mut position), expected);
    assert_eq!(PythonGenerator::get_field_serializer(&mac, &mut position), expected);
    assert_eq!(PythonGenerator::get_field_deserializer(&mac, &mut position), expected);
    assert_eq!(ZigGenerator::get_field_serializer(&mac, &mut position), expected);
    assert_eq!(ZigGenerator::get_field_deserializer(&mac, &mut position), expected);
    assert_eq!(position, 7);
}

#[test]
fn duplicate_packet_is_refused_by_the_emitters() {
    let list = packets("packet A { x: uint8 } packet A { y: uint8 }");
    let expected = Err(GenerateError::Codec(CodecError::DuplicateIdentifier {
        packet: "A".to_string(),
        identifier: "A".to_string(),
    }));
    assert_eq!(CGenerator::generate(&list), expected);
    assert_eq!(go_text(&list, ""), expected);
}

#[test]
fn an_error_stays_in_its_packet() {
    let list = packets(
        "packet A { x: uint8 } packet B { f: uint8[2], t: uint8 = sum-of(f) } packet C { y: uint16 } packet A { }",
    );
    let outcomes = generate_each(&CGenerator::dialect(), &list.packets);
    assert_eq!(outcomes.len(), 4);
    let whole = |index: usize| {
        let packet = &list.packets[index];
        let mut text = CGenerator::build_struct(packet, false).unwrap();
        text.push_str(&CGenerator::create_serialization_functions(packet).unwrap());
        text
    };
    assert_eq!(outcomes[0], Ok(whole(0)));
    assert_eq!(
        outcomes[1],
        Err(GenerateError::Codec(CodecError::UnsupportedExpression {
            packet: "B".to_string(),
            field: "t".to_string(),
        }))
    );
    assert_eq!(outcomes[2], Ok(whole(2)));
    assert_eq!(
        outcomes[3],
        Err(GenerateError::Codec(CodecError::DuplicateIdentifier {
            packet: "A".to_string(),
            identifier: "A".to_string(),
        }))
    );
    assert!(CGenerator::generate(&list).is_err());
}

#[test]
fn no_packets_give_the_header_alone() {
    let list = packets("");
    assert_eq!(CGenerator::generate(&list).unwrap(), CGenerator::create_headers());
    assert_eq!(RustGenerator::generate(&list.packets).unwrap(), "#![allow(dead_code)]\n\n");
    assert_eq!(PythonGenerator::generate(&list.packets).unwrap(), "import math\nimport struct\n\n");
    assert_eq!(CSharpGenerator::generate(&list).unwrap(), "using System;\n\n");
    assert_eq!(ZigGenerator::generate(&list.packets).unwrap(), "const std = @import(\"std\");\n\n");
}

#[test]
fn rust_text_of_a_packet_with_a_guard() {
    let text = RustGenerator::generate(&packets("packet P { f: float32[2], t: float64 = f[1] ^ 2 when f[0] > 0.5 else -1 }").packets).unwrap();
    let expected = [
        "#![allow(dead_code)]\n\n",
        "#[derive(Debug, Clone, PartialEq)]\npub struct P {\n",
        "\tpub f: [f32; 2],\n",
        "\tpub t: f64,\n",
        "}\n\n",
        "impl P {\n/// Writes the packet into a buffer of 8 bytes.\npub fn serialize(&self) -> Vec<u8> {\n\tlet mut data: Vec<u8> = vec![0; 8];\n",
        "\t{\n\t\tlet bits = self.f[0].to_bits();\n",
        "\t\tdata[0] = ((bits >> 0) & 0xFF) as u8;\n",
        "\t\tdata[1] = ((bits >> 8) & 0xFF) as u8;\n",
        "\t\tdata[2] = ((bits >> 16) & 0xFF) as u8;\n",
        "\t\tdata[3] = ((bits >> 24) & 0xFF) as u8;\n",
        "\t}\n",
        "\t{\n\t\tlet bits = self.f[1].to_bits();\n",
        "\t\tdata[4] = ((bits >> 0) & 0xFF) as u8;\n",
        "\t\tdata[5] = ((bits >> 8) & 0xFF) as u8;\n",
        "\t\tdata[6] = ((bits >> 16) & 0xFF) as u8;\n",
        "\t\tdata[7] = ((bits >> 24) & 0xFF) as u8;\n",
        "\t}\n",
        "\tdata\n}\n\n",
        "/// Reads a packet from a buffer of 8 bytes.\npub fn deserialize(data: &[u8]) -> P {\n",
        "\tlet f_0 = {\n\t\tlet mut bits: u32 = 0;\n",
        "\t\tbits |= (data[0] as u32) << 0;\n",
        "\t\tbits |= (data[1] as u32) << 8;\n",
        "\t\tbits |= (data[2] as u32) << 16;\n",
        "\t\tbits |= (data[3] as u32) << 24;\n",
        "\t\tf32::from_bits(bits)\n\t};\n",
        "\tlet f_1 = {\n\t\tlet mut bits: u32 = 0;\n",
        "\t\tbits |= (data[4] as u32) << 0;\n",
        "\t\tbits |= (data[5] as u32) << 8;\n",
        "\t\tbits |= (data[6] as u32) << 16;\n",
        "\t\tbits |= (data[7] as u32) << 24;\n",
        "\t\tf32::from_bits(bits)\n\t};\n",
        "\tlet t = (if (f_0 as f64) > 0.5 { (f_1 as f64).powf((2 as f64)) } else { (-1 as f64) }) as f64;\n",
        "\tP {\n",
        "\t\tf: [f_0, f_1],\n",
        "\t\tt: t,\n",
        "\t}\n}\n}\n\n",
    ]
    .concat();
    assert_eq!(text, expected);
}

#[test]
fn parts_of_the_text_can_be_made_alone() {
    let list = packets("packet P { a: int8, v: uint16[2] }");
    let p = &list.packets[0];
    assert_eq!(CGenerator::build_struct(p, true).unwrap(), "\tint8_t a;\n\tuint16_t v[2];\n");
    assert_eq!(
        CGenerator::build_struct(p, false).unwrap(),
        "typedef struct P {\n\tint8_t a;\n\tuint16_t v[2];\n} P;\n\n"
    );
    assert_eq!(
        CSharpGenerator::build_class(p, true).unwrap(),
        "\tpublic SByte a { get; set; }\n\tpublic UInt16[] v { get; set; } = new UInt16[2];\n"
    );
    assert_eq!(
        PythonGenerator::build_struct(p, false).unwrap(),
        "class P:\n\tdef __init__(self):\n\t\tpass\n\t\tself.a = 0\n\t\tself.v = [0] * 2\n\n"
    );
    let functions = ZigGenerator::create_serialization_functions(p).unwrap();
    assert!(functions.starts_with(
        "\npub fn serialize(packet: *const P, data: *[5]u8) void {\n\tconst a = packet.a;\n\tconst v = packet.v;\n\tdata[0] = @bitCast(a);\n"
    ));
    assert!(functions.ends_with("\t\tpacket.v[1] = @bitCast(bits);\n\t}\n}\n};\n\n"));
    let serializers = PythonGenerator::create_serializers(p).unwrap();
    assert_eq!(
        serializers,
        [
            "\tdata[0] = a & 0xFF;\n",
            "\tbits = struct.unpack('<H', struct.pack('<H', v[0]))[0]\n",
            "\tdata[1] = (bits >> 0) & 0xFF\n",
            "\tdata[2] = (bits >> 8) & 0xFF\n",
            "\tbits = struct.unpack('<H', struct.pack('<H', v[1]))[0]\n",
            "\tdata[3] = (bits >> 0) & 0xFF\n",
            "\tdata[4] = (bits >> 8) & 0xFF\n",
        ]
        .concat()
    );
    let mut position = 3usize;
    let reader = CGenerator::get_field_deserializer(&p.fields[0], &mut position).unwrap();
    assert_eq!(position, 4);
    assert_eq!(reader, "\t(*packet)->a = (int8_t)((uint8_t) data[3]);\n");
}

#[test]
fn templates_replace_their_keys() {
    let bindings = Bindings {
        name: "N1",
        field: "f",
        pascal: "Pf",
        camel: "kf",
        kind: "T",
        wide: "W",
        length: 12,
        total: 345,
        index: 6,
        shift: 56,
        element: 0,
        first: "a",
        second: "b",
        third: "c",
    };
    assert_eq!(
        render("$N.$F: $T/$W [$L] $S @$I >>$H #$E $A$B$C $$ $x $ $P $K", &bindings),
        "N1.f: T/W [12] 345 @6 >>56 #0 abc $ $x $ Pf kf"
    );
    assert_eq!(render("", &bindings), "");
}
