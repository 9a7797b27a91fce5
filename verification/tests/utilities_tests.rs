use packet_builder::codec::{default_endianness, fits_in, Endianness};
use packet_builder::models::codegen_models::VariableName;
use packet_builder::models::{
    CalculatedFields, FieldDefinition, PacketDefinition, PacketFieldType, PacketGroup,
    PacketMultiplexer, PacketMultiplexerChoice,
};
use packet_builder::text::decimal_string;
use packet_builder::utilities::{capitalize_first, is_little_endian, CaseWrapper, Casing};

fn wrap(text: &str) -> CaseWrapper {
    CaseWrapper(text.to_string())
}

fn field(name: &str, field_type: PacketFieldType, repeat: u32) -> FieldDefinition {
    FieldDefinition {
        name: name.to_string(),
        field_type,
        start_byte: 0,
        repeat,
        length: 0,
        variable_name: String::new(),
    }
}

fn group(packets: Vec<PacketDefinition>) -> PacketGroup {
    PacketGroup {
        name: "g".to_string(),
        packet_definition: packets,
        packet_multiplexer: PacketMultiplexer {
            name: "m".to_string(),
            header_packet_definition: "h".to_string(),
            discriminator_begin: 2,
            discriminator_length: 3,
            choices: vec![PacketMultiplexerChoice { value: "1".to_string(), packet: "p".to_string() }],
        },
    }
}

#[test]
fn the_wire_is_little_endian() {
    assert!(is_little_endian(Endianness::Little));
    assert!(!is_little_endian(Endianness::Big));
    assert!(is_little_endian(default_endianness()));
    assert_eq!(default_endianness(), Endianness::Little);
}

#[test]
fn camel_case_lowers_the_first_letter() {
    assert_eq!(wrap("PacketName").to_camel_case(), "packetName");
    assert_eq!(wrap("already").to_camel_case(), "already");
    assert_eq!(wrap("A").to_camel_case(), "A");
    assert_eq!(wrap("").to_camel_case(), "");
    assert_eq!(wrap("_x").to_camel_case(), "_x");
}

#[test]
fn pascal_case_joins_the_words() {
    assert_eq!(wrap("packet_name").to_pascal_case(), "PacketName");
    assert_eq!(wrap("a_b_c").to_pascal_case(), "ABC");
    assert_eq!(wrap("x").to_pascal_case(), "x");
    assert_eq!(wrap("").to_pascal_case(), "");
    assert_eq!(wrap("version").to_pascal_case(), "Version");
}

#[test]
fn snake_case_splits_at_capitals() {
    assert_eq!(wrap("fooBarBaz").to_snake_case(), "foo_ar_az");
    assert_eq!(wrap("Foo").to_snake_case(), "_oo");
    assert_eq!(wrap("plain").to_snake_case(), "plain");
    assert_eq!(wrap("endsWithX").to_snake_case(), "ends_ith");
    assert_eq!(wrap("").to_snake_case(), "");
    assert_eq!(wrap("a\u{c9}b").to_snake_case(), "a_b");
}

#[test]
fn split_leaves_the_separators_out() {
    assert_eq!(wrap("a,b,,c").split_string_by(|c| c == ','), vec!["a", "b", "", "c"]);
    assert_eq!(wrap("").split_string_by(|c| c == ','), vec![""]);
    assert_eq!(wrap(",").split_string_by(|c| c == ','), vec!["", ""]);
    assert_eq!(wrap("abc").split_string_by(|_| false), vec!["abc"]);
}

#[test]
fn capitalize_first_letter() {
    assert_eq!(capitalize_first("version"), "Version");
    assert_eq!(capitalize_first("Version"), "Version");
    assert_eq!(capitalize_first("9lives"), "9lives");
    assert_eq!(capitalize_first(""), "");
    assert_eq!(capitalize_first("z"), "Z");
}

#[test]
fn case_changes_follow_unicode() {
    assert_eq!(capitalize_first("\u{e9}cole"), "\u{c9}cole");
    assert_eq!(capitalize_first("\u{df}a"), "SSa");
    assert_eq!(wrap("\u{c9}cole").to_camel_case(), "\u{e9}cole");
    assert_eq!(wrap("\u{130}x").to_camel_case(), "i\u{307}x");
    assert_eq!(wrap("\u{e9}t\u{e9}_\u{df}").to_pascal_case(), "\u{c9}t\u{e9}SS");
}

#[test]
fn variable_name_in_three_cases() {
    let forms = VariableName::from_string(&"PacketCount".to_string());
    assert_eq!(forms.pascal_case_name, "PacketCount");
    assert_eq!(forms.camel_case_name, "packetCount");
    assert_eq!(forms.snake_case_name, "_acket_ount");
}

#[test]
fn decimal_numerals() {
    assert_eq!(decimal_string(0), "0");
    assert_eq!(decimal_string(7), "7");
    assert_eq!(decimal_string(305), "305");
    assert_eq!(decimal_string(u64::MAX), "18446744073709551615");
}

#[test]
fn values_fit_their_width() {
    assert!(fits_in(255, 1));
    assert!(!fits_in(256, 1));
    assert!(fits_in(0xFFFF_FFFF_FFFF, 6));
    assert!(!fits_in(0x1_0000_0000_0000, 6));
    assert!(fits_in(u64::MAX, 8));
    assert!(fits_in(0, 0));
    assert!(!fits_in(1, 0));
}

#[test]
fn field_type_sizes() {
    let sizes: Vec<u32> = [
        PacketFieldType::Integer8,
        PacketFieldType::UnsignedInteger8,
        PacketFieldType::Integer16,
        PacketFieldType::UnsignedInteger16,
        PacketFieldType::Integer32,
        PacketFieldType::UnsignedInteger32,
        PacketFieldType::Integer64,
        PacketFieldType::UnsignedInteger64,
        PacketFieldType::Float16,
        PacketFieldType::Float32,
        PacketFieldType::Float64,
        PacketFieldType::MacAddress,
        PacketFieldType::DateTime,
        PacketFieldType::Boolean,
    ]
    .iter()
    .map(|t| t.get_size())
    .collect();
    assert_eq!(sizes, vec![1, 1, 2, 2, 4, 4, 8, 8, 4, 4, 8, 6, 4, 1]);
}

#[test]
fn field_predicates_and_ends() {
    let mut f = field("x", PacketFieldType::UnsignedInteger16, 1);
    f.start_byte = 10;
    assert_eq!(f.get_end_byte(), 12);
    assert!(f.is_unsigned_integer_16());
    assert!(!f.is_integer_16());
    assert!(!f.is_integer_8() && !f.is_unsigned_integer_8() && !f.is_integer_32());
    assert!(!f.is_unsigned_integer_32() && !f.is_integer_64() && !f.is_unsigned_integer_64());
    assert!(!f.is_float_16() && !f.is_float_32() && !f.is_float_64());
    assert!(!f.is_mac_address() && !f.is_date_time() && !f.is_boolean());
    assert!(field("m", PacketFieldType::MacAddress, 1).is_mac_address());
    assert!(field("b", PacketFieldType::Boolean, 1).is_boolean());
    assert!(field("d", PacketFieldType::DateTime, 1).is_date_time());
    assert!(field("h", PacketFieldType::Float16, 1).is_float_16());
    assert_eq!(group(vec![]).packet_multiplexer.get_discriminator_end(), 5);
}

#[test]
fn post_process_expands_repeated_fields() {
    let mut g = group(vec![
        PacketDefinition {
            packet_name: "P".to_string(),
            sequence: vec![
                field("Version", PacketFieldType::UnsignedInteger8, 0),
                field("Value", PacketFieldType::Integer16, 3),
                field("Tail", PacketFieldType::Float64, 1),
            ],
            calculated_fields: vec![CalculatedFields {}],
        },
        PacketDefinition {
            packet_name: "Q".to_string(),
            sequence: vec![field("Mac", PacketFieldType::MacAddress, 1)],
            calculated_fields: vec![],
        },
    ]);
    g.post_process();
    let expanded = |name: &str, variable: &str, field_type: PacketFieldType, start: u32, length: u32| {
        FieldDefinition {
            name: name.to_string(),
            field_type,
            start_byte: start,
            repeat: 1,
            length,
            variable_name: variable.to_string(),
        }
    };
    assert_eq!(
        g.packet_definition[0].sequence,
        vec![
            expanded("Version", "version", PacketFieldType::UnsignedInteger8, 0, 1),
            expanded("Value0", "value0", PacketFieldType::Integer16, 1, 2),
            expanded("Value1", "value1", PacketFieldType::Integer16, 3, 2),
            expanded("Value2", "value2", PacketFieldType::Integer16, 5, 2),
            expanded("Tail", "tail", PacketFieldType::Float64, 7, 8),
        ]
    );
    assert_eq!(g.packet_definition[0].packet_name, "P");
    assert_eq!(g.packet_definition[0].calculated_fields.len(), 1);
    assert_eq!(
        g.packet_definition[1].sequence,
        vec![expanded("Mac", "mac", PacketFieldType::MacAddress, 0, 6)]
    );
    assert_eq!(g.name, "g");
    assert_eq!(g.packet_multiplexer.discriminator_begin, 2);
}

#[test]
fn post_process_is_refused_for_what_does_not_fit() {
    let packets = vec![PacketDefinition {
        packet_name: "P".to_string(),
        sequence: vec![
            field("a", PacketFieldType::UnsignedInteger64, u32::MAX / 8),
            field("b", PacketFieldType::UnsignedInteger64, 1),
        ],
        calculated_fields: vec![],
    }];
    let mut g = group(packets.clone());
    assert!(!g.try_post_process());
    assert_eq!(g.packet_definition, packets);
    let mut small = group(vec![PacketDefinition {
        packet_name: "P".to_string(),
        sequence: vec![field("a", PacketFieldType::UnsignedInteger64, 2)],
        calculated_fields: vec![],
    }]);
    assert!(small.try_post_process());
    assert_eq!(small.packet_definition[0].sequence.len(), 2);
    assert_eq!(small.packet_definition[0].sequence[1].start_byte, 8);
}
