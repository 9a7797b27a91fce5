use packet_builder::codec::Endianness;
use packet_builder::ir::{build_codec, build_codecs, diagnose, CodecError, CodecExpr, Warning};
use packet_builder::layout::{checked_layout, compute_layout};
use packet_builder::models::parsing_models::{
    BinaryOp, CalculatedField, ExprNode, PacketExpr, PrimitiveType, TypeExpr, TypeNode,
};
use packet_builder::parser::{parse_file, ParseError};
use packet_builder::slots::expand_slots;

fn packet(text: &str) -> PacketExpr {
    parse_file(&text.to_string()).unwrap().remove(0)
}

fn error(text: &str) -> CodecError {
    build_codec(&packet(text), Endianness::Little).unwrap_err()
}

fn s(text: &str) -> String {
    text.to_string()
}

#[test]
fn references_become_slots() {
    let codec = build_codec(
        &packet("packet P { a: uint16, v: uint8[3], b: int32, c: int64 = a + v[2] * b }"),
        Endianness::Little,
    )
    .unwrap();
    let slot = |index: usize, field: &str, element: Option<usize>| {
        Box::new(CodecExpr::Slot { index, field: s(field), element })
    };
    let expected = CodecExpr::Binary(
        BinaryOp::Plus,
        slot(0, "a", None),
        Box::new(CodecExpr::Binary(BinaryOp::Mult, slot(3, "v", Some(2)), slot(4, "b", None))),
    );
    assert_eq!(codec.calculated().len(), 1);
    assert_eq!(codec.calculated()[0].name, "c");
    assert_eq!(codec.calculated()[0].data_type, PrimitiveType::Int64);
    assert_eq!(codec.calculated()[0].expr, expected);
    assert_eq!(codec.name(), "P");
    assert_eq!(codec.fields().len(), 3);
    assert_eq!(codec.layout().total_size, 9);
    assert_eq!(codec.slots().len(), 5);
    assert_eq!(codec.slots()[4].field_index, 2);
    assert_eq!(codec.slots()[4].primitive, PrimitiveType::Int32);
    assert_eq!(codec.slots()[4].byte_offset, 5);
    assert_eq!(codec.slots()[4].byte_width, 4);
    assert_eq!(codec.slots()[4].byte_order, Endianness::Little);
}

#[test]
fn intrinsics_are_resolved() {
    let codec = build_codec(
        &packet("packet P { a: uint16, c: float64 = min(sqrt(a), max(a, 2.5)) }"),
        Endianness::Big,
    )
    .unwrap();
    let a = || Box::new(CodecExpr::Slot { index: 0, field: s("a"), element: None });
    assert_eq!(
        codec.calculated()[0].expr,
        CodecExpr::Min(
            Box::new(CodecExpr::Sqrt(a())),
            Box::new(CodecExpr::Max(a(), Box::new(CodecExpr::Float(s("2.5")))))
        )
    );
    assert_eq!(codec.slots()[0].byte_order, Endianness::Big);
}

fn byte_field(name: &str) -> TypeExpr {
    TypeExpr { id: s(name), expr: TypeNode::UnsignedInteger8(None) }
}

fn copy_of(name: &str, source: &str) -> CalculatedField {
    CalculatedField {
        name: s(name),
        data_type: s("uint8"),
        expr: Box::new(ExprNode::ValueReference(s(source), None)),
        guard_expr: None,
    }
}

fn built(packet: &PacketExpr) -> CodecError {
    build_codec(packet, Endianness::Little).unwrap_err()
}

#[test]
fn duplicate_names_are_refused() {
    let twice_declared = PacketExpr {
        name: s("P"),
        fields: vec![
            byte_field("a"),
            byte_field("b"),
            TypeExpr { id: s("a"), expr: TypeNode::UnsignedInteger16(None) },
        ],
        calculated_fields: vec![],
    };
    assert_eq!(
        built(&twice_declared),
        CodecError::DuplicateIdentifier { packet: s("P"), identifier: s("a") }
    );
    let declared_and_calculated = PacketExpr {
        name: s("P"),
        fields: vec![byte_field("a"), byte_field("b")],
        calculated_fields: vec![copy_of("b", "a")],
    };
    assert_eq!(
        built(&declared_and_calculated),
        CodecError::DuplicateIdentifier { packet: s("P"), identifier: s("b") }
    );
    let twice_calculated = PacketExpr {
        name: s("P"),
        fields: vec![byte_field("a")],
        calculated_fields: vec![copy_of("c", "a"), copy_of("c", "a")],
    };
    assert_eq!(
        built(&twice_calculated),
        CodecError::DuplicateIdentifier { packet: s("P"), identifier: s("c") }
    );
}

#[test]
fn the_parser_refuses_two_rules_of_one_name() {
    let refused = |text: &str, packet: &str, identifier: &str| {
        assert_eq!(
            parse_file(&s(text)),
            Err(ParseError::DuplicateIdentifier { packet: s(packet), identifier: s(identifier) })
        );
    };
    refused("packet P { a: uint8, b: uint8, a: uint16 }", "P", "a");
    refused("packet P { a: uint8, b: uint8, b: uint8 = a }", "P", "b");
    refused("packet P { a: uint8, c: uint8 = a, c: uint8 = a }", "P", "c");
    refused("packet Q { a: uint8 } packet P { x: uint8, y: uint8, y: uint8, x: uint8 }", "P", "y");
    assert!(parse_file(&s("packet Q { a: uint8 } packet P { a: uint8 }")).is_ok());
    assert!(matches!(
        parse_file(&s("packet P { a: uint8, a: uint8 } packet Q {")),
        Err(ParseError::Syntax { .. })
    ));
}

#[test]
fn duplicate_packet_names_are_refused_one_by_one() {
    let packets = parse_file(&s("packet A { x: uint8 } packet B { } packet A { y: uint8 }")).unwrap();
    let outcomes = build_codecs(&packets, Endianness::Little);
    assert!(outcomes[0].is_ok());
    assert!(outcomes[1].is_ok());
    assert_eq!(
        outcomes[2],
        Err(CodecError::DuplicateIdentifier { packet: s("A"), identifier: s("A") })
    );
}

#[test]
fn unsupported_expressions_are_refused() {
    let unsupported = CodecError::UnsupportedExpression { packet: s("P"), field: s("c") };
    assert_eq!(error("packet P { v: uint8[2], c: uint8 = sum-of(v) }"), unsupported);
    assert_eq!(error("packet P { v: uint8[2], c: uint8 = 1 + product-of(v) }"), unsupported);
    assert_eq!(error("packet P { a: uint8, c: uint8 = log(a) }"), unsupported);
    assert_eq!(error("packet P { a: uint8, c: uint8 = sqrt(a, a) }"), unsupported);
    assert_eq!(error("packet P { a: uint8, c: uint8 = min(a) }"), unsupported);
    assert_eq!(error("packet P { v: uint8[2], c: uint8 = v }"), unsupported);
    let empty = PacketExpr {
        name: s("P"),
        fields: vec![],
        calculated_fields: vec![CalculatedField {
            name: s("c"),
            data_type: s("uint8"),
            expr: Box::new(ExprNode::NoExpr),
            guard_expr: None,
        }],
    };
    assert_eq!(build_codec(&empty, Endianness::Little), Err(unsupported));
}

#[test]
fn references_are_checked() {
    assert_eq!(
        error("packet P { v: uint8[2], c: uint8 = v[2] }"),
        CodecError::ArrayIndexOutOfRange { packet: s("P"), field: s("c"), reference: s("v"), index: 2 }
    );
    assert_eq!(
        error("packet P { a: uint8, c: uint8 = a[0] }"),
        CodecError::ArrayIndexOutOfRange { packet: s("P"), field: s("c"), reference: s("a"), index: 0 }
    );
    assert_eq!(
        error("packet P { a: uint8, c: uint8 = b }"),
        CodecError::UnknownReference { packet: s("P"), field: s("c"), reference: s("b") }
    );
    assert_eq!(
        error("packet P { a: uint8, c: uint8 = a, d: uint8 = c }"),
        CodecError::UnknownReference { packet: s("P"), field: s("d"), reference: s("c") }
    );
    assert_eq!(
        error("packet P { a: uint8, c: uint8 = 1 when a > 0 else z }"),
        CodecError::UnknownReference { packet: s("P"), field: s("c"), reference: s("z") }
    );
}

#[test]
fn calculated_type_must_be_known() {
    assert_eq!(
        error("packet P { a: uint8, c: number = a }"),
        CodecError::UnknownType { packet: s("P"), field: s("c"), declared_type: s("number") }
    );
}

#[test]
fn packets_that_cannot_be_addressed_are_refused() {
    let huge = PacketExpr {
        name: s("Huge"),
        fields: vec![
            TypeExpr { id: s("a"), expr: TypeNode::UnsignedInteger64(Some(usize::MAX / 8)) },
            TypeExpr { id: s("b"), expr: TypeNode::UnsignedInteger64(Some(1)) },
        ],
        calculated_fields: vec![],
    };
    assert_eq!(checked_layout(&huge), None);
    assert_eq!(build_codec(&huge, Endianness::Little), Err(CodecError::PacketTooLarge { packet: s("Huge") }));
    let wide = PacketExpr {
        name: s("Wide"),
        fields: vec![TypeExpr { id: s("a"), expr: TypeNode::UnsignedInteger16(Some(usize::MAX)) }],
        calculated_fields: vec![],
    };
    assert_eq!(checked_layout(&wide), None);
    assert_eq!(wide.fields[0].expr.checked_length_bytes(), None);
    assert_eq!(expand_slots(&wide, Endianness::Little), None);
}

#[test]
fn layout_sizes_add_up() {
    let p = packet("packet P { a: uint8[0], b: int16[3], c: float64, d: uint32[2], e: int8 }");
    let layout = compute_layout(&p);
    let sum: usize = layout.entries.iter().map(|e| e.byte_width * e.element_count).sum();
    assert_eq!(sum, layout.total_size);
    assert_eq!(layout.total_size, 0 + 6 + 8 + 8 + 1);
    assert_eq!(p.get_total_length(), 23);
    let offsets: Vec<usize> = layout.entries.iter().map(|e| e.byte_offset).collect();
    assert_eq!(offsets, vec![0, 0, 6, 14, 22]);
    for pair in layout.entries.windows(2) {
        assert_eq!(pair[0].byte_offset + pair[0].byte_width * pair[0].element_count, pair[1].byte_offset);
    }
}

#[test]
fn mac_address_takes_six_bytes() {
    let p = PacketExpr {
        name: s("M"),
        fields: vec![
            TypeExpr { id: s("mac"), expr: TypeNode::MacAddress },
            TypeExpr { id: s("x"), expr: TypeNode::UnsignedInteger8(None) },
        ],
        calculated_fields: vec![],
    };
    assert_eq!(TypeNode::MacAddress.get_length_bytes(), 6);
    let codec = build_codec(&p, Endianness::Little).unwrap();
    assert_eq!(codec.total_size(), 7);
    let bytes = codec.serialize(&vec![0x0102_0304_0506, 9]).unwrap();
    assert_eq!(bytes, vec![6, 5, 4, 3, 2, 1, 9]);
    assert_eq!(codec.deserialize(&bytes).unwrap(), vec![0x0102_0304_0506, 9]);
    assert!(codec.serialize(&vec![0x01_0000_0000_0000, 9]).is_err());
}

#[test]
fn round_trip_of_every_width_in_both_orders() {
    let p = packet("packet P { a: uint8, b: int16, c: uint32[2], d: float64, e: int8[0], f: int64 }");
    for order in [Endianness::Little, Endianness::Big] {
        let codec = build_codec(&p, order).unwrap();
        let values = vec![0xAB, 0xFFFE, 0xDEAD_BEEF, 1, 0x4009_21FB_5444_2D18, u64::MAX];
        let bytes = codec.serialize(&values).unwrap();
        assert_eq!(bytes.len(), 27);
        assert_eq!(codec.deserialize(&bytes).unwrap(), values);
    }
    let little = build_codec(&p, Endianness::Little).unwrap().serialize(&vec![1, 2, 3, 4, 5, 6]).unwrap();
    let big = build_codec(&p, Endianness::Big).unwrap().serialize(&vec![1, 2, 3, 4, 5, 6]).unwrap();
    assert_eq!(&little[1..3], &[2, 0]);
    assert_eq!(&big[1..3], &[0, 2]);
}

#[test]
fn empty_packets_are_warned_of() {
    let packets = parse_file(&s("packet A { } packet B { x: uint8 } packet C { }")).unwrap();
    assert_eq!(
        diagnose(&packets),
        vec![Warning::EmptyPacket { packet: s("A") }, Warning::EmptyPacket { packet: s("C") }]
    );
    let codec = build_codec(&packets[0], Endianness::Little).unwrap();
    assert_eq!(codec.total_size(), 0);
    assert_eq!(codec.serialize(&vec![]), Ok(vec![]));
    assert_eq!(codec.deserialize(&[]), Ok(vec![]));
}
