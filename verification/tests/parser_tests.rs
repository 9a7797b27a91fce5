use packet_builder::lexer::TokenKind;
use packet_builder::models::parsing_models::{
    BinaryOp, ExprNode, PacketExpr, PrimitiveType, TypeExpr, TypeNode,
};
use packet_builder::parser::{
    expr_from_type_name, parse_file, PacketParser2, ParseError, SyntaxReason,
};

fn parse(text: &str) -> Result<Vec<PacketExpr>, ParseError> {
    parse_file(&text.to_string())
}

fn unsigned(value: u64) -> Box<ExprNode> {
    Box::new(ExprNode::UnsignedInteger64Value(value))
}

fn reference(name: &str) -> Box<ExprNode> {
    Box::new(ExprNode::ValueReference(name.to_string(), None))
}

fn calculated_expr(text: &str) -> ExprNode {
    let source = format!("packet P {{ a: uint8, c: float64 = {} }}", text);
    let packets = parse(&source).unwrap();
    *packets[0].calculated_fields[0].expr.clone()
}

#[test]
fn header_packet_has_its_three_fields() {
    let packets = parse("packet Header { version: uint8, length: uint16, flags: uint8[2] }").unwrap();
    assert_eq!(packets.len(), 1);
    assert_eq!(packets[0].name, "Header");
    assert_eq!(
        packets[0].fields,
        vec![
            TypeExpr { id: "version".to_string(), expr: TypeNode::UnsignedInteger8(None) },
            TypeExpr { id: "length".to_string(), expr: TypeNode::UnsignedInteger16(None) },
            TypeExpr { id: "flags".to_string(), expr: TypeNode::UnsignedInteger8(Some(2)) },
        ]
    );
    assert!(packets[0].calculated_fields.is_empty());
}

#[test]
fn multiplication_binds_tighter_than_addition() {
    assert_eq!(
        calculated_expr("1 + 2 * 3"),
        ExprNode::Plus(unsigned(1), Box::new(ExprNode::Mult(unsigned(2), unsigned(3))))
    );
    assert_ne!(
        calculated_expr("1 + 2 * 3"),
        ExprNode::Mult(Box::new(ExprNode::Plus(unsigned(1), unsigned(2))), unsigned(3))
    );
}

#[test]
fn subtraction_associates_to_the_left() {
    assert_eq!(
        calculated_expr("a - 1 - 2"),
        ExprNode::Minus(Box::new(ExprNode::Minus(reference("a"), unsigned(1))), unsigned(2))
    );
}

#[test]
fn power_associates_to_the_right() {
    assert_eq!(
        calculated_expr("2 ^ 3 ^ 4"),
        ExprNode::Pow(unsigned(2), Box::new(ExprNode::Pow(unsigned(3), unsigned(4))))
    );
}

#[test]
fn unknown_type_is_reported_with_its_place() {
    let error = parse("packet P {\n  a: uint8,\n  b: uint9\n}").unwrap_err();
    match error {
        ParseError::UnknownType { declared_type, field, packet, position } => {
            assert_eq!(declared_type, "uint9");
            assert_eq!(field, "b");
            assert_eq!(packet, "P");
            assert_eq!(position.line, 2);
            assert_eq!(position.column, 5);
            assert_eq!(position.offset, 28);
        }
        other => panic!("{:?}", other),
    }
}

#[test]
fn missing_colon_is_a_syntax_error() {
    let error = parse("packet P { a uint8 }").unwrap_err();
    match error {
        ParseError::Syntax { reason, position, expected } => {
            assert_eq!(reason, SyntaxReason::UnexpectedToken);
            assert_eq!(position.offset, 13);
            assert_eq!(position.line, 0);
            assert_eq!(position.column, 13);
            assert_eq!(expected, vec![TokenKind::Colon]);
        }
        other => panic!("{:?}", other),
    }
}

#[test]
fn the_parser_type_parses_as_parse_file_does() {
    let text = "packet Header { version: uint8, length: uint16, flags: uint8[2] }";
    assert_eq!(PacketParser2::parse(text), parse(text));
    assert_eq!(PacketParser2::parse("packet"), parse("packet"));
    assert!(PacketParser2::parse("packet").is_err());
}

#[test]
fn type_keywords_name_their_types() {
    assert_eq!(
        expr_from_type_name(&"uint16".to_string(), Some(4)),
        Some(TypeNode::UnsignedInteger16(Some(4)))
    );
    assert_eq!(expr_from_type_name(&"float64".to_string(), None), Some(TypeNode::Float64(None)));
    assert_eq!(expr_from_type_name(&"mac".to_string(), None), None);
    assert_eq!(expr_from_type_name(&"Uint8".to_string(), None), None);
    assert_eq!(PrimitiveType::from_keyword(&"int64".to_string()), Some(PrimitiveType::Int64));
    assert_eq!(PrimitiveType::Int64.byte_width(), 8);
    assert_eq!(PrimitiveType::MacAddress.byte_width(), 6);
    assert_eq!(TypeNode::from_primitive(PrimitiveType::MacAddress, Some(3)), TypeNode::MacAddress);
    assert_eq!(TypeNode::Float32(Some(3)).get_primitive(), PrimitiveType::Float32);
    assert_eq!(TypeNode::Float32(Some(3)).get_array_length(), Some(3));
    assert_eq!(TypeNode::Float32(Some(3)).get_element_count(), 3);
    assert_eq!(TypeNode::Float32(None).get_element_count(), 1);
    assert_eq!(TypeNode::Float32(Some(3)).get_length_bytes(), 12);
    assert_eq!(TypeNode::Float32(Some(0)).get_length_bytes(), 0);
}

#[test]
fn expression_trees_can_be_copied_and_built() {
    let tree = calculated_expr("max(a, 1.5) * (a - -2) when a >= 1 else sum-of(a)");
    assert_eq!(tree.deep_clone(), tree);
    assert_eq!(tree.clone(), tree);
    assert_eq!(
        ExprNode::binary(BinaryOp::Lte, ExprNode::NoExpr, ExprNode::MacAddress),
        ExprNode::Lte(Box::new(ExprNode::NoExpr), Box::new(ExprNode::MacAddress))
    );
    assert_eq!(
        ExprNode::call("f".to_string(), vec![ExprNode::NoExpr]),
        ExprNode::ActivationRecord("f".to_string(), vec![ExprNode::NoExpr])
    );
}

#[test]
fn the_packet_of_the_crate_documentation() {
    let text = "packet Header {\n    version: uint8,\n    length: uint16,\n    flags: uint8[2],\n    payload: uint16 = length - 5 when length > 5 else 0\n}\n";
    let packets = parse(text).unwrap();
    assert_eq!(packets[0].fields.len(), 3);
    assert_eq!(packets[0].calculated_fields.len(), 1);
    assert!(packets[0].calculated_fields[0].guard_expr.is_some());
}
