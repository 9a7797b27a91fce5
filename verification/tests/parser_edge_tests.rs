use packet_builder::lexer::{tokenize, Token, TokenKind};
use packet_builder::models::parsing_models::{CalculatedField, ExprNode, PacketExpr, TypeNode};
use packet_builder::parser::{parse_file, parse_packets_from_bytes, ParseError, Position, SyntaxReason};

fn parse_text(text: &str) -> Result<Vec<PacketExpr>, ParseError> {
    parse_file(&text.to_string())
}

fn field_expr(text: &str) -> ExprNode {
    let source = format!("packet P {{ c: float64 = {} }}", text);
    *parse_text(&source).unwrap().remove(0).calculated_fields.remove(0).expr
}

fn syntax_error(text: &str) -> (SyntaxReason, usize, Vec<TokenKind>) {
    match parse_text(text).unwrap_err() {
        ParseError::Syntax { reason, position, expected } => (reason, position.offset, expected),
        other => panic!("{:?}", other),
    }
}

fn operators() -> Vec<TokenKind> {
    vec![
        TokenKind::OrOr,
        TokenKind::AndAnd,
        TokenKind::Greater,
        TokenKind::Less,
        TokenKind::GreaterEqual,
        TokenKind::LessEqual,
        TokenKind::EqualEqual,
        TokenKind::NotEqual,
        TokenKind::Plus,
        TokenKind::Minus,
        TokenKind::Star,
        TokenKind::Slash,
        TokenKind::Caret,
    ]
}

fn after_expression(named: bool, closers: Vec<TokenKind>) -> Vec<TokenKind> {
    let mut kinds = if named { vec![TokenKind::LeftBracket, TokenKind::LeftParen] } else { vec![] };
    kinds.extend(operators());
    kinds.extend(closers);
    kinds
}

fn boxed(node: ExprNode) -> Box<ExprNode> {
    Box::new(node)
}

fn name(text: &str) -> ExprNode {
    ExprNode::ValueReference(text.to_string(), None)
}

#[test]
fn tokens_of_a_declaration() {
    let tokens = tokenize("a: uint8[2]".as_bytes()).unwrap();
    let kinds: Vec<TokenKind> = tokens.iter().map(|t| t.kind).collect();
    assert_eq!(
        kinds,
        vec![
            TokenKind::Identifier,
            TokenKind::Colon,
            TokenKind::Identifier,
            TokenKind::LeftBracket,
            TokenKind::Integer,
            TokenKind::RightBracket,
            TokenKind::EndOfInput,
        ]
    );
    assert_eq!(tokens[2], Token { kind: TokenKind::Identifier, start: 3, end: 8 });
    assert_eq!(tokens[6], Token { kind: TokenKind::EndOfInput, start: 11, end: 11 });
}

#[test]
fn keywords_need_a_word_of_their_own() {
    let kinds = |text: &str| -> Vec<TokenKind> {
        tokenize(text.as_bytes()).unwrap().iter().map(|t| t.kind).collect()
    };
    assert_eq!(kinds("when"), vec![TokenKind::KeywordWhen, TokenKind::EndOfInput]);
    assert_eq!(kinds("whenever"), vec![TokenKind::Identifier, TokenKind::EndOfInput]);
    assert_eq!(kinds("sum-of"), vec![TokenKind::SumOf, TokenKind::EndOfInput]);
    assert_eq!(kinds("product-of("), vec![TokenKind::ProductOf, TokenKind::LeftParen, TokenKind::EndOfInput]);
    assert_eq!(
        kinds("sum-offset"),
        vec![TokenKind::Identifier, TokenKind::Minus, TokenKind::Identifier, TokenKind::EndOfInput]
    );
    assert_eq!(kinds("1.5"), vec![TokenKind::Decimal, TokenKind::EndOfInput]);
    assert_eq!(kinds(">= > == = != <= <"), vec![
        TokenKind::GreaterEqual,
        TokenKind::Greater,
        TokenKind::EqualEqual,
        TokenKind::Assign,
        TokenKind::NotEqual,
        TokenKind::LessEqual,
        TokenKind::Less,
        TokenKind::EndOfInput,
    ]);
    assert_eq!(tokenize("a ? b".as_bytes()), Err(2));
    assert_eq!(tokenize("1. ".as_bytes()), Err(1));
    assert_eq!(tokenize("a & b".as_bytes()), Err(2));
}

#[test]
fn no_packet_at_all() {
    assert_eq!(parse_text(""), Ok(vec![]));
    assert_eq!(parse_text(" \n\t\r\n"), Ok(vec![]));
}

#[test]
fn empty_packet_is_legal() {
    let packets = parse_text("packet Empty { }").unwrap();
    assert_eq!(
        packets,
        vec![PacketExpr { name: "Empty".to_string(), fields: vec![], calculated_fields: vec![] }]
    );
}

#[test]
fn packets_come_in_source_order() {
    let packets = parse_text("packet A { x: int8 }\npacket B { y: float32[4] }").unwrap();
    assert_eq!(packets.len(), 2);
    assert_eq!(packets[0].name, "A");
    assert_eq!(packets[1].name, "B");
    assert_eq!(packets[1].fields[0].expr, TypeNode::Float32(Some(4)));
}

#[test]
fn every_type_keyword() {
    let packets = parse_text(
        "packet T { a: int8, b: uint8, c: int16, d: uint16, e: int32, f: uint32, g: int64, h: uint64, i: float32, j: float64[0] }",
    )
    .unwrap();
    let types: Vec<TypeNode> = packets[0].fields.iter().map(|f| f.expr).collect();
    assert_eq!(
        types,
        vec![
            TypeNode::Integer8(None),
            TypeNode::UnsignedInteger8(None),
            TypeNode::Integer16(None),
            TypeNode::UnsignedInteger16(None),
            TypeNode::Integer32(None),
            TypeNode::UnsignedInteger32(None),
            TypeNode::Integer64(None),
            TypeNode::UnsignedInteger64(None),
            TypeNode::Float32(None),
            TypeNode::Float64(Some(0)),
        ]
    );
}

#[test]
fn literals_are_classified() {
    assert_eq!(field_expr("42"), ExprNode::UnsignedInteger64Value(42));
    assert_eq!(field_expr("18446744073709551615"), ExprNode::UnsignedInteger64Value(u64::MAX));
    assert_eq!(field_expr("-42"), ExprNode::Integer64Value(-42));
    assert_eq!(field_expr("-0"), ExprNode::Integer64Value(0));
    assert_eq!(field_expr("-9223372036854775808"), ExprNode::Integer64Value(i64::MIN));
    assert_eq!(field_expr("3.25"), ExprNode::Float64Value("3.25".to_string()));
    assert_eq!(field_expr("-0.5"), ExprNode::Float64Value("-0.5".to_string()));
}

#[test]
fn minus_between_operands_is_subtraction() {
    assert_eq!(
        field_expr("a -1"),
        ExprNode::Minus(boxed(name("a")), boxed(ExprNode::UnsignedInteger64Value(1)))
    );
    assert_eq!(
        field_expr("a - -1"),
        ExprNode::Minus(boxed(name("a")), boxed(ExprNode::Integer64Value(-1)))
    );
}

#[test]
fn precedence_of_all_levels() {
    let one = || boxed(ExprNode::UnsignedInteger64Value(1));
    assert_eq!(
        field_expr("a || b && c > 1 + 1 * 1 ^ 1"),
        ExprNode::Or(
            boxed(name("a")),
            boxed(ExprNode::And(
                boxed(name("b")),
                boxed(ExprNode::Gt(
                    boxed(name("c")),
                    boxed(ExprNode::Plus(
                        one(),
                        boxed(ExprNode::Mult(one(), boxed(ExprNode::Pow(one(), one()))))
                    ))
                ))
            ))
        )
    );
    assert_eq!(
        field_expr("a / b * c"),
        ExprNode::Mult(boxed(ExprNode::Div(boxed(name("a")), boxed(name("b")))), boxed(name("c")))
    );
    assert_eq!(
        field_expr("a <= b != c"),
        ExprNode::NotEquals(boxed(ExprNode::Lte(boxed(name("a")), boxed(name("b")))), boxed(name("c")))
    );
}

#[test]
fn values_of_every_form() {
    assert_eq!(field_expr("flags[3]"), ExprNode::ValueReference("flags".to_string(), Some(3)));
    assert_eq!(
        field_expr("(a)"),
        ExprNode::ParenthesizedExpr(boxed(name("a")))
    );
    assert_eq!(field_expr("sum-of(flags)"), ExprNode::SumOf(boxed(name("flags"))));
    assert_eq!(field_expr("product-of(flags)"), ExprNode::ProductOf(boxed(name("flags"))));
    assert_eq!(
        field_expr("max(a, sqrt(b))"),
        ExprNode::ActivationRecord(
            "max".to_string(),
            vec![name("a"), ExprNode::ActivationRecord("sqrt".to_string(), vec![name("b")])]
        )
    );
    assert_eq!(field_expr("unknown(a)"), ExprNode::ActivationRecord("unknown".to_string(), vec![name("a")]));
}

#[test]
fn guard_repeats_the_expression() {
    let packets = parse_text("packet P { a: uint8, c: uint8 = a when a > 10 else 0 }").unwrap();
    let expected = CalculatedField {
        name: "c".to_string(),
        data_type: "uint8".to_string(),
        expr: boxed(name("a")),
        guard_expr: Some(boxed(ExprNode::GuardExpression(
            boxed(ExprNode::Gt(boxed(name("a")), boxed(ExprNode::UnsignedInteger64Value(10)))),
            boxed(name("a")),
            boxed(ExprNode::UnsignedInteger64Value(0)),
        ))),
    };
    assert_eq!(packets[0].calculated_fields, vec![expected]);
    assert_eq!(packets[0].fields.len(), 1);
}

#[test]
fn syntax_errors_say_what_was_expected() {
    assert_eq!(syntax_error("Header { }"), (SyntaxReason::UnexpectedToken, 0, vec![TokenKind::KeywordPacket, TokenKind::EndOfInput]));
    assert_eq!(syntax_error("packet { }"), (SyntaxReason::UnexpectedToken, 7, vec![TokenKind::Identifier]));
    assert_eq!(syntax_error("packet P a"), (SyntaxReason::UnexpectedToken, 9, vec![TokenKind::LeftBrace]));
    assert_eq!(syntax_error("packet P { 1 }"), (SyntaxReason::UnexpectedToken, 11, vec![TokenKind::Identifier, TokenKind::RightBrace]));
    assert_eq!(syntax_error("packet P { a: 1 }"), (SyntaxReason::UnexpectedToken, 14, vec![TokenKind::Identifier]));
    let after_type = vec![TokenKind::LeftBracket, TokenKind::Assign, TokenKind::Comma, TokenKind::RightBrace];
    assert_eq!(syntax_error("packet P { a: int8 b: int8 }"), (SyntaxReason::UnexpectedToken, 19, after_type.clone()));
    assert_eq!(syntax_error("packet P { a: int8[2] b: int8 }"), (SyntaxReason::UnexpectedToken, 22, vec![TokenKind::Comma, TokenKind::RightBrace]));
    assert_eq!(syntax_error("packet P { a: int8, }"), (SyntaxReason::UnexpectedToken, 20, vec![TokenKind::Identifier]));
    assert_eq!(syntax_error("packet P { a: int8[x] }"), (SyntaxReason::UnexpectedToken, 19, vec![TokenKind::Integer]));
    assert_eq!(syntax_error("packet P { a: int8[2 }"), (SyntaxReason::UnexpectedToken, 21, vec![TokenKind::RightBracket]));
    assert_eq!(syntax_error("packet P { a: int8"), (SyntaxReason::UnexpectedToken, 18, after_type));
    assert_eq!(
        syntax_error("packet P { c: int8 = }"),
        (
            SyntaxReason::UnexpectedToken,
            21,
            vec![
                TokenKind::Integer,
                TokenKind::Decimal,
                TokenKind::Minus,
                TokenKind::Identifier,
                TokenKind::SumOf,
                TokenKind::ProductOf,
                TokenKind::LeftParen,
            ]
        )
    );
    assert_eq!(syntax_error("packet P { c: int8 = - 1 }"), (SyntaxReason::UnexpectedToken, 23, vec![TokenKind::Integer, TokenKind::Decimal]));
    assert_eq!(
        syntax_error("packet P { c: int8 = (a }"),
        (SyntaxReason::UnexpectedToken, 24, after_expression(true, vec![TokenKind::RightParen]))
    );
    assert_eq!(
        syntax_error("packet P { c: int8 = sum-of(1 }"),
        (SyntaxReason::UnexpectedToken, 30, after_expression(false, vec![TokenKind::RightParen]))
    );
    assert_eq!(
        syntax_error("packet P { c: int8 = f(a }"),
        (
            SyntaxReason::UnexpectedToken,
            25,
            after_expression(true, vec![TokenKind::Comma, TokenKind::RightParen])
        )
    );
    assert_eq!(
        syntax_error("packet P { c: int8 = 1 2 }"),
        (
            SyntaxReason::UnexpectedToken,
            23,
            after_expression(
                false,
                vec![TokenKind::KeywordWhen, TokenKind::Comma, TokenKind::RightBrace]
            )
        )
    );
    assert_eq!(
        syntax_error("packet P { c: int8 = a[0] a }"),
        (
            SyntaxReason::UnexpectedToken,
            26,
            after_expression(
                false,
                vec![TokenKind::KeywordWhen, TokenKind::Comma, TokenKind::RightBrace]
            )
        )
    );
    assert_eq!(
        syntax_error("packet P { c: int8 = a when b else c d }"),
        (
            SyntaxReason::UnexpectedToken,
            37,
            after_expression(true, vec![TokenKind::Comma, TokenKind::RightBrace])
        )
    );
    assert_eq!(syntax_error("packet P { c: int8 = sum-of a }"), (SyntaxReason::UnexpectedToken, 28, vec![TokenKind::LeftParen]));
    assert_eq!(
        syntax_error("packet P { c: int8 = a when b }"),
        (SyntaxReason::UnexpectedToken, 30, after_expression(true, vec![TokenKind::KeywordElse]))
    );
    assert_eq!(syntax_error("packet P { a: int8 } }"), (SyntaxReason::UnexpectedToken, 21, vec![TokenKind::KeywordPacket, TokenKind::EndOfInput]));
}

#[test]
fn stray_character_is_located() {
    let error = parse_text("packet P {\n  a: int8;\n}").unwrap_err();
    assert_eq!(
        error,
        ParseError::Syntax {
            reason: SyntaxReason::StrayCharacter,
            position: Position { offset: 20, line: 1, column: 9 },
            expected: vec![],
        }
    );
    let error = parse_packets_from_bytes(&[0x70, 0xC3, 0xA9]).unwrap_err();
    assert_eq!(
        error,
        ParseError::Syntax {
            reason: SyntaxReason::StrayCharacter,
            position: Position { offset: 1, line: 0, column: 1 },
            expected: vec![],
        }
    );
}

#[test]
fn numbers_out_of_range_are_syntax_errors() {
    assert_eq!(syntax_error("packet P { c: int8 = 18446744073709551616 }"), (SyntaxReason::NumberOutOfRange, 21, vec![]));
    assert_eq!(syntax_error("packet P { c: int8 = -9223372036854775809 }"), (SyntaxReason::NumberOutOfRange, 22, vec![]));
    assert_eq!(syntax_error("packet P { a: int8[99999999999999999999] }"), (SyntaxReason::NumberOutOfRange, 19, vec![]));
    assert_eq!(syntax_error("packet P { c: int8 = a[99999999999999999999] }"), (SyntaxReason::NumberOutOfRange, 23, vec![]));
}

#[test]
fn nesting_is_bounded() {
    let nested = |depth: usize| -> String {
        format!("packet P {{ c: int8 = {}1{} }}", "(".repeat(depth), ")".repeat(depth))
    };
    assert!(parse_text(&nested(64)).is_ok());
    assert_eq!(syntax_error(&nested(65)), (SyntaxReason::NestingTooDeep, 21 + 64, vec![]));
    assert_eq!(syntax_error(&nested(5000)).0, SyntaxReason::NestingTooDeep);
}
