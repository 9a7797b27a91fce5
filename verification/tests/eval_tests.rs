use packet_builder::codec::Endianness;
use packet_builder::compiler::compile;
use packet_builder::eval::{evaluate, interpret, slot_values, EvalError, Scalar};
use packet_builder::ir::{build_codec, PacketCodec};
use packet_builder::models::parsing_models::PrimitiveType;
use packet_builder::parser::parse_file;

fn codec(text: &str) -> PacketCodec {
    let packet = parse_file(&text.to_string()).unwrap().remove(0);
    build_codec(&packet, Endianness::Little).unwrap()
}

fn value(expr: &str, a: i128) -> Result<Scalar, EvalError> {
    let codec = codec(&format!("packet P {{ a: int32, b: float32, c: int64 = {} }}", expr));
    evaluate(&codec.calculated()[0].expr, &vec![Some(a), None])
}

#[test]
fn guard_selects_the_branch() {
    let codec = codec("packet P { a: uint8, c: uint8 = a when a > 10 else 0 }");
    let expr = &codec.calculated()[0].expr;
    assert_eq!(evaluate(expr, &vec![Some(11)]), Ok(Scalar::Integer(11)));
    assert_eq!(evaluate(expr, &vec![Some(5)]), Ok(Scalar::Integer(0)));
    assert_eq!(evaluate(expr, &vec![Some(10)]), Ok(Scalar::Integer(0)));
}

#[test]
fn guard_over_a_deserialized_packet() {
    let codec = codec("packet P { a: int8, c: int8 = a when a > -3 else 1 }");
    let raw = codec.deserialize(&[0xFE]).unwrap();
    let values = slot_values(&codec, &raw);
    assert_eq!(values, vec![Some(-2)]);
    assert_eq!(evaluate(&codec.calculated()[0].expr, &values), Ok(Scalar::Integer(-2)));
    let raw = codec.deserialize(&[0x80]).unwrap();
    assert_eq!(
        evaluate(&codec.calculated()[0].expr, &slot_values(&codec, &raw)),
        Ok(Scalar::Integer(1))
    );
}

#[test]
fn arithmetic_is_exact() {
    assert_eq!(value("1 + 2 * 3", 0), Ok(Scalar::Integer(7)));
    assert_eq!(value("(1 + 2) * 3", 0), Ok(Scalar::Integer(9)));
    assert_eq!(value("a - 10", 3), Ok(Scalar::Integer(-7)));
    assert_eq!(value("a / 2", 7), Ok(Scalar::Integer(3)));
    assert_eq!(value("a / 2", -7), Ok(Scalar::Integer(-3)));
    assert_eq!(value("2 ^ 10", 0), Ok(Scalar::Integer(1024)));
    assert_eq!(value("2 ^ 3 ^ 2", 0), Ok(Scalar::Integer(512)));
    assert_eq!(value("a ^ 3", -2), Ok(Scalar::Integer(-8)));
    assert_eq!(value("a ^ 127", -2), Ok(Scalar::Integer(i128::MIN)));
    assert_eq!(value("a ^ 0", 0), Ok(Scalar::Integer(1)));
    assert_eq!(value("min(a, 4)", 9), Ok(Scalar::Integer(4)));
    assert_eq!(value("max(a, 4)", 9), Ok(Scalar::Integer(9)));
}

#[test]
fn comparisons_and_connectives() {
    assert_eq!(value("a >= 3 && a != 4", 3), Ok(Scalar::Boolean(true)));
    assert_eq!(value("a < 3 || a == 4", 4), Ok(Scalar::Boolean(true)));
    assert_eq!(value("a <= 3", 4), Ok(Scalar::Boolean(false)));
    assert_eq!(value("(a > 1) == (a > 2)", 2), Ok(Scalar::Boolean(false)));
}

#[test]
fn every_evaluation_error() {
    assert_eq!(value("a / 0", 1), Err(EvalError::DivisionByZero));
    assert_eq!(value("a ^ -1", 2), Err(EvalError::NegativeExponent));
    assert_eq!(value("2 ^ 127", 0), Err(EvalError::Overflow));
    assert_eq!(value("a ^ 128", -2), Err(EvalError::Overflow));
    assert_eq!(value("18446744073709551615 * 18446744073709551615 * 18446744073709551615", 0), Err(EvalError::Overflow));
    assert_eq!(value("a + (a > 1)", 2), Err(EvalError::TypeMismatch));
    assert_eq!(value("a && 1", 2), Err(EvalError::TypeMismatch));
    assert_eq!(value("1.5 + a", 2), Err(EvalError::NotAnInteger));
    assert_eq!(value("sqrt(a)", 4), Err(EvalError::NotAnInteger));
    assert_eq!(value("b + 1", 4), Err(EvalError::NotAnInteger));
    let codec = codec("packet P { a: int32, c: int64 = a }");
    assert_eq!(evaluate(&codec.calculated()[0].expr, &vec![]), Err(EvalError::MissingSlot { index: 0 }));
}

#[test]
fn bits_are_read_by_type() {
    assert_eq!(interpret(PrimitiveType::UInt8, 0xFF), Some(255));
    assert_eq!(interpret(PrimitiveType::Int8, 0xFF), Some(-1));
    assert_eq!(interpret(PrimitiveType::Int16, 0x8000), Some(-32768));
    assert_eq!(interpret(PrimitiveType::Int32, 0xFFFF_FFFE), Some(-2));
    assert_eq!(interpret(PrimitiveType::Int64, u64::MAX), Some(-1));
    assert_eq!(interpret(PrimitiveType::UInt64, u64::MAX), Some(u64::MAX as i128));
    assert_eq!(interpret(PrimitiveType::MacAddress, 0x0102_0304_0506), Some(0x0102_0304_0506));
    assert_eq!(interpret(PrimitiveType::Float32, 0x3F80_0000), None);
    assert_eq!(interpret(PrimitiveType::Float64, 0), None);
}

#[test]
fn compile_gives_each_packet_its_own_outcome() {
    let text = "packet A { x: uint8 } packet B { y: uint8, z: uint8 = sum-of(y) } packet A { w: uint16 } packet C { v: uint32[3] }";
    let outcomes = compile(&text.to_string(), Endianness::Little).unwrap();
    assert_eq!(outcomes.len(), 4);
    assert_eq!(outcomes[0].as_ref().unwrap().total_size(), 1);
    assert!(outcomes[1].is_err());
    assert!(outcomes[2].is_err());
    assert_eq!(outcomes[3].as_ref().unwrap().total_size(), 12);
    assert!(compile(&"packet {".to_string(), Endianness::Little).is_err());
}
