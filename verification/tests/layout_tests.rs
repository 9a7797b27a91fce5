use packet_builder::models::parsing_models::TypeNode;

#[test]
fn element_widths_follow_the_type_table() {
    assert_eq!(TypeNode::UnsignedInteger8(None).get_type_length_bytes(), 1);
    assert_eq!(TypeNode::Integer16(None).get_type_length_bytes(), 2);
    assert_eq!(TypeNode::Float32(Some(3)).get_type_length_bytes(), 4);
    assert_eq!(TypeNode::Float64(None).get_type_length_bytes(), 8);
    assert_eq!(TypeNode::MacAddress.get_type_length_bytes(), 6);
}
